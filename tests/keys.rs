use minion::keys::{code_challenge, code_verifier, random_key};

#[test]
fn challenge_of_known_verifier() {
    assert_eq!(
        code_challenge("dBjftJeZ4CVP-mJ92K9fkjpZ5h9v8eWUrlt8Pc0Y-Kw"),
        "8L3394LG3pimkd-nAPtcw4ClUY1DC5PZCJPJfpZU4RE"
    );
    assert_eq!(code_challenge("abc"), "ungWv48Bz-pBQUDeXa4iI7ADYaOWF3qctBD_YfIAFa0");
}

#[test]
fn verifier_is_128_url_safe_characters() {
    let v = code_verifier();
    assert_eq!(v.len(), 128);
    assert!(v.chars().all(|c| c.is_ascii_alphanumeric() || c == '-' || c == '_'));
    assert_ne!(v, code_verifier());
}

#[test]
fn random_key_is_43_characters() {
    let k = random_key();
    assert_eq!(k.len(), 43);
    assert!(k.chars().all(|c| c.is_ascii_alphanumeric() || c == '-' || c == '_'));
}

#[test]
fn base64_of_short_inputs() {
    // sha256("") is e3b0c442...; its URL-safe base64 is fixed.
    assert_eq!(code_challenge(""), "47DEQpj8HBSa-_TImW-5JCeuQeRkm5NMpJWZG3hSuFU");
}
