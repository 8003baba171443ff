use minion::relay::{inquiry_banner, prompt_for_poll, width_or_default, InquiryState, RelayError};
use minion::text::{center, is_comment, task_from_lines};

#[test]
fn inquiry_round_trip_delivers_exact_answer() {
    let mut relay: InquiryState<u32> = InquiryState::new();
    assert!(relay.inquiry("Which branch?".to_string(), 7).is_ok());
    assert_eq!(relay.get_inquiry(), "Which branch?");
    let delivery = relay.inquiry_response("  main\n".to_string()).ok().unwrap();
    assert_eq!(delivery.sender, 7);
    assert_eq!(delivery.answer, "  main\n");
    assert!(!relay.is_pending());
    assert_eq!(relay.get_inquiry(), "");
}

#[test]
fn answer_without_inquiry_is_client_error() {
    let mut relay: InquiryState<u32> = InquiryState::new();
    let r = relay.inquiry_response("yes".to_string());
    assert!(matches!(r, Err(RelayError::NothingPending)));
    assert!(!relay.is_pending());
}

#[test]
fn second_inquiry_while_pending_is_busy() {
    let mut relay: InquiryState<u32> = InquiryState::new();
    assert!(relay.inquiry("first?".to_string(), 1).is_ok());
    assert_eq!(relay.inquiry("second?".to_string(), 2), Err(RelayError::Busy));
    assert_eq!(relay.get_inquiry(), "first?");
    let delivery = relay.inquiry_response("a".to_string()).ok().unwrap();
    assert_eq!(delivery.sender, 1);
    assert!(relay.inquiry("second?".to_string(), 2).is_ok());
}

#[test]
fn get_inquiry_without_question_is_empty() {
    let relay: InquiryState<()> = InquiryState::new();
    assert_eq!(relay.get_inquiry(), "");
}

#[test]
fn poll_text_of_white_space_asks_nothing() {
    assert!(prompt_for_poll("", 80).is_none());
    assert!(prompt_for_poll(" \n\t ", 80).is_none());
}

#[test]
fn poll_text_is_trimmed_and_framed() {
    let prompt = prompt_for_poll("\n  Use tabs? \n", 20).unwrap();
    assert_eq!(prompt.question, "Use tabs?");
    assert_eq!(prompt.lines.len(), 6);
    assert_eq!(prompt.lines[3], "     Use tabs?");
    assert_eq!(prompt.lines[0], "\u{2500}".repeat(20));
    assert_eq!(prompt.lines[5], "");
}

#[test]
fn center_pads_by_half_the_free_width() {
    assert_eq!(center("abcd", 10), "   abcd");
    assert_eq!(center("abcd", 9), "  abcd");
    assert_eq!(center("abcdefgh", 4), "abcdefgh");
}

#[test]
fn banner_lines() {
    let lines = inquiry_banner("Q", 3);
    assert_eq!(lines[0], "\u{2500}\u{2500}\u{2500}");
    assert_eq!(lines[1], "\u{1f40b}=== ORCA WANTS INPUT ===\u{1f40b}");
    assert_eq!(lines[3], " Q");
    assert_eq!(lines[4], lines[0]);
}

#[test]
fn editor_text_drops_comments_and_trims() {
    let lines: Vec<String> = "\n  Add a README\n# Please describe your task.\n   # indented comment\nwith usage notes\n\n"
        .lines()
        .map(|l| l.to_string())
        .collect();
    assert_eq!(task_from_lines(&lines).as_deref(), Some("Add a README\nwith usage notes"));
}

#[test]
fn editor_text_of_only_comments_is_none() {
    let lines = vec!["".to_string(), "# Please describe your task.".to_string(), "  ".to_string()];
    assert!(task_from_lines(&lines).is_none());
    assert!(task_from_lines(&vec![]).is_none());
}

#[test]
fn comment_lines() {
    assert!(is_comment("# x"));
    assert!(is_comment(" \t# x"));
    assert!(!is_comment("x # y"));
    assert!(!is_comment(""));
}

#[test]
fn banner_headline_is_centered_by_its_bytes() {
    let lines = inquiry_banner("Q", 40);
    assert_eq!(lines[1], format!("{}{}", " ".repeat(4), "\u{1f40b}=== ORCA WANTS INPUT ===\u{1f40b}"));
    assert_eq!(lines[2], format!("{}{}", " ".repeat(10), "\u{1f40b} ORCA is asking:"));
}

#[test]
fn width_falls_back_to_80_columns() {
    assert_eq!(width_or_default(None), 80);
    assert_eq!(width_or_default(Some(132)), 132);
}
