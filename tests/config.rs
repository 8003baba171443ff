use minion::config::{Config, LLMProvider, LLMProviderDetails, LLMRouterTable};

fn details(endpoint: &str, key: &str) -> LLMProviderDetails {
    LLMProviderDetails {
        api_chat_completions_endpoint: endpoint.to_string(),
        api_key: key.to_string(),
    }
}

fn two_provider_table() -> LLMRouterTable {
    let mut table = LLMRouterTable::new("groq".to_string());
    table.insert("groq".to_string(), details("https://groq.example/v1", "g-key"));
    table.insert("openrouter".to_string(), details("https://or.example/v1", "or-key"));
    table
}

#[test]
fn provider_tags() {
    assert_eq!(LLMProvider::OpenRouter.tag(), "openrouter");
    assert_eq!(LLMProvider::Groq.tag(), "groq");
    assert_eq!(LLMProvider::GoogleGemini.tag(), "google-gemini");
    assert_eq!(LLMProvider::Cohere.tag(), "cohere");
}

#[test]
fn provider_display_names() {
    assert_eq!(LLMProvider::OpenRouter.display_name(), "OpenRouter");
    assert_eq!(LLMProvider::GoogleGemini.display_name(), "Google Gemini");
}

#[test]
fn router_selects_named_provider_and_strips_prefix() {
    let table = two_provider_table();
    let (model, d) = table.details_for_model("openrouter/meta-llama/llama-3-70b").unwrap();
    assert_eq!(model, "meta-llama/llama-3-70b");
    assert_eq!(d.api_chat_completions_endpoint, "https://or.example/v1");
    assert_eq!(d.api_key, "or-key");
}

#[test]
fn router_falls_back_to_default_for_unknown_prefix() {
    let table = two_provider_table();
    let (model, d) = table.details_for_model("mistral/large").unwrap();
    assert_eq!(model, "mistral/large");
    assert_eq!(d.api_key, "g-key");
}

#[test]
fn router_falls_back_to_default_without_separator() {
    let table = two_provider_table();
    let (model, d) = table.details_for_model("llama3-70b").unwrap();
    assert_eq!(model, "llama3-70b");
    assert_eq!(d.api_chat_completions_endpoint, "https://groq.example/v1");
}

#[test]
fn router_prefix_is_case_sensitive() {
    let table = two_provider_table();
    let (model, d) = table.details_for_model("OpenRouter/gpt-4o").unwrap();
    assert_eq!(model, "OpenRouter/gpt-4o");
    assert_eq!(d.api_key, "g-key");
}

#[test]
fn router_without_default_entry_gives_none() {
    let mut table = LLMRouterTable::new("cohere".to_string());
    table.insert("groq".to_string(), details("https://groq.example/v1", "g-key"));
    assert!(table.details_for_model("gpt-4o").is_none());
    let (model, _) = table.details_for_model("groq/llama").unwrap();
    assert_eq!(model, "llama");
}

#[test]
fn router_insert_replaces_existing_tag() {
    let mut table = two_provider_table();
    table.insert("groq".to_string(), details("https://groq.example/v2", "g-key-2"));
    let d = table.get(&"groq".to_string()).unwrap();
    assert_eq!(d.api_key, "g-key-2");
    assert_eq!(table.default_provider(), "groq");
}

#[test]
fn router_table_from_config() {
    let mut config = Config::default();
    config.llm_provider = Some(LLMProvider::GoogleGemini);
    config.google_gemini_key = Some("gem".to_string());
    config.cohere_key = Some("co".to_string());
    let table = config.llm_router_table().unwrap();
    assert_eq!(table.default_provider(), "google-gemini");
    assert!(table.get(&"openrouter".to_string()).is_none());
    let d = table.get(&"cohere".to_string()).unwrap();
    assert_eq!(d.api_chat_completions_endpoint, "https://api.cohere.ai/compatibility/v1/chat/completions");
    assert_eq!(d.api_key, "co");
    let (model, d) = table.details_for_model("gemini-2.0-flash").unwrap();
    assert_eq!(model, "gemini-2.0-flash");
    assert_eq!(
        d.api_chat_completions_endpoint,
        "https://generativelanguage.googleapis.com/v1beta/openai/chat/completions"
    );
}

#[test]
fn router_table_needs_chosen_provider() {
    let mut config = Config::default();
    config.openrouter_key = Some("k".to_string());
    assert!(config.llm_router_table().is_none());
}

#[test]
fn provider_details_of_chosen_provider() {
    let mut config = Config::default();
    config.llm_provider = Some(LLMProvider::OpenRouter);
    assert!(config.llm_provider_details().is_none());
    config.openrouter_key = Some("or".to_string());
    let d = config.llm_provider_details().unwrap();
    assert_eq!(d.api_chat_completions_endpoint, "https://openrouter.ai/api/v1/chat/completions");
    assert_eq!(d.api_key, "or");
}

#[test]
fn load_or_create_keeps_loaded_config() {
    let mut loaded = Config::default();
    loaded.groq_key = Some("g".to_string());
    let (config, must_save) = Config::load_or_create(Some(loaded));
    assert!(!must_save);
    assert_eq!(config.groq_key.as_deref(), Some("g"));
}

#[test]
fn load_or_create_replaces_unreadable_config() {
    let (config, must_save) = Config::load_or_create(None);
    assert!(must_save);
    assert!(config.llm_provider.is_none());
    assert!(config.openrouter_key.is_none());
}

#[test]
fn openrouter_key_becomes_default_only_when_none_chosen() {
    let mut config = Config::default();
    assert!(config.set_openrouter_key("first".to_string()));
    assert_eq!(config.llm_provider, Some(LLMProvider::OpenRouter));
    config.llm_provider = Some(LLMProvider::Groq);
    assert!(!config.set_openrouter_key("second".to_string()));
    assert_eq!(config.llm_provider, Some(LLMProvider::Groq));
    assert_eq!(config.openrouter_key.as_deref(), Some("second"));
}
