use signal_box::settings::{
    default_provider_settings, merge_saved_provider_settings, merge_test_provider_settings,
    normalize_optional_text, normalize_optional_url, normalize_secret, provider_base_url,
    sanitize_provider_settings, validate_provider_settings, ProviderSettings,
};

fn settings(provider: &str, key: Option<&str>, model: &str) -> ProviderSettings {
    ProviderSettings {
        provider_type: provider.to_string(),
        base_url: None,
        api_key: key.map(|k| k.to_string()),
        chat_model: model.to_string(),
        embedding_model: None,
        ollama_base_url: None,
    }
}

#[test]
fn default_settings_are_openai_without_key() {
    let s = default_provider_settings();
    assert_eq!(s.provider_type, "openai");
    assert_eq!(s.base_url.as_deref(), Some("https://api.openai.com/v1"));
    assert_eq!(s.api_key, None);
    assert_eq!(s.chat_model, "gpt-4.1-mini");
    assert_eq!(s.embedding_model, None);
    assert_eq!(s.ollama_base_url.as_deref(), Some("http://localhost:11434"));
}

#[test]
fn default_settings_fail_validation_for_missing_key() {
    let s = default_provider_settings();
    assert_eq!(
        validate_provider_settings(&s),
        Err("API key is required for OpenAI-compatible providers".to_string())
    );
}

#[test]
fn sanitized_view_hides_the_key() {
    let mut s = settings("openrouter", Some("sk-secret"), "m");
    s.base_url = Some("https://openrouter.ai/api/v1".to_string());
    let view = sanitize_provider_settings(s);
    assert_eq!(view.api_key, "");
    assert!(view.has_api_key);
    assert_eq!(view.provider_type, "openrouter");
    assert_eq!(view.chat_model, "m");
    assert_eq!(view.base_url.as_deref(), Some("https://openrouter.ai/api/v1"));

    let blank = sanitize_provider_settings(settings("openai", Some("   "), "m"));
    assert!(!blank.has_api_key);
    assert_eq!(blank.api_key, "");
    let none = sanitize_provider_settings(settings("openai", None, "m"));
    assert!(!none.has_api_key);
}

#[test]
fn validation_reports_each_error() {
    assert_eq!(
        validate_provider_settings(&settings("anthropic", Some("k"), "m")),
        Err("provider must be OpenAI, OpenRouter, or Ollama".to_string())
    );
    assert_eq!(
        validate_provider_settings(&settings("openai", Some("k"), "  \t ")),
        Err("chat model is required".to_string())
    );
    assert_eq!(
        validate_provider_settings(&settings("openrouter", Some(" "), "m")),
        Err("API key is required for OpenAI-compatible providers".to_string())
    );
    assert_eq!(validate_provider_settings(&settings("ollama", None, "llama3")), Ok(()));
    assert_eq!(validate_provider_settings(&settings("openai", Some("k"), "m")), Ok(()));
    assert_eq!(
        validate_provider_settings(&settings("OpenAI", Some("k"), "m")),
        Err("provider must be OpenAI, OpenRouter, or Ollama".to_string())
    );
}

#[test]
fn normalizing_text_trims_and_drops_blanks() {
    assert_eq!(normalize_optional_text(Some("  hello world \n".to_string())).as_deref(), Some("hello world"));
    assert_eq!(normalize_optional_text(Some(" \t\n ".to_string())), None);
    assert_eq!(normalize_optional_text(None), None);
    assert_eq!(normalize_secret(Some(" sk-1 ".to_string())).as_deref(), Some("sk-1"));
    assert_eq!(normalize_secret(Some("".to_string())), None);
    let once = normalize_optional_text(Some("\u{3000} x y \u{a0}".to_string()));
    assert_eq!(once.as_deref(), Some("x y"));
    assert_eq!(normalize_optional_text(once.clone()), once);
}

#[test]
fn normalizing_urls_drops_trailing_slashes() {
    assert_eq!(
        normalize_optional_url(Some(" https://api.example.com/v1/// ".to_string())).as_deref(),
        Some("https://api.example.com/v1")
    );
    assert_eq!(normalize_optional_url(Some("   ".to_string())), None);
    assert_eq!(normalize_optional_url(Some("///".to_string())).as_deref(), Some(""));
    let first = normalize_optional_url(Some("a/ /".to_string()));
    assert_eq!(first.as_deref(), Some("a/ "));
    assert_eq!(normalize_optional_url(first).as_deref(), Some("a"));
}

#[test]
fn base_url_falls_back_per_provider() {
    assert_eq!(provider_base_url(&settings("openai", None, "m")), "https://api.openai.com/v1");
    assert_eq!(provider_base_url(&settings("openrouter", None, "m")), "https://openrouter.ai/api/v1");
    assert_eq!(provider_base_url(&settings("ollama", None, "m")), "http://localhost:11434");
    assert_eq!(provider_base_url(&settings("other", None, "m")), "https://api.openai.com/v1");
    let mut s = settings("ollama", None, "m");
    s.base_url = Some("https://ignored".to_string());
    s.ollama_base_url = Some("http://box:11434".to_string());
    assert_eq!(provider_base_url(&s), "http://box:11434");
}

#[test]
fn saving_with_blank_key_keeps_stored_key() {
    let mut input = settings("openai", Some("   "), "  gpt-4.1  ");
    input.base_url = Some(" https://api.openai.com/v1/ ".to_string());
    input.embedding_model = Some("  ".to_string());
    input.ollama_base_url = Some("http://localhost:11434/".to_string());
    let existing = settings("openai", Some("sk-stored"), "old");
    let saved = merge_saved_provider_settings(input, existing).unwrap();
    assert_eq!(saved.api_key.as_deref(), Some("sk-stored"));
    assert_eq!(saved.chat_model, "gpt-4.1");
    assert_eq!(saved.base_url.as_deref(), Some("https://api.openai.com/v1"));
    assert_eq!(saved.embedding_model, None);
    assert_eq!(saved.ollama_base_url.as_deref(), Some("http://localhost:11434"));
}

#[test]
fn saving_replaces_key_and_validates() {
    let input = settings("openrouter", Some(" sk-new "), "m");
    let existing = settings("openai", Some("sk-old"), "m");
    let saved = merge_saved_provider_settings(input, existing).unwrap();
    assert_eq!(saved.api_key.as_deref(), Some("sk-new"));

    let input = settings("openai", None, "m");
    let existing = settings("openai", None, "m");
    assert_eq!(
        merge_saved_provider_settings(input, existing).err().as_deref(),
        Some("API key is required for OpenAI-compatible providers")
    );
    let input = settings("openai", Some("k"), "   ");
    assert_eq!(
        merge_saved_provider_settings(input, default_provider_settings()).err().as_deref(),
        Some("chat model is required")
    );
}

#[test]
fn saving_does_not_keep_stored_urls_but_testing_does() {
    let input = settings("ollama", None, "llama3");
    let mut existing = settings("ollama", None, "x");
    existing.ollama_base_url = Some("http://gpu-box:11434".to_string());
    existing.base_url = Some("https://stored".to_string());
    let saved = merge_saved_provider_settings(
        settings("ollama", None, "llama3"),
        settings("ollama", None, "x"),
    )
    .unwrap();
    assert_eq!(saved.ollama_base_url, None);
    let tested = merge_test_provider_settings(input, existing).unwrap();
    assert_eq!(tested.ollama_base_url.as_deref(), Some("http://gpu-box:11434"));
    assert_eq!(tested.base_url.as_deref(), Some("https://stored"));
    assert_eq!(tested.chat_model, "llama3");
}
