use signal_box::capture::{extraction_prompt, Capture, ProjectOption};
use signal_box::provider::{
    bearer_authorization, call_provider_for_extraction, call_provider_for_markdown,
    embedding_request, extraction_parse_failure, extraction_reply, indexing_model,
    markdown_reply, repair_extraction_json, EXTRACTION_SYSTEM_PROMPT, MARKDOWN_SYSTEM_PROMPT,
};
use signal_box::settings::ProviderSettings;

fn settings(provider: &str, key: Option<&str>) -> ProviderSettings {
    ProviderSettings {
        provider_type: provider.to_string(),
        base_url: None,
        api_key: key.map(|k| k.to_string()),
        chat_model: "model-x".to_string(),
        embedding_model: None,
        ollama_base_url: None,
    }
}

fn capture() -> Capture {
    Capture {
        id: "c".to_string(),
        raw_text: "raw".to_string(),
        title: Some("T".to_string()),
        summary: None,
        capture_type: "note".to_string(),
        source_kind: "typed".to_string(),
        source: None,
        status: "unprocessed".to_string(),
        processing_status: "idle".to_string(),
        processing_error: None,
        project_id: None,
        suggested_project_id: None,
        suggested_project_name: None,
        created_at: String::new(),
        updated_at: String::new(),
        processed_at: None,
        archived_at: None,
    }
}

#[test]
fn markdown_request_for_openai() {
    let req = call_provider_for_markdown(&settings("openai", Some("sk-1")), "Write it").unwrap();
    assert_eq!(req.url, "https://api.openai.com/v1/chat/completions");
    assert_eq!(req.authorization.as_deref(), Some("Bearer sk-1"));
    assert_eq!(req.model, "model-x");
    assert_eq!(req.temperature_tenths, Some(2));
    assert!(!req.json_output);
    assert!(!req.ollama);
    assert_eq!(req.system_prompt, MARKDOWN_SYSTEM_PROMPT);
    assert_eq!(req.user_prompt, "Write it");
}

#[test]
fn markdown_request_for_ollama_has_no_key() {
    let mut s = settings("ollama", Some("sk-unused"));
    s.ollama_base_url = Some("http://gpu:11434".to_string());
    let req = call_provider_for_markdown(&s, "p").unwrap();
    assert_eq!(req.url, "http://gpu:11434/api/chat");
    assert_eq!(req.authorization, None);
    assert_eq!(req.temperature_tenths, None);
    assert!(req.ollama);
}

#[test]
fn markdown_request_for_openrouter_uses_its_base() {
    let req = call_provider_for_markdown(&settings("openrouter", Some("k")), "p").unwrap();
    assert_eq!(req.url, "https://openrouter.ai/api/v1/chat/completions");
}

#[test]
fn requests_need_valid_settings() {
    assert_eq!(
        call_provider_for_markdown(&settings("openai", None), "p").err().as_deref(),
        Some("API key is required for OpenAI-compatible providers")
    );
    assert_eq!(
        call_provider_for_extraction(&settings("bard", Some("k")), &capture(), &[]).err().as_deref(),
        Some("provider must be OpenAI, OpenRouter, or Ollama")
    );
}

#[test]
fn key_that_cannot_be_a_header_is_refused() {
    assert_eq!(
        call_provider_for_markdown(&settings("openai", Some("sk\n1")), "p").err().as_deref(),
        Some("provider API key could not be used: failed to parse header value")
    );
    assert_eq!(
        bearer_authorization("a\u{7f}b").err().as_deref(),
        Some("provider API key could not be used: failed to parse header value")
    );
    assert_eq!(bearer_authorization("tab\tok").unwrap(), "Bearer tab\tok");
    assert_eq!(bearer_authorization("clé").unwrap(), "Bearer clé");
}

#[test]
fn extraction_request_carries_the_prompt() {
    let c = capture();
    let projects = vec![ProjectOption { id: "p".to_string(), name: "Alpha".to_string() }];
    let req = call_provider_for_extraction(&settings("openai", Some("k")), &c, &projects).unwrap();
    assert_eq!(req.user_prompt, extraction_prompt(&c, &projects));
    assert_eq!(req.system_prompt, EXTRACTION_SYSTEM_PROMPT);
    assert!(req.json_output);
    assert_eq!(req.temperature_tenths, Some(1));
    let ollama = call_provider_for_extraction(&settings("ollama", None), &c, &[]).unwrap();
    assert!(ollama.json_output);
    assert_eq!(ollama.url, "http://localhost:11434/api/chat");
}

#[test]
fn replies_are_read_back() {
    let openai = call_provider_for_markdown(&settings("openai", Some("k")), "p").unwrap();
    let ollama = call_provider_for_markdown(&settings("ollama", None), "p").unwrap();
    assert_eq!(markdown_reply(&openai, Some("  # Plan\n\nBody \n".to_string())).unwrap(), "# Plan\n\nBody");
    assert_eq!(
        markdown_reply(&openai, Some("  \n ".to_string())).err().as_deref(),
        Some("provider response did not include markdown content")
    );
    assert_eq!(
        markdown_reply(&ollama, None).err().as_deref(),
        Some("Ollama response did not include markdown content")
    );
    assert_eq!(extraction_reply(&openai, Some(" {} ".to_string())).unwrap(), " {} ");
    assert_eq!(
        extraction_reply(&openai, None).err().as_deref(),
        Some("provider response did not include message content")
    );
    assert_eq!(
        extraction_reply(&ollama, None).err().as_deref(),
        Some("Ollama response did not include message content")
    );
}

#[test]
fn fenced_json_is_repaired() {
    assert_eq!(repair_extraction_json("```json\n{\"title\": \"x\"}\n```"), "{\"title\": \"x\"}");
    assert_eq!(repair_extraction_json("  ```\n[]\n```  "), "[]");
    assert_eq!(repair_extraction_json("{}"), "{}");
    assert_eq!(repair_extraction_json("``````json{}``````"), "json{}");
    assert_eq!(
        extraction_parse_failure("extraction JSON was invalid: a", "extraction JSON was invalid: b"),
        "extraction JSON was invalid: a; repair attempt failed: extraction JSON was invalid: b"
    );
}

#[test]
fn embedding_requests() {
    let mut s = settings("openai", Some("sk"));
    assert_eq!(
        embedding_request(&s, "text").err().as_deref(),
        Some("embedding model is required for semantic search")
    );
    s.embedding_model = Some("   ".to_string());
    assert_eq!(
        embedding_request(&s, "text").err().as_deref(),
        Some("embedding model is required for semantic search")
    );
    s.embedding_model = Some("text-embedding-3-small".to_string());
    let req = embedding_request(&s, "text").unwrap();
    assert_eq!(req.url, "https://api.openai.com/v1/embeddings");
    assert_eq!(req.authorization.as_deref(), Some("Bearer sk"));
    assert_eq!(req.model, "text-embedding-3-small");
    assert_eq!(req.input, "text");
    assert!(!req.ollama);
    s.api_key = None;
    assert_eq!(embedding_request(&s, "t").err().as_deref(), Some("API key is required for embeddings"));
    let mut o = settings("ollama", None);
    o.embedding_model = Some("nomic-embed-text".to_string());
    let req = embedding_request(&o, "t").unwrap();
    assert_eq!(req.url, "http://localhost:11434/api/embeddings");
    assert!(req.ollama);
    assert_eq!(req.authorization, None);
}

#[test]
fn indexing_needs_an_embedding_model() {
    let mut s = settings("openai", Some("k"));
    assert_eq!(indexing_model(&s).err().as_deref(), Some("embedding model is required for indexing"));
    s.embedding_model = Some(" m ".to_string());
    assert_eq!(indexing_model(&s).unwrap(), " m ");
}
