//! Requests to AI providers: what is sent for a chat or an embedding, and how
//! a reply is turned into the text the rest of the app uses.
//!
//! The HTTP exchange itself happens outside the library; these functions fix
//! the endpoint, the credentials, the model and the messages, and read back the
//! content that the provider returned.
use vstd::prelude::*;
use crate::capture::{extraction_prompt, extraction_prompt_spec, Capture, ProjectOption};
use crate::settings::{
    base_url_spec, provider_base_url, settings_error, settings_valid, validate_provider_settings,
    ProviderSettings,
};
use crate::text::{
    blank, chars_of, is_blank, opt_view, owned, push_str, strip_prefixes, strip_prefixes_chars,
    strip_suffixes, strip_suffixes_chars, string_of, text_eq, trim, trim_chars, trim_spec,
};

verus! {

/// The system message for distilling a capture into JSON.
pub const EXTRACTION_SYSTEM_PROMPT: &'static str = "You distil raw developer captures into strict JSON only. Preserve raw user input by summarising beside it; do not rewrite it.";

/// The system message for generating a Markdown artefact.
pub const MARKDOWN_SYSTEM_PROMPT: &'static str = "You generate concise developer artefacts in Markdown. Stay grounded in the provided local context and do not invent project facts.";

/// A chat request to a provider.
pub struct ChatRequest {
    /// The endpoint the request is posted to.
    pub url: String,
    /// The `Authorization` header, for OpenAI-compatible providers.
    pub authorization: Option<String>,
    pub model: String,
    /// The sampling temperature in tenths, where the provider is sent one.
    pub temperature_tenths: Option<u32>,
    /// Whether the reply is asked to be a JSON object.
    pub json_output: bool,
    /// Whether the request goes to an Ollama server.
    pub ollama: bool,
    pub system_prompt: String,
    pub user_prompt: String,
}

/// An embedding request to a provider.
pub struct EmbeddingRequest {
    pub url: String,
    pub authorization: Option<String>,
    pub model: String,
    pub input: String,
    /// Whether the request goes to an Ollama server (`prompt` rather than `input`).
    pub ollama: bool,
}

/// A character that `HeaderValue::from_str` accepts: its UTF-8 bytes are all
/// visible (at least 32 and not 127) or a tab.
pub open spec fn header_char_ok(c: char) -> bool {
    let u = c as u32;
    (u >= 32 && u != 127) || u == 9
}

/// Text that `HeaderValue::from_str` accepts.
pub open spec fn header_value_ok(s: Seq<char>) -> bool {
    forall|i: int| 0 <= i < s.len() ==> header_char_ok(#[trigger] s[i])
}

/// Calls `reqwest::header::HeaderValue::from_str` (the `http` crate's), which
/// accepts text whose every byte is at least 32 and not 127, or is a tab; its
/// error displays as `failed to parse header value`.
#[verifier::external_body]
fn check_header_value(s: &str) -> (r: Result<(), String>)
    ensures
        r is Ok <==> header_value_ok(s@),
        r matches Err(e) ==> e@ == "failed to parse header value"@,
{
    match reqwest::header::HeaderValue::from_str(s) {
        Ok(_) => Ok(()),
        Err(error) => Err(error.to_string()),
    }
}

/// The error for a key that cannot be sent in a header.
pub open spec fn unusable_key_error() -> Seq<char> {
    "provider API key could not be used: "@ + "failed to parse header value"@
}

/// The `Authorization` header for an API key: `Bearer <key>`, when it is a
/// valid header value.
pub fn bearer_authorization(api_key: &str) -> (r: Result<String, String>)
    ensures
        match r {
            Ok(h) => h@ == "Bearer "@ + api_key@ && header_value_ok(h@),
            Err(e) => !header_value_ok("Bearer "@ + api_key@) && e@ == unusable_key_error(),
        },
{
    let mut header = owned("Bearer ");
    push_str(&mut header, api_key);
    match check_header_value(header.as_str()) {
        Ok(()) => Ok(header),
        Err(error) => {
            let mut message = owned("provider API key could not be used: ");
            push_str(&mut message, error.as_str());
            Err(message)
        },
    }
}

/// The chat request sent for `settings`, with `system` and `user` messages.
/// Ollama gets `/api/chat` and no key; the others get `/chat/completions`,
/// the bearer key and the temperature.
pub open spec fn chat_request_spec(
    r: ChatRequest,
    settings: ProviderSettings,
    system: Seq<char>,
    user: Seq<char>,
    json_output: bool,
    temperature_tenths: u32,
) -> bool {
    &&& r.model@ == settings.chat_model@
    &&& r.json_output == json_output
    &&& r.system_prompt@ == system
    &&& r.user_prompt@ == user
    &&& if settings.provider_type@ == "ollama"@ {
        &&& r.ollama
        &&& r.url@ == base_url_spec(settings) + "/api/chat"@
        &&& r.authorization is None
        &&& r.temperature_tenths is None
    } else {
        &&& !r.ollama
        &&& r.url@ == base_url_spec(settings) + "/chat/completions"@
        &&& opt_view(r.authorization) == Some("Bearer "@ + opt_view(settings.api_key)->0)
        &&& r.temperature_tenths == Some(temperature_tenths)
    }
}

/// The error, if any, in building a chat request for `settings`.
pub open spec fn chat_request_error(settings: ProviderSettings) -> Option<Seq<char>> {
    match settings_error(settings.provider_type@, settings.chat_model@, opt_view(settings.api_key)) {
        Some(e) => Some(e),
        None => if settings.provider_type@ != "ollama"@ && !header_value_ok(
            "Bearer "@ + opt_view(settings.api_key)->0,
        ) {
            Some(unusable_key_error())
        } else {
            None
        },
    }
}

fn chat_request(
    settings: &ProviderSettings,
    system: &str,
    user: String,
    json_output: bool,
    temperature_tenths: u32,
) -> (r: Result<ChatRequest, String>)
    requires
        settings_valid(*settings),
    ensures
        match r {
            Ok(req) => chat_request_error(*settings) is None && chat_request_spec(
                req,
                *settings,
                system@,
                user@,
                json_output,
                temperature_tenths,
            ),
            Err(e) => chat_request_error(*settings) == Some(e@),
        },
{
    let base = provider_base_url(settings);
    if text_eq(settings.provider_type.as_str(), "ollama") {
        let mut url = base;
        push_str(&mut url, "/api/chat");
        return Ok(
            ChatRequest {
                url,
                authorization: None,
                model: settings.chat_model.clone(),
                temperature_tenths: None,
                json_output,
                ollama: true,
                system_prompt: owned(system),
                user_prompt: user,
            },
        );
    }
    let api_key = match &settings.api_key {
        Some(key) => key,
        None => {
            return Err(owned("API key is required for this provider"));
        },
    };
    let authorization = match bearer_authorization(api_key.as_str()) {
        Ok(h) => h,
        Err(e) => {
            return Err(e);
        },
    };
    let mut url = base;
    push_str(&mut url, "/chat/completions");
    Ok(
        ChatRequest {
            url,
            authorization: Some(authorization),
            model: settings.chat_model.clone(),
            temperature_tenths: Some(temperature_tenths),
            json_output,
            ollama: false,
            system_prompt: owned(system),
            user_prompt: user,
        },
    )
}

/// The request that distils `capture` into structured JSON: the settings must
/// pass validation, the user message is the extraction prompt, the reply is
/// asked to be JSON, and OpenAI-compatible providers get temperature 0.1.
pub fn call_provider_for_extraction(
    settings: &ProviderSettings,
    capture: &Capture,
    projects: &[ProjectOption],
) -> (r: Result<ChatRequest, String>)
    ensures
        match r {
            Ok(req) => chat_request_error(*settings) is None && chat_request_spec(
                req,
                *settings,
                EXTRACTION_SYSTEM_PROMPT@,
                extraction_prompt_spec(*capture, projects@),
                true,
                1,
            ),
            Err(e) => chat_request_error(*settings) == Some(e@),
        },
{
    match validate_provider_settings(settings) {
        Ok(()) => {},
        Err(e) => {
            return Err(e);
        },
    }
    let content = extraction_prompt(capture, projects);
    chat_request(settings, EXTRACTION_SYSTEM_PROMPT, content, true, 1)
}

/// The request that generates Markdown from `prompt`: the settings must pass
/// validation, and OpenAI-compatible providers get temperature 0.2.
pub fn call_provider_for_markdown(settings: &ProviderSettings, prompt: &str) -> (r: Result<
    ChatRequest,
    String,
>)
    ensures
        match r {
            Ok(req) => chat_request_error(*settings) is None && chat_request_spec(
                req,
                *settings,
                MARKDOWN_SYSTEM_PROMPT@,
                prompt@,
                false,
                2,
            ),
            Err(e) => chat_request_error(*settings) == Some(e@),
        },
{
    match validate_provider_settings(settings) {
        Ok(()) => {},
        Err(e) => {
            return Err(e);
        },
    }
    chat_request(settings, MARKDOWN_SYSTEM_PROMPT, owned(prompt), false, 2)
}

/// The content of a reply to an extraction request, or the error for a
/// reply without one.
pub fn extraction_reply(request: &ChatRequest, content: Option<String>) -> (r: Result<String, String>)
    ensures
        match content {
            Some(c) => r matches Ok(t) && t@ == c@,
            None => r matches Err(e) && e@ == if request.ollama {
                "Ollama response did not include message content"@
            } else {
                "provider response did not include message content"@
            },
        },
{
    match content {
        Some(c) => Ok(c),
        None => if request.ollama {
            Err(owned("Ollama response did not include message content"))
        } else {
            Err(owned("provider response did not include message content"))
        },
    }
}

/// The trimmed content of a reply to a Markdown request; a missing or blank
/// content is an error.
pub fn markdown_reply(request: &ChatRequest, content: Option<String>) -> (r: Result<String, String>)
    ensures
        match content {
            Some(c) if !blank(c@) => r matches Ok(t) && t@ == trim_spec(c@),
            _ => r matches Err(e) && e@ == if request.ollama {
                "Ollama response did not include markdown content"@
            } else {
                "provider response did not include markdown content"@
            },
        },
{
    match content {
        Some(c) => {
            if !is_blank(c.as_str()) {
                return Ok(trim(c.as_str()));
            }
        },
        None => {},
    }
    if request.ollama {
        Err(owned("Ollama response did not include markdown content"))
    } else {
        Err(owned("provider response did not include markdown content"))
    }
}

/// A reply with its Markdown code fences removed: trimmed, leading ```` ```json ````
/// and ```` ``` ```` fences and trailing ```` ``` ```` fences stripped, trimmed again.
pub open spec fn repaired_json_spec(raw: Seq<char>) -> Seq<char> {
    trim_spec(
        strip_suffixes(
            strip_prefixes(strip_prefixes(trim_spec(raw), "```json"@), "```"@),
            "```"@,
        ),
    )
}

/// The text tried again when a reply is not valid extraction JSON.
pub fn repair_extraction_json(raw: &str) -> (r: String)
    ensures
        r@ == repaired_json_spec(raw@),
{
    let v = chars_of(raw);
    let t = trim_chars(&v);
    let json_fence = chars_of("```json");
    let fence = chars_of("```");
    let a = strip_prefixes_chars(&t, &json_fence);
    let b = strip_prefixes_chars(&a, &fence);
    let c = strip_suffixes_chars(&b, &fence);
    let d = trim_chars(&c);
    string_of(&d)
}

/// The error when neither the reply nor its repair is valid extraction JSON.
pub fn extraction_parse_failure(first_error: &str, second_error: &str) -> (r: String)
    ensures
        r@ == first_error@ + "; repair attempt failed: "@ + second_error@,
{
    let mut out = owned(first_error);
    push_str(&mut out, "; repair attempt failed: ");
    push_str(&mut out, second_error);
    out
}

/// The embedding model, when one is configured and not blank.
pub open spec fn embedding_model_spec(settings: ProviderSettings) -> Option<Seq<char>> {
    match opt_view(settings.embedding_model) {
        Some(m) => if blank(m) {
            None
        } else {
            Some(m)
        },
        None => None,
    }
}

/// The request that embeds `input`: a non-blank embedding model is required;
/// Ollama gets `/api/embeddings`, the others `/embeddings` with the bearer key.
pub fn embedding_request(settings: &ProviderSettings, input: &str) -> (r: Result<
    EmbeddingRequest,
    String,
>)
    ensures
        match embedding_model_spec(*settings) {
            None => r matches Err(e) && e@ == "embedding model is required for semantic search"@,
            Some(model) => if settings.provider_type@ == "ollama"@ {
                r matches Ok(req) && req.ollama && req.url@ == base_url_spec(*settings)
                    + "/api/embeddings"@ && req.authorization is None && req.model@ == model
                    && req.input@ == input@
            } else {
                match opt_view(settings.api_key) {
                    None => r matches Err(e) && e@ == "API key is required for embeddings"@,
                    Some(key) => if header_value_ok("Bearer "@ + key) {
                        r matches Ok(req) && !req.ollama && req.url@ == base_url_spec(*settings)
                            + "/embeddings"@ && opt_view(req.authorization) == Some(
                            "Bearer "@ + key,
                        ) && req.model@ == model && req.input@ == input@
                    } else {
                        r matches Err(e) && e@ == unusable_key_error()
                    },
                }
            },
        },
{
    let model = match &settings.embedding_model {
        Some(m) => {
            if is_blank(m.as_str()) {
                return Err(owned("embedding model is required for semantic search"));
            }
            m.clone()
        },
        None => {
            return Err(owned("embedding model is required for semantic search"));
        },
    };
    let mut url = provider_base_url(settings);
    if text_eq(settings.provider_type.as_str(), "ollama") {
        push_str(&mut url, "/api/embeddings");
        return Ok(
            EmbeddingRequest { url, authorization: None, model, input: owned(input), ollama: true },
        );
    }
    let api_key = match &settings.api_key {
        Some(key) => key,
        None => {
            return Err(owned("API key is required for embeddings"));
        },
    };
    let authorization = match bearer_authorization(api_key.as_str()) {
        Ok(h) => h,
        Err(e) => {
            return Err(e);
        },
    };
    push_str(&mut url, "/embeddings");
    Ok(
        EmbeddingRequest {
            url,
            authorization: Some(authorization),
            model,
            input: owned(input),
            ollama: false,
        },
    )
}

/// The model that indexing embeds with: any configured embedding model.
pub fn indexing_model(settings: &ProviderSettings) -> (r: Result<String, String>)
    ensures
        match opt_view(settings.embedding_model) {
            Some(m) => r matches Ok(t) && t@ == m,
            None => r matches Err(e) && e@ == "embedding model is required for indexing"@,
        },
{
    match &settings.embedding_model {
        Some(m) => Ok(m.clone()),
        None => Err(owned("embedding model is required for indexing")),
    }
}

} // verus!
