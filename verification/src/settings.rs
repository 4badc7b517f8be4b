//! AI provider settings: defaults, normalisation, validation and the view
//! that hides the API key.
use vstd::prelude::*;
use crate::text::{
    has_suffix, lemma_lead_ws_at, lemma_strip_suffixes_done, lemma_trail_ws_bound,
    lemma_trim_idempotent, trim_start_spec, blank, chars_of, is_blank, opt_view, owned, string_of, strip_suffixes, strip_suffixes_chars,
    text_eq, trim, trim_spec,
};

verus! {

/// The provider configuration as stored.
pub struct ProviderSettings {
    pub provider_type: String,
    pub base_url: Option<String>,
    pub api_key: Option<String>,
    pub chat_model: String,
    pub embedding_model: Option<String>,
    pub ollama_base_url: Option<String>,
}

/// The provider configuration as shown to the user: the key itself never leaves.
pub struct ProviderSettingsView {
    pub provider_type: String,
    pub base_url: Option<String>,
    pub api_key: String,
    pub has_api_key: bool,
    pub chat_model: String,
    pub embedding_model: Option<String>,
    pub ollama_base_url: Option<String>,
}

/// Trimmed text, or nothing when the text is blank.
pub open spec fn norm_text(o: Option<Seq<char>>) -> Option<Seq<char>> {
    match o {
        Some(t) => if blank(t) {
            None
        } else {
            Some(trim_spec(t))
        },
        None => None,
    }
}

/// Normalised text without its trailing slashes.
pub open spec fn norm_url(o: Option<Seq<char>>) -> Option<Seq<char>> {
    match norm_text(o) {
        Some(t) => Some(strip_suffixes(t, seq!['/'])),
        None => None,
    }
}

/// `a`, or `b` when `a` is nothing (`Option::or`).
pub open spec fn or_else(a: Option<Seq<char>>, b: Option<Seq<char>>) -> Option<Seq<char>> {
    if a is Some {
        a
    } else {
        b
    }
}

/// Whether an optional key is present and not blank.
pub open spec fn key_present(k: Option<Seq<char>>) -> bool {
    match k {
        Some(t) => !blank(t),
        None => false,
    }
}

/// The error that validation reports for settings with these fields, if any.
pub open spec fn settings_error(
    provider_type: Seq<char>,
    chat_model: Seq<char>,
    api_key: Option<Seq<char>>,
) -> Option<Seq<char>> {
    if !(provider_type == "openai"@ || provider_type == "openrouter"@ || provider_type
        == "ollama"@) {
        Some("provider must be OpenAI, OpenRouter, or Ollama"@)
    } else if blank(chat_model) {
        Some("chat model is required"@)
    } else if provider_type != "ollama"@ && !key_present(api_key) {
        Some("API key is required for OpenAI-compatible providers"@)
    } else {
        None
    }
}

/// Whether these settings pass validation.
pub open spec fn settings_valid(s: ProviderSettings) -> bool {
    settings_error(s.provider_type@, s.chat_model@, opt_view(s.api_key)) is None
}

/// The base URL that requests go to for these settings.
pub open spec fn base_url_spec(s: ProviderSettings) -> Seq<char> {
    if s.provider_type@ == "openrouter"@ {
        match opt_view(s.base_url) {
            Some(u) => u,
            None => "https://openrouter.ai/api/v1"@,
        }
    } else if s.provider_type@ == "ollama"@ {
        match opt_view(s.ollama_base_url) {
            Some(u) => u,
            None => "http://localhost:11434"@,
        }
    } else {
        match opt_view(s.base_url) {
            Some(u) => u,
            None => "https://api.openai.com/v1"@,
        }
    }
}

/// The settings used when none were saved: OpenAI with `gpt-4.1-mini`, no key.
pub fn default_provider_settings() -> (r: ProviderSettings)
    ensures
        r.provider_type@ == "openai"@,
        opt_view(r.base_url) == Some("https://api.openai.com/v1"@),
        r.api_key is None,
        r.chat_model@ == "gpt-4.1-mini"@,
        r.embedding_model is None,
        opt_view(r.ollama_base_url) == Some("http://localhost:11434"@),
{
    ProviderSettings {
        provider_type: owned("openai"),
        base_url: Some(owned("https://api.openai.com/v1")),
        api_key: None,
        chat_model: owned("gpt-4.1-mini"),
        embedding_model: None,
        ollama_base_url: Some(owned("http://localhost:11434")),
    }
}

/// The view of the settings that is shown: every field but the key is kept,
/// the key is replaced by an empty string and `has_api_key` tells whether a
/// non-blank key is stored.
pub fn sanitize_provider_settings(settings: ProviderSettings) -> (r: ProviderSettingsView)
    ensures
        r.provider_type@ == settings.provider_type@,
        opt_view(r.base_url) == opt_view(settings.base_url),
        r.api_key@ == Seq::<char>::empty(),
        r.has_api_key == key_present(opt_view(settings.api_key)),
        r.chat_model@ == settings.chat_model@,
        opt_view(r.embedding_model) == opt_view(settings.embedding_model),
        opt_view(r.ollama_base_url) == opt_view(settings.ollama_base_url),
{
    let has_api_key = match &settings.api_key {
        Some(key) => !is_blank(key.as_str()),
        None => false,
    };
    ProviderSettingsView {
        provider_type: settings.provider_type,
        base_url: settings.base_url,
        api_key: String::new(),
        has_api_key,
        chat_model: settings.chat_model,
        embedding_model: settings.embedding_model,
        ollama_base_url: settings.ollama_base_url,
    }
}

/// Checks the provider type, the chat model and, for the OpenAI-compatible
/// providers, the API key; fails with the first error that applies.
pub fn validate_provider_settings(settings: &ProviderSettings) -> (r: Result<(), String>)
    ensures
        match r {
            Ok(()) => settings_valid(*settings),
            Err(e) => settings_error(
                settings.provider_type@,
                settings.chat_model@,
                opt_view(settings.api_key),
            ) == Some(e@),
        },
{
    let pt = settings.provider_type.as_str();
    let is_ollama = text_eq(pt, "ollama");
    if !(text_eq(pt, "openai") || text_eq(pt, "openrouter") || is_ollama) {
        return Err(owned("provider must be OpenAI, OpenRouter, or Ollama"));
    }
    if is_blank(settings.chat_model.as_str()) {
        return Err(owned("chat model is required"));
    }
    let has_key = match &settings.api_key {
        Some(key) => !is_blank(key.as_str()),
        None => false,
    };
    if !is_ollama && !has_key {
        return Err(owned("API key is required for OpenAI-compatible providers"));
    }
    Ok(())
}

/// Trims optional text and drops it when nothing is left.
pub fn normalize_optional_text(value: Option<String>) -> (r: Option<String>)
    ensures
        opt_view(r) == norm_text(opt_view(value)),
{
    match value {
        Some(text) => {
            let t = trim(text.as_str());
            if is_blank(text.as_str()) {
                None
            } else {
                Some(t)
            }
        },
        None => None,
    }
}

/// Trims an optional secret and drops it when nothing is left.
pub fn normalize_secret(value: Option<String>) -> (r: Option<String>)
    ensures
        opt_view(r) == norm_text(opt_view(value)),
{
    normalize_optional_text(value)
}

/// Normalises optional text and removes its trailing slashes.
pub fn normalize_optional_url(value: Option<String>) -> (r: Option<String>)
    ensures
        opt_view(r) == norm_url(opt_view(value)),
{
    match normalize_optional_text(value) {
        Some(url) => {
            let v = chars_of(url.as_str());
            let stripped = strip_suffixes_chars(&v, &['/']);
            proof {
                assert(['/']@ =~= seq!['/']);
            }
            Some(string_of(&stripped))
        },
        None => None,
    }
}

/// The base URL for the provider: the configured one, or the provider's
/// well-known default.
pub fn provider_base_url(settings: &ProviderSettings) -> (r: String)
    ensures
        r@ == base_url_spec(*settings),
{
    let pt = settings.provider_type.as_str();
    if text_eq(pt, "openrouter") {
        match &settings.base_url {
            Some(u) => u.clone(),
            None => owned("https://openrouter.ai/api/v1"),
        }
    } else if text_eq(pt, "ollama") {
        match &settings.ollama_base_url {
            Some(u) => u.clone(),
            None => owned("http://localhost:11434"),
        }
    } else {
        match &settings.base_url {
            Some(u) => u.clone(),
            None => owned("https://api.openai.com/v1"),
        }
    }
}

/// Builds the settings to save from the user's input and the stored settings:
/// the input's fields are normalised, a blank key keeps the stored key, and the
/// result must pass validation.
pub fn merge_saved_provider_settings(input: ProviderSettings, existing: ProviderSettings) -> (r:
    Result<ProviderSettings, String>)
    ensures
        ({
            let key = or_else(norm_text(opt_view(input.api_key)), opt_view(existing.api_key));
            let model = trim_spec(input.chat_model@);
            match r {
                Ok(s) => {
                    &&& s.provider_type@ == input.provider_type@
                    &&& opt_view(s.base_url) == norm_url(opt_view(input.base_url))
                    &&& opt_view(s.api_key) == key
                    &&& s.chat_model@ == model
                    &&& opt_view(s.embedding_model) == norm_text(opt_view(input.embedding_model))
                    &&& opt_view(s.ollama_base_url) == norm_url(opt_view(input.ollama_base_url))
                    &&& settings_valid(s)
                },
                Err(e) => settings_error(input.provider_type@, model, key) == Some(e@),
            }
        }),
{
    let api_key = match normalize_secret(input.api_key) {
        Some(k) => Some(k),
        None => existing.api_key,
    };
    let settings = ProviderSettings {
        provider_type: input.provider_type,
        base_url: normalize_optional_url(input.base_url),
        api_key,
        chat_model: trim(input.chat_model.as_str()),
        embedding_model: normalize_optional_text(input.embedding_model),
        ollama_base_url: normalize_optional_url(input.ollama_base_url),
    };
    match validate_provider_settings(&settings) {
        Ok(()) => Ok(settings),
        Err(e) => Err(e),
    }
}

/// Builds the settings to test from the user's input and the stored settings:
/// as for saving, and blank URLs fall back to the stored ones too.
pub fn merge_test_provider_settings(input: ProviderSettings, existing: ProviderSettings) -> (r:
    Result<ProviderSettings, String>)
    ensures
        ({
            let key = or_else(norm_text(opt_view(input.api_key)), opt_view(existing.api_key));
            let model = trim_spec(input.chat_model@);
            match r {
                Ok(s) => {
                    &&& s.provider_type@ == input.provider_type@
                    &&& opt_view(s.base_url) == or_else(
                        norm_url(opt_view(input.base_url)),
                        opt_view(existing.base_url),
                    )
                    &&& opt_view(s.api_key) == key
                    &&& s.chat_model@ == model
                    &&& opt_view(s.embedding_model) == norm_text(opt_view(input.embedding_model))
                    &&& opt_view(s.ollama_base_url) == or_else(
                        norm_url(opt_view(input.ollama_base_url)),
                        opt_view(existing.ollama_base_url),
                    )
                    &&& settings_valid(s)
                },
                Err(e) => settings_error(input.provider_type@, model, key) == Some(e@),
            }
        }),
{
    let api_key = match normalize_secret(input.api_key) {
        Some(k) => Some(k),
        None => existing.api_key,
    };
    let base_url = match normalize_optional_url(input.base_url) {
        Some(u) => Some(u),
        None => existing.base_url,
    };
    let ollama_base_url = match normalize_optional_url(input.ollama_base_url) {
        Some(u) => Some(u),
        None => existing.ollama_base_url,
    };
    let settings = ProviderSettings {
        provider_type: input.provider_type,
        base_url,
        api_key,
        chat_model: trim(input.chat_model.as_str()),
        embedding_model: normalize_optional_text(input.embedding_model),
        ollama_base_url,
    };
    match validate_provider_settings(&settings) {
        Ok(()) => Ok(settings),
        Err(e) => Err(e),
    }
}

/// Normalising text twice is normalising it once; normalised text is never
/// blank and has no surrounding whitespace.
pub proof fn lemma_normalize_text_stable(o: Option<Seq<char>>)
    ensures
        norm_text(norm_text(o)) == norm_text(o),
        norm_text(o) matches Some(t) ==> !blank(t) && trim_spec(t) == t,
{
    if let Some(t) = o {
        lemma_trim_idempotent(t);
    }
}

/// A normalised URL never ends with a slash.
pub proof fn lemma_normalized_url_no_trailing_slash(o: Option<Seq<char>>)
    ensures
        norm_url(o) matches Some(u) ==> !has_suffix(u, seq!['/']),
{
    if let Some(t) = norm_text(o) {
        lemma_strip_suffixes_done(t, seq!['/']);
    }
}

/// The default settings do not pass validation: they hold no API key for
/// OpenAI.
pub proof fn lemma_default_settings_need_key()
    ensures
        settings_error("openai"@, "gpt-4.1-mini"@, None) == Some(
            "API key is required for OpenAI-compatible providers"@,
        ),
{
    reveal_strlit("openai");
    reveal_strlit("ollama");
    reveal_strlit("gpt-4.1-mini");
    assert(!blank("gpt-4.1-mini"@)) by {
        lemma_lead_ws_at("gpt-4.1-mini"@, 0);
        assert(trim_start_spec("gpt-4.1-mini"@) =~= "gpt-4.1-mini"@);
        assert(trim_spec("gpt-4.1-mini"@).len() > 0) by {
            lemma_trail_ws_bound(trim_start_spec("gpt-4.1-mini"@));
        }
    }
    assert("openai"@ != "ollama"@) by {
        assert("openai"@[1] != "ollama"@[1]);
    }
}

/// Validation, for every provider type, chat model and key: settings pass
/// exactly when the type is `openai`, `openrouter` or `ollama`, the chat model
/// is not blank, and a non-blank key is given unless the type is `ollama`.
/// A known type with a blank chat model fails with `chat model is required`,
/// whatever the key; an unknown type fails with the provider error; a known
/// type other than `ollama` with a chat model but no usable key fails with
/// the key error.
pub proof fn lemma_validation_rules(provider_type: Seq<char>, chat_model: Seq<char>, api_key: Option<
    Seq<char>,
>)
    ensures
        settings_error(provider_type, chat_model, api_key) is None <==> {
            &&& (provider_type == "openai"@ || provider_type == "openrouter"@ || provider_type
                == "ollama"@)
            &&& trim_spec(chat_model).len() > 0
            &&& (provider_type == "ollama"@ || (api_key matches Some(k) && trim_spec(k).len() > 0))
        },
        !(provider_type == "openai"@ || provider_type == "openrouter"@ || provider_type
            == "ollama"@) ==> settings_error(provider_type, chat_model, api_key) == Some(
            "provider must be OpenAI, OpenRouter, or Ollama"@,
        ),
        (provider_type == "openai"@ || provider_type == "openrouter"@ || provider_type == "ollama"@)
            && trim_spec(chat_model).len() == 0 ==> settings_error(provider_type, chat_model, api_key)
            == Some("chat model is required"@),
        (provider_type == "openai"@ || provider_type == "openrouter"@) && trim_spec(chat_model).len()
            > 0 && !(api_key matches Some(k) && trim_spec(k).len() > 0) ==> settings_error(
            provider_type,
            chat_model,
            api_key,
        ) == Some("API key is required for OpenAI-compatible providers"@),
{
    reveal_strlit("openai");
    reveal_strlit("openrouter");
    reveal_strlit("ollama");
    assert("openai"@.len() != "ollama"@.len() || "openai"@[1] != "ollama"@[1]);
    assert("openrouter"@.len() != "ollama"@.len());
}

/// Valid settings always name a chat model and a known provider, and carry a
/// non-blank key unless the provider is Ollama.
pub proof fn lemma_valid_settings_have_a_model(s: ProviderSettings)
    requires
        settings_valid(s),
    ensures
        trim_spec(s.chat_model@).len() > 0,
        s.provider_type@ == "openai"@ || s.provider_type@ == "openrouter"@ || s.provider_type@
            == "ollama"@,
        s.provider_type@ != "ollama"@ ==> (s.api_key matches Some(k) && trim_spec(k@).len() > 0),
{
    lemma_validation_rules(s.provider_type@, s.chat_model@, opt_view(s.api_key));
}

} // verus!
