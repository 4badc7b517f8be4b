use signal_box::capture::{
    extraction_prompt, fallback_title, match_project_id, prepare_capture, provider_test_capture,
    validate_capture_status, Capture, ProjectOption,
};

fn project(id: &str, name: &str) -> ProjectOption {
    ProjectOption { id: id.to_string(), name: name.to_string() }
}

fn capture(raw: &str) -> Capture {
    Capture {
        id: "cap_1".to_string(),
        raw_text: raw.to_string(),
        title: None,
        summary: None,
        capture_type: "note".to_string(),
        source_kind: "typed".to_string(),
        source: None,
        status: "unprocessed".to_string(),
        processing_status: "idle".to_string(),
        processing_error: None,
        project_id: None,
        suggested_project_id: None,
        suggested_project_name: None,
        created_at: String::new(),
        updated_at: String::new(),
        processed_at: None,
        archived_at: None,
    }
}

#[test]
fn fallback_title_condenses_whitespace() {
    assert_eq!(fallback_title("  Fix   the\tlogin\n bug  "), "Fix the login bug");
    assert_eq!(fallback_title("one"), "one");
    assert_eq!(fallback_title("a\u{2003}b\r\nc"), "a b c");
}

#[test]
fn fallback_title_for_blank_text() {
    assert_eq!(fallback_title(""), "Untitled capture");
    assert_eq!(fallback_title(" \n\t "), "Untitled capture");
}

#[test]
fn fallback_title_is_cut_to_eighty_characters() {
    let long = "a".repeat(100);
    assert_eq!(fallback_title(&long), "a".repeat(80));
    let accented = "é".repeat(90);
    let title = fallback_title(&accented);
    assert_eq!(title.chars().count(), 80);
    let words = "word ".repeat(30);
    let title = fallback_title(&words);
    assert_eq!(title.chars().count(), 80);
    assert!(title.starts_with("word word"));
}

#[test]
fn capture_keeps_raw_text_but_trailing_whitespace() {
    let (text, title) = prepare_capture("  keep   leading\n  ").unwrap();
    assert_eq!(text, "  keep   leading");
    assert_eq!(title, "keep leading");
    let code = "fn main() {\n    println!(\"hi\");\n}\n\n";
    let (text, _) = prepare_capture(code).unwrap();
    assert_eq!(text, "fn main() {\n    println!(\"hi\");\n}");
}

#[test]
fn capture_refuses_blank_text() {
    assert_eq!(prepare_capture("   \n\t").err().as_deref(), Some("capture text cannot be empty"));
    assert_eq!(prepare_capture("").err().as_deref(), Some("capture text cannot be empty"));
}

#[test]
fn capture_statuses() {
    assert!(validate_capture_status("unprocessed").is_ok());
    assert!(validate_capture_status("processed").is_ok());
    assert!(validate_capture_status("archived").is_ok());
    assert_eq!(
        validate_capture_status("deleted").err().as_deref(),
        Some("unsupported capture status")
    );
    assert!(validate_capture_status("Archived").is_err());
}

#[test]
fn project_names_match_ignoring_case_and_spaces() {
    let projects = vec![project("p1", "Signal Box"), project("p2", " Other "), project("p3", "signal box")];
    assert_eq!(match_project_id(&projects, " signal BOX ").as_deref(), Some("p1"));
    assert_eq!(match_project_id(&projects, "other").as_deref(), Some("p2"));
    assert_eq!(match_project_id(&projects, "missing"), None);
    assert_eq!(match_project_id(&[], "x"), None);
    assert_eq!(match_project_id(&[project("p9", "ÉCOLE")], "école").as_deref(), Some("p9"));
}

fn expected_prompt(c: &Capture, projects: &[ProjectOption]) -> String {
    let project_names = if projects.is_empty() {
        "No existing projects are available.".to_string()
    } else {
        projects.iter().map(|p| format!("- {}", p.name)).collect::<Vec<_>>().join("\n")
    };
    format!(
        r#"Return one JSON object matching this shape:
{{
  "title": "short capture title",
  "summary": "2-4 sentence technical summary",
  "captureType": "note | url | code | terminal | ai_chat | github_issue",
  "suggestedProject": "matching existing project name or concise new project suggestion, or null",
  "insights": [{{"title": "insight", "summary": "why it matters"}}],
  "tasks": [{{"title": "task", "description": "optional detail"}}],
  "decisions": [{{"title": "decision title", "context": "context", "decision": "decision", "rationale": "rationale"}}],
  "questions": [{{"question": "open question", "answer": null}}],
  "sources": [{{"title": "source title", "sourceType": "url | repo | docs | message | terminal | text", "url": "https://...", "rawReference": "pasted reference"}}],
  "codeSnippetsOrPrompts": [{{"title": "saved snippet or prompt", "text": "short extract"}}],
  "artefactSuggestions": [{{"title": "artefact type", "text": "why this capture could become it"}}]
}}

Rules:
- Return JSON only.
- Use empty arrays when no items exist.
- Preserve the raw capture by extracting structure beside it.
- Prefer developer-native categories: insight, task, decision, question, source, code snippet or prompt worth saving, artefact suggestion.
- Suggested project should match one of the existing project names when that is clearly right.

Existing projects:
{project_names}

Raw capture metadata:
- current title: {}
- capture type: {}
- source kind: {}
- source: {}

Raw capture:
{}"#,
        c.title.as_deref().unwrap_or("Untitled capture"),
        c.capture_type,
        c.source_kind,
        c.source.as_deref().unwrap_or("None"),
        c.raw_text
    )
}

#[test]
fn extraction_prompt_without_projects() {
    let c = capture("Try SQLite FTS for search");
    let prompt = extraction_prompt(&c, &[]);
    assert_eq!(prompt, expected_prompt(&c, &[]));
    assert!(prompt.contains("No existing projects are available."));
    assert!(prompt.contains("- current title: Untitled capture"));
    assert!(prompt.contains("- source: None"));
    assert!(prompt.ends_with("Raw capture:\nTry SQLite FTS for search"));
}

#[test]
fn extraction_prompt_lists_projects_and_metadata() {
    let mut c = capture("https://github.com/x/y\nlooks useful");
    c.title = Some("Repo".to_string());
    c.capture_type = "url".to_string();
    c.source_kind = "pasted".to_string();
    c.source = Some("browser".to_string());
    let projects = vec![project("p1", "Signal Box"), project("p2", "Website")];
    let prompt = extraction_prompt(&c, &projects);
    assert_eq!(prompt, expected_prompt(&c, &projects));
    assert!(prompt.contains("Existing projects:\n- Signal Box\n- Website\n\nRaw capture metadata:"));
}

#[test]
fn provider_test_capture_fields() {
    let c = provider_test_capture();
    assert_eq!(c.id, "provider_test");
    assert_eq!(c.raw_text, "Health check: extract one title and summary from this developer capture.");
    assert_eq!(c.title.as_deref(), Some("Provider test"));
    assert_eq!(c.capture_type, "note");
    assert_eq!(c.source_kind, "typed");
    assert_eq!(c.status, "unprocessed");
    assert_eq!(c.processing_status, "idle");
    assert_eq!(c.created_at, "");
}
