use signal_box::capture::ProjectOption;
use signal_box::distill::{
    plan_extraction, ExtractionDecision, ExtractionInsight, ExtractionQuestion, ExtractionResult,
    ExtractionSource, ExtractionTask, ExtractionTextItem,
};

fn s(x: &str) -> Option<String> {
    Some(x.to_string())
}

fn empty() -> ExtractionResult {
    ExtractionResult {
        title: None,
        summary: None,
        capture_type: None,
        suggested_project: None,
        insights: None,
        tasks: None,
        decisions: None,
        questions: None,
        sources: None,
        code_snippets_or_prompts: None,
        artefact_suggestions: None,
    }
}

#[test]
fn empty_extraction_gets_defaults() {
    let plan = plan_extraction(&empty(), &[]);
    assert_eq!(plan.capture.title, "Untitled capture");
    assert_eq!(plan.capture.summary, None);
    assert_eq!(plan.capture.capture_type, "note");
    assert_eq!(plan.capture.suggested_project_id, None);
    assert_eq!(plan.capture.suggested_project_name, None);
    assert!(plan.tasks.is_empty() && plan.decisions.is_empty());
    assert!(plan.questions.is_empty() && plan.sources.is_empty());
}

#[test]
fn capture_fields_are_normalised_and_project_matched() {
    let mut e = empty();
    e.title = s("  Search plan ");
    e.summary = s("   ");
    e.capture_type = s(" code ");
    e.suggested_project = s(" signal box ");
    let projects = vec![
        ProjectOption { id: "p1".to_string(), name: "Website".to_string() },
        ProjectOption { id: "p2".to_string(), name: "Signal Box".to_string() },
    ];
    let plan = plan_extraction(&e, &projects);
    assert_eq!(plan.capture.title, "Search plan");
    assert_eq!(plan.capture.summary, None);
    assert_eq!(plan.capture.capture_type, "code");
    assert_eq!(plan.capture.suggested_project_name.as_deref(), Some("signal box"));
    assert_eq!(plan.capture.suggested_project_id.as_deref(), Some("p2"));

    e.suggested_project = s("Brand new");
    let plan = plan_extraction(&e, &projects);
    assert_eq!(plan.capture.suggested_project_name.as_deref(), Some("Brand new"));
    assert_eq!(plan.capture.suggested_project_id, None);
}

#[test]
fn blank_items_are_skipped() {
    let mut e = empty();
    e.tasks = Some(vec![
        ExtractionTask { title: "  Add FTS ".to_string(), description: s(" index captures ") },
        ExtractionTask { title: "  ".to_string(), description: s("dropped") },
        ExtractionTask { title: "Ship".to_string(), description: s("") },
    ]);
    e.decisions = Some(vec![
        ExtractionDecision { title: "Store".to_string(), context: None, decision: " SQLite ".to_string(), rationale: s(" local ") },
        ExtractionDecision { title: "No".to_string(), context: None, decision: " ".to_string(), rationale: None },
        ExtractionDecision { title: "".to_string(), context: None, decision: "x".to_string(), rationale: None },
    ]);
    e.questions = Some(vec![
        ExtractionQuestion { question: " Sync? ".to_string(), answer: None },
        ExtractionQuestion { question: "\n".to_string(), answer: s("a") },
    ]);
    let plan = plan_extraction(&e, &[]);
    assert_eq!(plan.tasks.len(), 2);
    assert_eq!(plan.tasks[0].title, "Add FTS");
    assert_eq!(plan.tasks[0].description.as_deref(), Some("index captures"));
    assert_eq!(plan.tasks[1].title, "Ship");
    assert_eq!(plan.tasks[1].description, None);
    assert_eq!(plan.decisions.len(), 1);
    assert_eq!(plan.decisions[0].title, "Store");
    assert_eq!(plan.decisions[0].decision, "SQLite");
    assert_eq!(plan.decisions[0].rationale.as_deref(), Some("local"));
    assert_eq!(plan.questions.len(), 1);
    assert_eq!(plan.questions[0].question, "Sync?");
}

#[test]
fn sources_in_order_with_defaults() {
    let mut e = empty();
    e.sources = Some(vec![
        ExtractionSource { title: s(" Docs "), source_type: s(" docs "), url: s(" https://x.dev/ "), raw_reference: s(" ref ") },
        ExtractionSource { title: s("  "), source_type: None, url: s("https://y.dev//"), raw_reference: None },
        ExtractionSource { title: None, source_type: None, url: None, raw_reference: s(" pasted ") },
        ExtractionSource { title: None, source_type: s(" "), url: None, raw_reference: None },
    ]);
    e.insights = Some(vec![ExtractionInsight { title: None, summary: s(" why ") }]);
    e.code_snippets_or_prompts = Some(vec![ExtractionTextItem { title: s("Prompt"), text: s(" do x ") }]);
    e.artefact_suggestions = Some(vec![ExtractionTextItem { title: None, text: None }]);
    let plan = plan_extraction(&e, &[]);
    let got: Vec<(String, String, Option<String>, Option<String>, bool)> = plan
        .sources
        .into_iter()
        .map(|p| (p.title, p.kind, p.url, p.raw_excerpt, p.linked_to_project))
        .collect();
    assert_eq!(
        got,
        vec![
            ("Docs".to_string(), "docs".to_string(), s("https://x.dev"), s("ref"), true),
            ("https://y.dev//".to_string(), "text".to_string(), s("https://y.dev"), None, true),
            (" pasted ".to_string(), "text".to_string(), None, s("pasted"), true),
            ("Source reference".to_string(), "text".to_string(), None, None, true),
            ("Insight".to_string(), "insight".to_string(), None, s("why"), false),
            ("Prompt".to_string(), "prompt_or_snippet".to_string(), None, s("do x"), false),
            ("Artefact suggestion".to_string(), "artefact_suggestion".to_string(), None, None, false),
        ]
    );
}
