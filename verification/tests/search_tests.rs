use signal_box::search::{
    ask_question, ask_step, content_hash, entities_in_scope, entity_search_text, keyword_score,
    search_limit, search_query, snippet, stored_hash_is_current, AskStep, ContextHit,
    IndexProgress, SearchEntity,
};
use std::collections::hash_map::DefaultHasher;
use std::hash::{Hash, Hasher};

fn entity(t: &str, id: &str, project: Option<&str>) -> SearchEntity {
    SearchEntity {
        entity_type: t.to_string(),
        entity_id: id.to_string(),
        title: "Title".to_string(),
        body: "Body text".to_string(),
        project_id: project.map(|p| p.to_string()),
        project_name: None,
    }
}

fn expected_hash(content: &str) -> String {
    let mut hasher = DefaultHasher::new();
    content.hash(&mut hasher);
    format!("{:x}", hasher.finish())
}

fn expected_snippet(body: &str, query: &str) -> String {
    let condensed = body.split_whitespace().collect::<Vec<_>>().join(" ");
    let query_lower = query.to_lowercase();
    let lower = condensed.to_lowercase();
    let start = lower.find(&query_lower).unwrap_or(0).saturating_sub(80);
    condensed.chars().skip(start).take(220).collect()
}

#[test]
fn search_text_of_an_entity() {
    assert_eq!(entity_search_text(&entity("decision", "d1", None)), "decision: Title\nBody text");
}

#[test]
fn content_hash_matches_default_hasher() {
    for text in ["", "capture: Idea\nbody", "é ü 漢字"] {
        assert_eq!(content_hash(text), expected_hash(text));
    }
    assert_eq!(content_hash("same"), content_hash("same"));
    assert_ne!(content_hash("a"), content_hash("b"));
}

#[test]
fn stored_hash_comparison() {
    let h = content_hash("x");
    assert!(stored_hash_is_current(&Some(h.clone()), &h));
    assert!(!stored_hash_is_current(&None, &h));
    assert!(!stored_hash_is_current(&Some("0".to_string()), &h));
}

#[test]
fn index_progress_counts() {
    let mut p = IndexProgress::new();
    assert!(!p.record(true));
    assert!(p.record(false));
    assert!(p.record(false));
    assert_eq!((p.indexed, p.skipped), (2, 1));
}

#[test]
fn snippet_matches_expected_cases() {
    let long = format!("{} needle {}", "word ".repeat(40), "tail ".repeat(60));
    for (body, query) in [
        ("short body", "missing"),
        (long.as_str(), "NEEDLE"),
        ("  spaced\n\n out   text ", "out"),
        ("", "x"),
    ] {
        assert_eq!(snippet(body, query), expected_snippet(body, query));
    }
    let s = snippet(&long, "needle");
    assert!(s.starts_with("word word"));
    assert_eq!(s.chars().count(), 220);
}

#[test]
fn snippet_uses_byte_position_as_character_count() {
    let body = format!("{} target rest", "é".repeat(60));
    let expected = expected_snippet(&body, "target");
    assert_eq!(snippet(&body, "target"), expected);
    assert!(expected.starts_with(" target") || expected.starts_with("target") || expected.contains("rest"));
    assert_eq!(snippet(&"é".repeat(300), "é".repeat(250).as_str()), expected_snippet(&"é".repeat(300), &"é".repeat(250)));
}

#[test]
fn keyword_scores() {
    let s = keyword_score("decision: Use SQLite\nfor local storage", "sqlite");
    assert_eq!((s.numerator, s.denominator), (1, 1));
    let s = keyword_score("decision: Use SQLite", "sqlite postgres local");
    assert_eq!((s.numerator, s.denominator), (1, 3));
    let s = keyword_score("anything", "   ");
    assert_eq!((s.numerator, s.denominator), (0, 1));
    let s = keyword_score("anything", "");
    assert_eq!((s.numerator, s.denominator), (1, 1));
    let s = keyword_score("abc", "x y");
    assert_eq!((s.numerator, s.denominator), (0, 2));
}

#[test]
fn search_limits_and_queries() {
    assert_eq!(search_limit(None), 10);
    assert_eq!(search_limit(Some(0)), 1);
    assert_eq!(search_limit(Some(7)), 7);
    assert_eq!(search_limit(Some(99)), 25);
    assert_eq!(search_query("  sync  ").as_deref(), Some("sync"));
    assert_eq!(search_query("   "), None);
    assert_eq!(ask_question(" why? ").unwrap(), "why?");
    assert_eq!(ask_question("").err().as_deref(), Some("question is required"));
}

#[test]
fn entities_are_scoped_to_a_project() {
    let es = vec![entity("capture", "c1", Some("p1")), entity("task", "t1", None), entity("task", "t2", Some("p2"))];
    let all = entities_in_scope(&es, None);
    assert_eq!(all.len(), 3);
    let p1 = entities_in_scope(&es, Some("p1"));
    assert_eq!(p1.len(), 1);
    assert_eq!(p1[0].entity_id, "c1");
    assert!(entities_in_scope(&es, Some("p3")).is_empty());
}

#[test]
fn asking_without_results_answers_directly() {
    match ask_step("What did I decide?", &[]) {
        AskStep::Answer(a) => assert_eq!(
            a,
            "No local Signal Box memory matched this question. Add or index relevant captures first."
        ),
        AskStep::AskProvider(_) => panic!("expected a direct answer"),
    }
}

#[test]
fn asking_with_results_quotes_them() {
    let hits = vec![
        ContextHit { entity_type: "decision".to_string(), entity_id: "d1".to_string(), title: "Sync".to_string(), snippet: "No sync in v1".to_string() },
        ContextHit { entity_type: "capture".to_string(), entity_id: "c1".to_string(), title: "Note".to_string(), snippet: "later".to_string() },
    ];
    let question = "What did I decide about sync?";
    let context = "- [decision:d1] Sync — No sync in v1\n- [capture:c1] Note — later";
    let expected = format!(
        "Answer this question using only the local Signal Box context below. If the context is insufficient, say so. Cite local records with [type:id].\n\nQuestion: {question}\n\nContext:\n{context}"
    );
    match ask_step(question, &hits) {
        AskStep::AskProvider(p) => assert_eq!(p, expected),
        AskStep::Answer(_) => panic!("expected a prompt"),
    }
}
