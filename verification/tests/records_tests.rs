use signal_box::artefact::{ProjectRecord, SelectedContextItem};
use signal_box::records::{
    artefact_links, prepare_decision, prepare_project, prepare_question, prepare_source,
    prepare_task, project_from_row, recall_prompt, suggested_project, ProjectDecision,
    ProjectQuestion, ProjectRow, ProjectTask, SaveDecisionInput, SaveProjectInput,
    SaveQuestionInput, SaveSourceInput, SaveTaskInput,
};

fn s(x: &str) -> Option<String> {
    Some(x.to_string())
}

#[test]
fn projects_need_a_name() {
    let p = prepare_project(&SaveProjectInput {
        name: "  Signal Box ".to_string(),
        description: s("  "),
        overview: s(" Local memory "),
        current_direction: None,
    })
    .unwrap();
    assert_eq!(p.name, "Signal Box");
    assert_eq!(p.description, None);
    assert_eq!(p.overview, "Local memory");
    assert_eq!(p.current_direction, "");
    let e = prepare_project(&SaveProjectInput { name: " ".to_string(), description: None, overview: None, current_direction: None });
    assert_eq!(e.err().as_deref(), Some("project name is required"));
}

#[test]
fn task_decision_question_edits() {
    let t = prepare_task(&SaveTaskInput { title: " Add FTS ".to_string(), description: s(" "), status: " done ".to_string() }).unwrap();
    assert_eq!((t.title.as_str(), t.description.is_none(), t.status.as_str()), ("Add FTS", true, "done"));
    assert_eq!(
        prepare_task(&SaveTaskInput { title: "".to_string(), description: None, status: "open".to_string() }).err().as_deref(),
        Some("task title is required")
    );
    let d = prepare_decision(&SaveDecisionInput {
        title: " T ".to_string(),
        context: s(" ctx "),
        decision: " D ".to_string(),
        rationale: None,
        status: "accepted".to_string(),
    })
    .unwrap();
    assert_eq!((d.title.as_str(), d.context.as_deref(), d.decision.as_str()), ("T", Some("ctx"), "D"));
    assert_eq!(
        prepare_decision(&SaveDecisionInput { title: "T".to_string(), context: None, decision: "  ".to_string(), rationale: None, status: String::new() }).err().as_deref(),
        Some("decision title and decision are required")
    );
    let q = prepare_question(&SaveQuestionInput { question: " Sync? ".to_string(), answer: s(" later "), status: " open".to_string() }).unwrap();
    assert_eq!((q.question.as_str(), q.answer.as_deref(), q.status.as_str()), ("Sync?", Some("later"), "open"));
    assert_eq!(
        prepare_question(&SaveQuestionInput { question: "\t".to_string(), answer: None, status: String::new() }).err().as_deref(),
        Some("question is required")
    );
}

#[test]
fn sources_get_their_links() {
    let src = prepare_source(&SaveSourceInput {
        project_id: s("p1"),
        capture_id: s("c1"),
        title: " Docs ".to_string(),
        kind: " docs ".to_string(),
        url: s("https://docs.rs/ "),
        raw_excerpt: s(""),
        notes: s(" read "),
    })
    .unwrap();
    assert_eq!(src.title, "Docs");
    assert_eq!(src.kind, "docs");
    assert_eq!(src.url.as_deref(), Some("https://docs.rs"));
    assert_eq!(src.raw_excerpt, None);
    assert_eq!(src.notes.as_deref(), Some("read"));
    let links: Vec<(String, String, String)> =
        src.links.into_iter().map(|l| (l.from_type, l.from_id, l.relationship_type)).collect();
    assert_eq!(
        links,
        vec![
            ("project".to_string(), "p1".to_string(), "contains".to_string()),
            ("capture".to_string(), "c1".to_string(), "references".to_string()),
        ]
    );
    let lone = prepare_source(&SaveSourceInput {
        project_id: None,
        capture_id: None,
        title: "T".to_string(),
        kind: "text".to_string(),
        url: None,
        raw_excerpt: None,
        notes: None,
    })
    .unwrap();
    assert!(lone.links.is_empty());
    let e = prepare_source(&SaveSourceInput { project_id: None, capture_id: None, title: " ".to_string(), kind: String::new(), url: None, raw_excerpt: None, notes: None });
    assert_eq!(e.err().as_deref(), Some("source title is required"));
}

#[test]
fn artefacts_link_to_project_and_context() {
    let ctx = vec![
        SelectedContextItem { item_type: "capture".to_string(), item_id: "c1".to_string(), title: "x".to_string() },
        SelectedContextItem { item_type: "task".to_string(), item_id: "t1".to_string(), title: "y".to_string() },
    ];
    let links: Vec<(String, String, String)> = artefact_links("p1", &ctx)
        .into_iter()
        .map(|l| (l.from_type, l.from_id, l.relationship_type))
        .collect();
    assert_eq!(
        links,
        vec![
            ("project".to_string(), "p1".to_string(), "contains".to_string()),
            ("capture".to_string(), "c1".to_string(), "used_for".to_string()),
            ("task".to_string(), "t1".to_string(), "used_for".to_string()),
        ]
    );
}

#[test]
fn project_rows_fall_back_to_old_columns() {
    let p = project_from_row(ProjectRow {
        id: "p".to_string(),
        name: "N".to_string(),
        summary: s("old summary"),
        memory: s("old memory"),
        description: None,
        overview: None,
        current_direction: None,
        status: "active".to_string(),
        created_at: "c".to_string(),
        updated_at: "u".to_string(),
    });
    assert_eq!(p.description.as_deref(), Some("old summary"));
    assert_eq!(p.overview, "old memory");
    assert_eq!(p.current_direction, "");
    let p = project_from_row(ProjectRow {
        id: "p".to_string(),
        name: "N".to_string(),
        summary: None,
        memory: None,
        description: s("new"),
        overview: None,
        current_direction: s("dir"),
        status: "active".to_string(),
        created_at: String::new(),
        updated_at: String::new(),
    });
    assert_eq!(p.description.as_deref(), Some("new"));
    assert_eq!(p.overview, "");
    assert_eq!(p.current_direction, "dir");
}

#[test]
fn suggested_project_must_exist() {
    assert_eq!(suggested_project(s("p1")).unwrap(), "p1");
    assert_eq!(suggested_project(None).err().as_deref(), Some("capture does not have a matching suggested project"));
}

#[test]
fn recall_prompt_lists_memory() {
    let project = ProjectRecord {
        id: "p".to_string(),
        name: "Signal Box".to_string(),
        description: None,
        overview: "Inbox".to_string(),
        current_direction: "Search".to_string(),
        status: "active".to_string(),
        created_at: String::new(),
        updated_at: String::new(),
    };
    let decisions = vec![ProjectDecision {
        id: "d1".to_string(), capture_id: None, capture_title: None, title: "Storage".to_string(), context: None,
        decision: "SQLite".to_string(), rationale: None, status: "accepted".to_string(), created_at: String::new(), updated_at: String::new(),
    }];
    let questions = vec![ProjectQuestion {
        id: "q1".to_string(), capture_id: None, capture_title: None, question: "Sync?".to_string(), answer: None,
        status: "open".to_string(), created_at: String::new(), updated_at: String::new(),
    }];
    let tasks = vec![ProjectTask {
        id: "t1".to_string(), capture_id: None, capture_title: None, title: "Add FTS".to_string(), description: None,
        status: "open".to_string(), created_at: String::new(), updated_at: String::new(),
    }];
    let expected = "Return a project recall summary grounded only in this local memory. Use sections: Current state, Key decisions, Open questions, Suggested next action. Cite local records where practical.\n\nProject: Signal Box\nCurrent direction: Search\nOverview: Inbox\nDecision [d1]: SQLite\nQuestion [q1]: Sync?\nTask [t1]: Add FTS (open)";
    assert_eq!(recall_prompt(&project, &decisions, &questions, &tasks), expected);
    assert!(recall_prompt(&project, &[], &[], &[]).ends_with("Overview: Inbox"));
}
