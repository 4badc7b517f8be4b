use signal_box::artefact::{
    artefact_draft, artefact_instructions, artefact_summary, artefact_type_label,
    build_artefact_prompt, draft_title, markdown_title, prepare_artefact_save,
    validate_artefact_type, ContextRow, ProjectRecord, SelectedContextItem,
};

fn project() -> ProjectRecord {
    ProjectRecord {
        id: "project_1".to_string(),
        name: "Signal Box".to_string(),
        description: Some("Local-first inbox".to_string()),
        overview: "Captures become memory.".to_string(),
        current_direction: "Ship search.".to_string(),
        status: "active".to_string(),
        created_at: String::new(),
        updated_at: String::new(),
    }
}

fn row(t: &str, id: &str, title: &str, body: &str) -> ContextRow {
    ContextRow { item_type: t.to_string(), item_id: id.to_string(), title: title.to_string(), body: body.to_string() }
}

#[test]
fn artefact_types_and_labels() {
    for (t, label) in [
        ("product_brief", "Product brief"),
        ("implementation_plan", "Implementation plan"),
        ("adr", "Architecture decision record"),
        ("coding_agent_prompt", "Coding-agent prompt"),
        ("linkedin_blog_draft", "LinkedIn or blog draft"),
    ] {
        assert!(validate_artefact_type(t).is_ok());
        assert_eq!(artefact_type_label(t), label);
        assert!(!artefact_instructions(t).is_empty());
    }
    assert_eq!(validate_artefact_type("changelog").err().as_deref(), Some("unsupported artefact type"));
    assert_eq!(artefact_type_label("changelog"), "Artefact");
    assert_eq!(artefact_instructions("changelog"), "");
    assert_eq!(artefact_instructions("adr"), "Use ADR sections: Status, Context, Decision, Consequences.");
}

#[test]
fn markdown_title_is_first_heading() {
    assert_eq!(markdown_title("intro\n  # Title here  \n# Second").as_deref(), Some("Title here"));
    assert_eq!(markdown_title("#NoSpace\n## Sub\n# \n#   \n"), None);
    assert_eq!(markdown_title("## Sub\r\n# Real\r\n").as_deref(), Some("Real"));
    assert_eq!(markdown_title(""), None);
}

#[test]
fn summary_is_first_plain_line() {
    assert_eq!(artefact_summary("# Title\n\n- First point\nSecond").as_deref(), Some("First point"));
    assert_eq!(artefact_summary("# T\n  - - nested  \n").as_deref(), Some("nested"));
    assert_eq!(artefact_summary("# Only headings\n## Sub\n"), None);
    assert_eq!(artefact_summary("plain").as_deref(), Some("plain"));
}

#[test]
fn draft_title_falls_back_to_type_name() {
    assert_eq!(draft_title("# My plan\nbody", "implementation_plan"), "My plan");
    assert_eq!(draft_title("no heading", "adr"), "Architecture decision record");
    let d = artefact_draft(
        "project_1".to_string(),
        "product_brief".to_string(),
        "Intro line\n# Brief".to_string(),
        "openai".to_string(),
        "gpt-4.1-mini".to_string(),
        vec![],
    );
    assert_eq!(d.title, "Brief");
    assert_eq!(d.summary.as_deref(), Some("Intro line"));
    assert_eq!(d.provider.as_deref(), Some("openai"));
    assert_eq!(d.model.as_deref(), Some("gpt-4.1-mini"));
    assert_eq!(d.body_markdown, "Intro line\n# Brief");
}

fn expected_prompt(label: &str, instructions: &str, sections: &[String]) -> String {
    format!(
        "Generate a {} in Markdown.\n\n{}\n\nRules:\n- Use only the selected local context below.\n- Do not invent facts, dates, metrics, integrations, or commitments.\n- Prefer concise, copy-pasteable output.\n\nSelected context:\n{}",
        label,
        instructions,
        sections.join("\n\n")
    )
}

#[test]
fn artefact_prompt_with_memory_and_rows() {
    let p = project();
    let rows = vec![
        row("capture", "cap_1", "Idea", "Use FTS"),
        row("decision", "dec_1", "Storage", "SQLite"),
    ];
    let (prompt, context) = build_artefact_prompt(&p, "adr", true, &rows).unwrap();
    let sections = vec![
        "## Project memory\nName: Signal Box\nDescription: Local-first inbox\nCurrent direction:\nShip search.\nOverview:\nCaptures become memory.".to_string(),
        "## capture: Idea\nUse FTS".to_string(),
        "## decision: Storage\nSQLite".to_string(),
    ];
    assert_eq!(
        prompt,
        expected_prompt(
            "Architecture decision record",
            "Use ADR sections: Status, Context, Decision, Consequences.",
            &sections
        )
    );
    let ids: Vec<(String, String, String)> =
        context.into_iter().map(|c: SelectedContextItem| (c.item_type, c.item_id, c.title)).collect();
    assert_eq!(
        ids,
        vec![
            ("project".to_string(), "project_1".to_string(), "Signal Box".to_string()),
            ("capture".to_string(), "cap_1".to_string(), "Idea".to_string()),
            ("decision".to_string(), "dec_1".to_string(), "Storage".to_string()),
        ]
    );
}

#[test]
fn artefact_prompt_without_description_or_memory() {
    let mut p = project();
    p.description = None;
    let (prompt, context) = build_artefact_prompt(&p, "product_brief", true, &[]).unwrap();
    assert!(prompt.contains("Description: \nCurrent direction:"));
    assert_eq!(context.len(), 1);
    let (prompt, context) =
        build_artefact_prompt(&p, "coding_agent_prompt", false, &[row("task", "t1", "Do", "open")]).unwrap();
    assert!(prompt.ends_with("Selected context:\n## task: Do\nopen"));
    assert_eq!(context.len(), 1);
}

#[test]
fn artefact_prompt_needs_a_selection() {
    assert_eq!(
        build_artefact_prompt(&project(), "adr", false, &[]).err().as_deref(),
        Some("select at least one project context item")
    );
}

#[test]
fn saving_artefacts_checks_inputs() {
    assert_eq!(
        prepare_artefact_save("adr", "  Title ", "\n body \n").unwrap(),
        ("Title".to_string(), "body".to_string())
    );
    assert_eq!(prepare_artefact_save("memo", "T", "B").err().as_deref(), Some("unsupported artefact type"));
    assert_eq!(
        prepare_artefact_save("adr", "  ", "B").err().as_deref(),
        Some("artefact title and markdown body are required")
    );
    assert_eq!(
        prepare_artefact_save("adr", "T", "").err().as_deref(),
        Some("artefact title and markdown body are required")
    );
}
