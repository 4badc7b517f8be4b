//! Artefacts: the five supported types, the prompt that generates one from
//! selected project context, and the title and summary read from its Markdown.
use vstd::prelude::*;
use crate::text::{
    blank, chars_of, has_prefix, is_blank, join, lemma_join_push, opt_view, owned, push_str,
    slice_chars, starts_with, string_of, strip_prefixes, strip_prefixes_chars, text_eq, trim,
    trim_chars, trim_spec, lemma_trim_idempotent,
};

verus! {

/// A project's stored record.
pub struct ProjectRecord {
    pub id: String,
    pub name: String,
    pub description: Option<String>,
    pub overview: String,
    pub current_direction: String,
    pub status: String,
    pub created_at: String,
    pub updated_at: String,
}

/// A selected record of a project, as loaded for the prompt.
pub struct ContextRow {
    pub item_type: String,
    pub item_id: String,
    pub title: String,
    pub body: String,
}

/// A record that an artefact was generated from.
pub struct SelectedContextItem {
    pub item_type: String,
    pub item_id: String,
    pub title: String,
}

/// The artefact types that can be generated.
pub open spec fn artefact_type_ok(t: Seq<char>) -> bool {
    ||| t == "product_brief"@
    ||| t == "implementation_plan"@
    ||| t == "adr"@
    ||| t == "coding_agent_prompt"@
    ||| t == "linkedin_blog_draft"@
}

/// The name shown for an artefact type.
pub open spec fn label_spec(t: Seq<char>) -> Seq<char> {
    if t == "product_brief"@ {
        "Product brief"@
    } else if t == "implementation_plan"@ {
        "Implementation plan"@
    } else if t == "adr"@ {
        "Architecture decision record"@
    } else if t == "coding_agent_prompt"@ {
        "Coding-agent prompt"@
    } else if t == "linkedin_blog_draft"@ {
        "LinkedIn or blog draft"@
    } else {
        "Artefact"@
    }
}

/// The section structure asked of each artefact type.
pub open spec fn instructions_spec(t: Seq<char>) -> Seq<char> {
    if t == "product_brief"@ {
        "Use sections: Problem, Audience, Product direction, Core workflow, Scope, Open questions."@
    } else if t == "implementation_plan"@ {
        "Use sections: Goal, Assumptions, Phases, Data model, UI work, Backend work, Acceptance criteria, Out of scope."@
    } else if t == "adr"@ {
        "Use ADR sections: Status, Context, Decision, Consequences."@
    } else if t == "coding_agent_prompt"@ {
        "Write a copy-pasteable coding-agent prompt with sections: Task, Context, Requirements, Out of scope, Acceptance criteria."@
    } else if t == "linkedin_blog_draft"@ {
        "Write a practical LinkedIn or blog draft. Avoid buzzwords. Include a working title and a concise body."@
    } else {
        ""@
    }
}

/// Accepts the five artefact types.
pub fn validate_artefact_type(artefact_type: &str) -> (r: Result<(), String>)
    ensures
        r is Ok <==> artefact_type_ok(artefact_type@),
        r matches Err(e) ==> e@ == "unsupported artefact type"@,
{
    if text_eq(artefact_type, "product_brief") || text_eq(artefact_type, "implementation_plan")
        || text_eq(artefact_type, "adr") || text_eq(artefact_type, "coding_agent_prompt")
        || text_eq(artefact_type, "linkedin_blog_draft") {
        Ok(())
    } else {
        Err(owned("unsupported artefact type"))
    }
}

/// The name shown for an artefact type; `Artefact` for any other text.
pub fn artefact_type_label(artefact_type: &str) -> (r: &'static str)
    ensures
        r@ == label_spec(artefact_type@),
{
    if text_eq(artefact_type, "product_brief") {
        "Product brief"
    } else if text_eq(artefact_type, "implementation_plan") {
        "Implementation plan"
    } else if text_eq(artefact_type, "adr") {
        "Architecture decision record"
    } else if text_eq(artefact_type, "coding_agent_prompt") {
        "Coding-agent prompt"
    } else if text_eq(artefact_type, "linkedin_blog_draft") {
        "LinkedIn or blog draft"
    } else {
        "Artefact"
    }
}

/// The section structure asked of an artefact type; empty for any other text.
pub fn artefact_instructions(artefact_type: &str) -> (r: &'static str)
    ensures
        r@ == instructions_spec(artefact_type@),
{
    if text_eq(artefact_type, "product_brief") {
        "Use sections: Problem, Audience, Product direction, Core workflow, Scope, Open questions."
    } else if text_eq(artefact_type, "implementation_plan") {
        "Use sections: Goal, Assumptions, Phases, Data model, UI work, Backend work, Acceptance criteria, Out of scope."
    } else if text_eq(artefact_type, "adr") {
        "Use ADR sections: Status, Context, Decision, Consequences."
    } else if text_eq(artefact_type, "coding_agent_prompt") {
        "Write a copy-pasteable coding-agent prompt with sections: Task, Context, Requirements, Out of scope, Acceptance criteria."
    } else if text_eq(artefact_type, "linkedin_blog_draft") {
        "Write a practical LinkedIn or blog draft. Avoid buzzwords. Include a working title and a concise body."
    } else {
        ""
    }
}

/// Length of the first line of `s`: the characters before the first newline.
pub open spec fn line_len(s: Seq<char>) -> nat
    decreases s.len(),
{
    if s.len() == 0 || s[0] == '\n' {
        0
    } else {
        1 + line_len(s.drop_first())
    }
}

pub proof fn lemma_line_len_bound(s: Seq<char>)
    ensures
        line_len(s) <= s.len(),
    decreases s.len(),
{
    if s.len() > 0 && s[0] != '\n' {
        lemma_line_len_bound(s.drop_first());
    }
}

proof fn lemma_line_len_at(s: Seq<char>, i: int)
    requires
        0 <= i <= s.len(),
        forall|j: int| 0 <= j < i ==> #[trigger] s[j] != '\n',
        i == s.len() || s[i] == '\n',
    ensures
        line_len(s) == i,
    decreases i,
{
    if i > 0 {
        let t = s.drop_first();
        assert forall|j: int| 0 <= j < i - 1 implies #[trigger] t[j] != '\n' by {
            assert(t[j] == s[j + 1]);
        }
        if i < s.len() {
            assert(t[i - 1] == s[i]);
        }
        lemma_line_len_at(t, i - 1);
    }
}

/// What is looked for in the lines of a Markdown text.
pub enum LineRule {
    /// A `# ` heading with a non-blank title; gives the trimmed title.
    Heading,
    /// A non-blank line that is not a heading; gives it trimmed, without
    /// leading `- ` markers.
    Summary,
}

/// What a line gives under a rule, if it matches.
pub open spec fn line_match(rule: LineRule, line: Seq<char>) -> Option<Seq<char>> {
    let t = trim_spec(line);
    match rule {
        LineRule::Heading => if has_prefix(t, "# "@) && !blank(t.skip(2)) {
            Some(trim_spec(t.skip(2)))
        } else {
            None
        },
        LineRule::Summary => if t.len() > 0 && t[0] != '#' {
            Some(strip_prefixes(t, "- "@))
        } else {
            None
        },
    }
}

/// What the first matching line of `s` gives; lines are separated by `\n`
/// (a `\r` before it is whitespace and trimmed away).
pub open spec fn first_line_match(s: Seq<char>, rule: LineRule) -> Option<Seq<char>>
    decreases s.len(),
{
    let k = line_len(s);
    match line_match(rule, s.take(k as int)) {
        Some(t) => Some(t),
        None => if k < s.len() {
            proof {
                lemma_line_len_bound(s);
            }
            first_line_match(s.skip(k + 1 as int), rule)
        } else {
            None
        },
    }
}

fn match_line(rule: &LineRule, line: &[char]) -> (r: Option<Vec<char>>)
    ensures
        match r {
            Some(v) => line_match(*rule, line@) == Some(v@),
            None => line_match(*rule, line@) is None,
        },
{
    let t = trim_chars(line);
    match rule {
        LineRule::Heading => {
            if starts_with(&t, &['#', ' ']) {
                let rest = slice_chars(&t, 2, t.len());
                let title = trim_chars(&rest);
                proof {
                    assert(['#', ' ']@ =~= "# "@) by {
                        reveal_strlit("# ");
                    }
                    assert(rest@ =~= t@.skip(2));
                }
                if title.len() > 0 {
                    Some(title)
                } else {
                    None
                }
            } else {
                proof {
                    assert(['#', ' ']@ =~= "# "@) by {
                        reveal_strlit("# ");
                    }
                }
                None
            }
        },
        LineRule::Summary => {
            if t.len() > 0 && t[0] != '#' {
                let marker = chars_of("- ");
                Some(strip_prefixes_chars(&t, &marker))
            } else {
                None
            }
        },
    }
}

/// What the first line of `markdown` that matches `rule` gives.
pub fn first_matching_line(markdown: &str, rule: LineRule) -> (r: Option<String>)
    ensures
        opt_view(r) == first_line_match(markdown@, rule),
{
    let v = chars_of(markdown);
    let mut p: usize = 0;
    assert(v@.skip(0) =~= v@);
    loop
        invariant
            p <= v@.len(),
            v@ == markdown@,
            first_line_match(v@, rule) == first_line_match(v@.skip(p as int), rule),
        decreases v@.len() - p,
    {
        let mut k = p;
        while k < v.len() && v[k] != '\n'
            invariant
                p <= k <= v@.len(),
                forall|j: int| p <= j < k ==> #[trigger] v@[j] != '\n',
            decreases v@.len() - k,
        {
            k += 1;
        }
        let ghost rest = v@.skip(p as int);
        proof {
            assert forall|j: int| 0 <= j < k - p implies #[trigger] rest[j] != '\n' by {
                assert(rest[j] == v@[p + j]);
            }
            if k < v@.len() {
                assert(rest[k - p] == v@[k as int]);
            }
            lemma_line_len_at(rest, k - p);
            assert(rest.take(k - p) =~= v@.subrange(p as int, k as int));
        }
        let line = slice_chars(&v, p, k);
        match match_line(&rule, &line) {
            Some(found) => {
                return Some(string_of(&found));
            },
            None => {},
        }
        if k == v.len() {
            return None;
        }
        assert(rest.skip(k - p + 1) =~= v@.skip(k + 1));
        p = k + 1;
    }
}

/// The title of the first `# ` heading of the Markdown, trimmed.
pub fn markdown_title(markdown: &str) -> (r: Option<String>)
    ensures
        opt_view(r) == first_line_match(markdown@, LineRule::Heading),
{
    first_matching_line(markdown, LineRule::Heading)
}

/// The summary of a generated artefact: its first non-blank line that is not a
/// heading, trimmed and without leading `- ` markers.
pub fn artefact_summary(markdown: &str) -> (r: Option<String>)
    ensures
        opt_view(r) == first_line_match(markdown@, LineRule::Summary),
{
    first_matching_line(markdown, LineRule::Summary)
}

/// The title of a generated artefact: its first heading, else the type's name.
pub fn draft_title(markdown: &str, artefact_type: &str) -> (r: String)
    ensures
        r@ == match first_line_match(markdown@, LineRule::Heading) {
            Some(t) => t,
            None => label_spec(artefact_type@),
        },
{
    match markdown_title(markdown) {
        Some(t) => t,
        None => owned(artefact_type_label(artefact_type)),
    }
}

/// The project-memory section of an artefact prompt.
pub open spec fn memory_section(p: ProjectRecord) -> Seq<char> {
    "## Project memory\nName: "@ + p.name@ + "\nDescription: "@ + match opt_view(p.description) {
        Some(d) => d,
        None => Seq::empty(),
    } + "\nCurrent direction:\n"@ + p.current_direction@ + "\nOverview:\n"@ + p.overview@
}

/// The section of an artefact prompt for one selected record.
pub open spec fn row_section(r: ContextRow) -> Seq<char> {
    "## "@ + r.item_type@ + ": "@ + r.title@ + "\n"@ + r.body@
}

/// The sections of an artefact prompt: project memory when asked for, then
/// one per selected record.
pub open spec fn prompt_sections(p: ProjectRecord, include_memory: bool, rows: Seq<ContextRow>) -> Seq<
    Seq<char>,
> {
    (if include_memory {
        seq![memory_section(p)]
    } else {
        Seq::empty()
    }) + rows.map_values(|r: ContextRow| row_section(r))
}

pub open spec fn item_view(i: SelectedContextItem) -> (Seq<char>, Seq<char>, Seq<char>) {
    (i.item_type@, i.item_id@, i.title@)
}

/// The records an artefact prompt is built from.
pub open spec fn prompt_items(p: ProjectRecord, include_memory: bool, rows: Seq<ContextRow>) -> Seq<
    (Seq<char>, Seq<char>, Seq<char>),
> {
    (if include_memory {
        seq![("project"@, p.id@, p.name@)]
    } else {
        Seq::empty()
    }) + rows.map_values(|r: ContextRow| (r.item_type@, r.item_id@, r.title@))
}

/// The rules every artefact prompt carries.
pub const ARTEFACT_RULES: &'static str = "\n\nRules:\n- Use only the selected local context below.\n- Do not invent facts, dates, metrics, integrations, or commitments.\n- Prefer concise, copy-pasteable output.\n\nSelected context:\n";

/// The prompt that generates an artefact of type `t` from `sections`.
pub open spec fn artefact_prompt_spec(t: Seq<char>, sections: Seq<Seq<char>>) -> Seq<char> {
    "Generate a "@ + label_spec(t) + " in Markdown.\n\n"@ + instructions_spec(t) + ARTEFACT_RULES@
        + join(sections, "\n\n"@)
}

fn push_section(out: &mut String, nonempty: bool, section: &str, Ghost(done): Ghost<Seq<Seq<char>>>)
    requires
        old(out)@ == join(done, "\n\n"@),
        nonempty == (done.len() > 0),
    ensures
        final(out)@ == join(done.push(section@), "\n\n"@),
{
    proof {
        lemma_join_push(done, "\n\n"@, section@);
    }
    if nonempty {
        push_str(out, "\n\n");
    }
    push_str(out, section);
}

/// The prompt that generates an artefact from the selected context of a
/// project, and the records it was built from. Fails when nothing is selected.
pub fn build_artefact_prompt(
    project: &ProjectRecord,
    artefact_type: &str,
    include_project_memory: bool,
    rows: &[ContextRow],
) -> (r: Result<(String, Vec<SelectedContextItem>), String>)
    ensures
        match r {
            Ok((prompt, items)) => {
                &&& prompt_sections(*project, include_project_memory, rows@).len() > 0
                &&& prompt@ == artefact_prompt_spec(
                    artefact_type@,
                    prompt_sections(*project, include_project_memory, rows@),
                )
                &&& items@.map_values(|i: SelectedContextItem| item_view(i)) == prompt_items(
                    *project,
                    include_project_memory,
                    rows@,
                )
            },
            Err(e) => prompt_sections(*project, include_project_memory, rows@).len() == 0 && e@
                == "select at least one project context item"@,
        },
{
    let ghost sections = prompt_sections(*project, include_project_memory, rows@);
    let ghost wanted = prompt_items(*project, include_project_memory, rows@);
    let ghost iv = |i: SelectedContextItem| item_view(i);
    let ghost head: Seq<Seq<char>> = if include_project_memory {
        seq![memory_section(*project)]
    } else {
        Seq::empty()
    };
    let ghost head_items: Seq<(Seq<char>, Seq<char>, Seq<char>)> = if include_project_memory {
        seq![("project"@, project.id@, project.name@)]
    } else {
        Seq::empty()
    };
    let ghost rs = rows@.map_values(|r: ContextRow| row_section(r));
    let ghost ri = rows@.map_values(|r: ContextRow| (r.item_type@, r.item_id@, r.title@));
    let mut body = String::new();
    let mut context: Vec<SelectedContextItem> = Vec::new();
    let mut any = false;
    if include_project_memory {
        let mut section = owned("## Project memory\nName: ");
        push_str(&mut section, project.name.as_str());
        push_str(&mut section, "\nDescription: ");
        match &project.description {
            Some(d) => push_str(&mut section, d.as_str()),
            None => {},
        }
        push_str(&mut section, "\nCurrent direction:\n");
        push_str(&mut section, project.current_direction.as_str());
        push_str(&mut section, "\nOverview:\n");
        push_str(&mut section, project.overview.as_str());
        assert(section@ =~= memory_section(*project));
        push_section(&mut body, false, section.as_str(), Ghost(Seq::empty()));
        assert(Seq::<Seq<char>>::empty().push(section@) =~= head);
        let item = SelectedContextItem {
            item_type: owned("project"),
            item_id: project.id.clone(),
            title: project.name.clone(),
        };
        context.push(item);
        any = true;
        assert(context@.map_values(iv) =~= head_items);
    } else {
        assert(body@ =~= join(head, "\n\n"@));
        assert(context@.map_values(iv) =~= head_items);
    }
    let mut i: usize = 0;
    assert(rs.take(0) =~= Seq::<Seq<char>>::empty());
    assert(head + rs.take(0) =~= head);
    assert(head_items + ri.take(0) =~= head_items);
    while i < rows.len()
        invariant
            i <= rows@.len(),
            any == (head.len() + i > 0),
            iv == (|i: SelectedContextItem| item_view(i)),
            rs == rows@.map_values(|r: ContextRow| row_section(r)),
            ri == rows@.map_values(|r: ContextRow| (r.item_type@, r.item_id@, r.title@)),
            head.len() <= 1,
            body@ == join(head + rs.take(i as int), "\n\n"@),
            context@.map_values(iv) == head_items + ri.take(i as int),
        decreases rows.len() - i,
    {
        let row = &rows[i];
        let mut section = owned("## ");
        push_str(&mut section, row.item_type.as_str());
        push_str(&mut section, ": ");
        push_str(&mut section, row.title.as_str());
        push_str(&mut section, "\n");
        push_str(&mut section, row.body.as_str());
        assert(section@ =~= row_section(*row));
        assert((head + rs.take(i as int)).len() == head.len() + i);
        push_section(&mut body, any, section.as_str(), Ghost(head + rs.take(i as int)));
        assert(head + rs.take(i + 1) =~= (head + rs.take(i as int)).push(rs[i as int]));
        let ghost before = context@;
        let item = SelectedContextItem {
            item_type: row.item_type.clone(),
            item_id: row.item_id.clone(),
            title: row.title.clone(),
        };
        context.push(item);
        assert(context@.map_values(iv) =~= before.map_values(iv).push(iv(item)));
        assert(head_items + ri.take(i + 1) =~= (head_items + ri.take(i as int)).push(
            ri[i as int],
        ));
        any = true;
        i += 1;
    }
    assert(rs.take(rows@.len() as int) =~= rs);
    assert(ri.take(rows@.len() as int) =~= ri);
    assert(head + rs =~= sections);
    assert(head_items + ri =~= wanted);
    if !any {
        return Err(owned("select at least one project context item"));
    }
    let mut prompt = owned("Generate a ");
    push_str(&mut prompt, artefact_type_label(artefact_type));
    push_str(&mut prompt, " in Markdown.\n\n");
    push_str(&mut prompt, artefact_instructions(artefact_type));
    push_str(&mut prompt, ARTEFACT_RULES);
    push_str(&mut prompt, body.as_str());
    Ok((prompt, context))
}

/// The title and body of an artefact to save, trimmed; the type must be one
/// of the five and neither title nor body may be blank.
pub fn prepare_artefact_save(artefact_type: &str, title: &str, body_markdown: &str) -> (r: Result<
    (String, String),
    String,
>)
    ensures
        match r {
            Ok((t, b)) => artefact_type_ok(artefact_type@) && !blank(title@) && !blank(
                body_markdown@,
            ) && t@ == trim_spec(title@) && b@ == trim_spec(body_markdown@),
            Err(e) => if !artefact_type_ok(artefact_type@) {
                e@ == "unsupported artefact type"@
            } else {
                (blank(title@) || blank(body_markdown@)) && e@
                    == "artefact title and markdown body are required"@
            },
        },
{
    match validate_artefact_type(artefact_type) {
        Ok(()) => {},
        Err(e) => {
            return Err(e);
        },
    }
    if is_blank(title) || is_blank(body_markdown) {
        return Err(owned("artefact title and markdown body are required"));
    }
    Ok((trim(title), trim(body_markdown)))
}

/// The supported artefact types are exactly those with a name of their own,
/// and each of them asks for a section structure.
pub proof fn lemma_supported_types_named(t: Seq<char>)
    ensures
        artefact_type_ok(t) <==> label_spec(t) != "Artefact"@,
        artefact_type_ok(t) ==> instructions_spec(t).len() > 0,
{
    reveal_strlit("Artefact");
    reveal_strlit("Product brief");
    reveal_strlit("Implementation plan");
    reveal_strlit("Architecture decision record");
    reveal_strlit("Coding-agent prompt");
    reveal_strlit("LinkedIn or blog draft");
    assert("Product brief"@.len() != "Artefact"@.len());
    assert("Implementation plan"@.len() != "Artefact"@.len());
    assert("Architecture decision record"@.len() != "Artefact"@.len());
    assert("Coding-agent prompt"@.len() != "Artefact"@.len());
    assert("LinkedIn or blog draft"@.len() != "Artefact"@.len());
    reveal_strlit("Use sections: Problem, Audience, Product direction, Core workflow, Scope, Open questions.");
    reveal_strlit("Use sections: Goal, Assumptions, Phases, Data model, UI work, Backend work, Acceptance criteria, Out of scope.");
    reveal_strlit("Use ADR sections: Status, Context, Decision, Consequences.");
    reveal_strlit("Write a copy-pasteable coding-agent prompt with sections: Task, Context, Requirements, Out of scope, Acceptance criteria.");
    reveal_strlit("Write a practical LinkedIn or blog draft. Avoid buzzwords. Include a working title and a concise body.");
}

/// An artefact prompt names one record per section it holds, in the same order.
pub proof fn lemma_prompt_items_match_sections(
    p: ProjectRecord,
    include_memory: bool,
    rows: Seq<ContextRow>,
)
    ensures
        prompt_items(p, include_memory, rows).len() == prompt_sections(p, include_memory, rows).len(),
{
}

/// The title read from Markdown is never blank and has no surrounding whitespace.
pub proof fn lemma_markdown_title_trimmed(s: Seq<char>)
    ensures
        first_line_match(s, LineRule::Heading) matches Some(t) ==> !blank(t) && trim_spec(t) == t,
    decreases s.len(),
{
    let k = line_len(s);
    lemma_line_len_bound(s);
    let t = trim_spec(s.take(k as int));
    if has_prefix(t, "# "@) && !blank(t.skip(2)) {
        lemma_trim_idempotent(t.skip(2));
    } else if k < s.len() {
        lemma_markdown_title_trimmed(s.skip(k + 1 as int));
    }
}

/// A generated artefact before it is saved.
pub struct ArtefactDraft {
    pub project_id: String,
    pub artefact_type: String,
    pub title: String,
    pub summary: Option<String>,
    pub body_markdown: String,
    pub model: Option<String>,
    pub provider: Option<String>,
    pub context: Vec<SelectedContextItem>,
}

/// The draft of a generated artefact: its Markdown as the provider wrote it,
/// titled by its first heading (else the type's name), summarised by its
/// first plain line, with the provider and model that wrote it.
pub fn artefact_draft(
    project_id: String,
    artefact_type: String,
    body_markdown: String,
    provider: String,
    model: String,
    context: Vec<SelectedContextItem>,
) -> (r: ArtefactDraft)
    ensures
        r.project_id@ == project_id@,
        r.artefact_type@ == artefact_type@,
        r.title@ == match first_line_match(body_markdown@, LineRule::Heading) {
            Some(t) => t,
            None => label_spec(artefact_type@),
        },
        opt_view(r.summary) == first_line_match(body_markdown@, LineRule::Summary),
        r.body_markdown@ == body_markdown@,
        opt_view(r.provider) == Some(provider@),
        opt_view(r.model) == Some(model@),
        r.context@ == context@,
{
    let title = draft_title(body_markdown.as_str(), artefact_type.as_str());
    let summary = artefact_summary(body_markdown.as_str());
    ArtefactDraft {
        project_id,
        artefact_type,
        title,
        summary,
        body_markdown,
        model: Some(model),
        provider: Some(provider),
        context,
    }
}

/// Each artefact type has its own name and its own section structure in the
/// prompt that generates it; any other type has neither.
pub proof fn lemma_artefact_type_texts(t: Seq<char>)
    ensures
        t == "product_brief"@ ==> label_spec(t) == "Product brief"@ && instructions_spec(t)
            == "Use sections: Problem, Audience, Product direction, Core workflow, Scope, Open questions."@,
        t == "implementation_plan"@ ==> label_spec(t) == "Implementation plan"@ && instructions_spec(
            t,
        )
            == "Use sections: Goal, Assumptions, Phases, Data model, UI work, Backend work, Acceptance criteria, Out of scope."@,
        t == "adr"@ ==> label_spec(t) == "Architecture decision record"@ && instructions_spec(t)
            == "Use ADR sections: Status, Context, Decision, Consequences."@,
        t == "coding_agent_prompt"@ ==> label_spec(t) == "Coding-agent prompt"@ && instructions_spec(
            t,
        )
            == "Write a copy-pasteable coding-agent prompt with sections: Task, Context, Requirements, Out of scope, Acceptance criteria."@,
        t == "linkedin_blog_draft"@ ==> label_spec(t) == "LinkedIn or blog draft"@
            && instructions_spec(t)
            == "Write a practical LinkedIn or blog draft. Avoid buzzwords. Include a working title and a concise body."@,
        !artefact_type_ok(t) ==> label_spec(t) == "Artefact"@ && instructions_spec(t) == ""@,
{
    reveal_strlit("product_brief");
    reveal_strlit("implementation_plan");
    reveal_strlit("adr");
    reveal_strlit("coding_agent_prompt");
    reveal_strlit("linkedin_blog_draft");
    assert("product_brief"@[0] == 'p' && "implementation_plan"@[0] == 'i' && "adr"@[0] == 'a'
        && "coding_agent_prompt"@[0] == 'c' && "linkedin_blog_draft"@[0] == 'l');
}

/// The prompt for an artefact opens with `Generate a <type name> in
/// Markdown.`, then the type's section structure, then the fixed rules, then
/// the selected sections separated by blank lines.
pub proof fn lemma_artefact_prompt_layout(t: Seq<char>, sections: Seq<Seq<char>>)
    ensures
        artefact_prompt_spec(t, sections) == "Generate a "@ + label_spec(t) + " in Markdown.\n\n"@
            + instructions_spec(t)
            + "\n\nRules:\n- Use only the selected local context below.\n- Do not invent facts, dates, metrics, integrations, or commitments.\n- Prefer concise, copy-pasteable output.\n\nSelected context:\n"@
            + join(sections, "\n\n"@),
{
}

/// The sections of an artefact prompt: when project memory is included, first
/// a `## Project memory` section with the project's name, description (empty
/// when none), current direction and overview; then, for every selected
/// record in order, `## <type>: <title>` followed by its body. No record is
/// left out or repeated.
pub proof fn lemma_prompt_sections_layout(p: ProjectRecord, include_memory: bool, rows: Seq<ContextRow>)
    ensures
        ({
            let m: int = if include_memory {
                1
            } else {
                0
            };
            let ss = prompt_sections(p, include_memory, rows);
            &&& ss.len() == m + rows.len()
            &&& include_memory ==> ss[0] == "## Project memory\nName: "@ + p.name@
                + "\nDescription: "@ + match p.description {
                Some(d) => d@,
                None => ""@,
            } + "\nCurrent direction:\n"@ + p.current_direction@ + "\nOverview:\n"@
                + p.overview@
            &&& forall|i: int|
                0 <= i < rows.len() ==> #[trigger] ss[m + i] == "## "@ + rows[i].item_type@ + ": "@
                    + rows[i].title@ + "\n"@ + rows[i].body@
        }),
{
    reveal_strlit("");
    let m: int = if include_memory {
        1
    } else {
        0
    };
    let ss = prompt_sections(p, include_memory, rows);
    let head: Seq<Seq<char>> = if include_memory {
        seq![memory_section(p)]
    } else {
        Seq::empty()
    };
    let tail = rows.map_values(|r: ContextRow| row_section(r));
    assert(ss == head + tail);
    assert forall|i: int| 0 <= i < rows.len() implies #[trigger] ss[m + i] == "## "@
        + rows[i].item_type@ + ": "@ + rows[i].title@ + "\n"@ + rows[i].body@ by {
        assert(ss[m + i] == tail[i]);
    }
    if include_memory {
        assert(ss[0] == memory_section(p));
        if p.description is None {
            assert(Seq::<char>::empty() =~= ""@);
        }
    }
}

} // verus!
