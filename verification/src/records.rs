//! Project memory records: the edits a user makes to projects, tasks,
//! decisions, questions and sources, the links a source or an artefact gets,
//! and the project recall prompt.
use vstd::prelude::*;
use crate::artefact::{ProjectRecord, SelectedContextItem};
use crate::capture::Capture;
use crate::settings::{
    norm_text, norm_url, normalize_optional_text, normalize_optional_url,
};
use crate::text::{
    blank, clone_opt, is_blank, join, lemma_join_push, opt_view, owned, push_str, trim, trim_spec,
};

verus! {

/// A task of a project, with the title of the capture it came from.
pub struct ProjectTask {
    pub id: String,
    pub capture_id: Option<String>,
    pub capture_title: Option<String>,
    pub title: String,
    pub description: Option<String>,
    pub status: String,
    pub created_at: String,
    pub updated_at: String,
}

/// A decision of a project.
pub struct ProjectDecision {
    pub id: String,
    pub capture_id: Option<String>,
    pub capture_title: Option<String>,
    pub title: String,
    pub context: Option<String>,
    pub decision: String,
    pub rationale: Option<String>,
    pub status: String,
    pub created_at: String,
    pub updated_at: String,
}

/// An open question of a project.
pub struct ProjectQuestion {
    pub id: String,
    pub capture_id: Option<String>,
    pub capture_title: Option<String>,
    pub question: String,
    pub answer: Option<String>,
    pub status: String,
    pub created_at: String,
    pub updated_at: String,
}

/// A source of a project.
pub struct ProjectSource {
    pub id: String,
    pub project_id: Option<String>,
    pub capture_id: Option<String>,
    pub capture_title: Option<String>,
    pub title: String,
    pub kind: String,
    pub url: Option<String>,
    pub raw_excerpt: Option<String>,
    pub notes: Option<String>,
    pub created_at: String,
    pub updated_at: String,
}

/// A saved artefact.
pub struct ProjectArtefact {
    pub id: String,
    pub title: String,
    pub summary: Option<String>,
    pub artefact_type: String,
    pub body_markdown: String,
    pub model: Option<String>,
    pub provider: Option<String>,
    pub created_at: String,
    pub updated_at: String,
}

/// Everything a project holds.
pub struct ProjectMemory {
    pub project: ProjectRecord,
    pub captures: Vec<Capture>,
    pub tasks: Vec<ProjectTask>,
    pub decisions: Vec<ProjectDecision>,
    pub questions: Vec<ProjectQuestion>,
    pub sources: Vec<ProjectSource>,
    pub artefacts: Vec<ProjectArtefact>,
}

/// A project as the user enters it.
pub struct SaveProjectInput {
    pub name: String,
    pub description: Option<String>,
    pub overview: Option<String>,
    pub current_direction: Option<String>,
}

/// A project as it is written.
pub struct ProjectFields {
    pub name: String,
    pub description: Option<String>,
    pub overview: String,
    pub current_direction: String,
}

/// Normalised text, or the empty text.
pub open spec fn text_or_empty(o: Option<Seq<char>>) -> Seq<char> {
    match norm_text(o) {
        Some(t) => t,
        None => Seq::empty(),
    }
}

fn normalized_or_empty(o: &Option<String>) -> (r: String)
    ensures
        r@ == text_or_empty(opt_view(*o)),
{
    match normalize_optional_text(clone_opt(o)) {
        Some(t) => t,
        None => String::new(),
    }
}

/// A project to create or update: the name is trimmed and required, the
/// other fields are normalised, and a missing overview or direction is empty.
pub fn prepare_project(input: &SaveProjectInput) -> (r: Result<ProjectFields, String>)
    ensures
        match r {
            Ok(p) => {
                &&& !blank(input.name@)
                &&& p.name@ == trim_spec(input.name@)
                &&& opt_view(p.description) == norm_text(opt_view(input.description))
                &&& p.overview@ == text_or_empty(opt_view(input.overview))
                &&& p.current_direction@ == text_or_empty(opt_view(input.current_direction))
            },
            Err(e) => blank(input.name@) && e@ == "project name is required"@,
        },
{
    if is_blank(input.name.as_str()) {
        return Err(owned("project name is required"));
    }
    Ok(
        ProjectFields {
            name: trim(input.name.as_str()),
            description: normalize_optional_text(clone_opt(&input.description)),
            overview: normalized_or_empty(&input.overview),
            current_direction: normalized_or_empty(&input.current_direction),
        },
    )
}

/// A task as the user edits it.
pub struct SaveTaskInput {
    pub title: String,
    pub description: Option<String>,
    pub status: String,
}

/// A decision as the user edits it.
pub struct SaveDecisionInput {
    pub title: String,
    pub context: Option<String>,
    pub decision: String,
    pub rationale: Option<String>,
    pub status: String,
}

/// A question as the user edits it.
pub struct SaveQuestionInput {
    pub question: String,
    pub answer: Option<String>,
    pub status: String,
}

/// A task edit to write: title trimmed and required, description normalised,
/// status trimmed.
pub fn prepare_task(input: &SaveTaskInput) -> (r: Result<SaveTaskInput, String>)
    ensures
        match r {
            Ok(t) => !blank(input.title@) && t.title@ == trim_spec(input.title@) && opt_view(
                t.description,
            ) == norm_text(opt_view(input.description)) && t.status@ == trim_spec(input.status@),
            Err(e) => blank(input.title@) && e@ == "task title is required"@,
        },
{
    if is_blank(input.title.as_str()) {
        return Err(owned("task title is required"));
    }
    Ok(
        SaveTaskInput {
            title: trim(input.title.as_str()),
            description: normalize_optional_text(clone_opt(&input.description)),
            status: trim(input.status.as_str()),
        },
    )
}

/// A decision edit to write: title and decision trimmed and required, context
/// and rationale normalised, status trimmed.
pub fn prepare_decision(input: &SaveDecisionInput) -> (r: Result<SaveDecisionInput, String>)
    ensures
        match r {
            Ok(d) => {
                &&& !blank(input.title@) && !blank(input.decision@)
                &&& d.title@ == trim_spec(input.title@)
                &&& opt_view(d.context) == norm_text(opt_view(input.context))
                &&& d.decision@ == trim_spec(input.decision@)
                &&& opt_view(d.rationale) == norm_text(opt_view(input.rationale))
                &&& d.status@ == trim_spec(input.status@)
            },
            Err(e) => (blank(input.title@) || blank(input.decision@)) && e@
                == "decision title and decision are required"@,
        },
{
    if is_blank(input.title.as_str()) || is_blank(input.decision.as_str()) {
        return Err(owned("decision title and decision are required"));
    }
    Ok(
        SaveDecisionInput {
            title: trim(input.title.as_str()),
            context: normalize_optional_text(clone_opt(&input.context)),
            decision: trim(input.decision.as_str()),
            rationale: normalize_optional_text(clone_opt(&input.rationale)),
            status: trim(input.status.as_str()),
        },
    )
}

/// A question edit to write: question trimmed and required, answer
/// normalised, status trimmed.
pub fn prepare_question(input: &SaveQuestionInput) -> (r: Result<SaveQuestionInput, String>)
    ensures
        match r {
            Ok(q) => !blank(input.question@) && q.question@ == trim_spec(input.question@)
                && opt_view(q.answer) == norm_text(opt_view(input.answer)) && q.status@
                == trim_spec(input.status@),
            Err(e) => blank(input.question@) && e@ == "question is required"@,
        },
{
    if is_blank(input.question.as_str()) {
        return Err(owned("question is required"));
    }
    Ok(
        SaveQuestionInput {
            question: trim(input.question.as_str()),
            answer: normalize_optional_text(clone_opt(&input.answer)),
            status: trim(input.status.as_str()),
        },
    )
}

/// A source as the user enters it.
pub struct SaveSourceInput {
    pub project_id: Option<String>,
    pub capture_id: Option<String>,
    pub title: String,
    pub kind: String,
    pub url: Option<String>,
    pub raw_excerpt: Option<String>,
    pub notes: Option<String>,
}

/// A link from a record to another one.
pub struct Link {
    pub from_type: String,
    pub from_id: String,
    pub relationship_type: String,
}

pub open spec fn link_view(l: Link) -> (Seq<char>, Seq<char>, Seq<char>) {
    (l.from_type@, l.from_id@, l.relationship_type@)
}

/// A source as it is written, with the links it gets.
pub struct SourceFields {
    pub project_id: Option<String>,
    pub capture_id: Option<String>,
    pub title: String,
    pub kind: String,
    pub url: Option<String>,
    pub raw_excerpt: Option<String>,
    pub notes: Option<String>,
    pub links: Vec<Link>,
}

/// The links a source gets: its project contains it, its capture references it.
pub open spec fn source_links_spec(input: SaveSourceInput) -> Seq<(Seq<char>, Seq<char>, Seq<char>)> {
    (match opt_view(input.project_id) {
        Some(p) => seq![("project"@, p, "contains"@)],
        None => Seq::empty(),
    }) + match opt_view(input.capture_id) {
        Some(c) => seq![("capture"@, c, "references"@)],
        None => Seq::empty(),
    }
}

/// A source to create or update: title trimmed and required, kind trimmed,
/// URL and texts normalised, linked to its project and capture.
pub fn prepare_source(input: &SaveSourceInput) -> (r: Result<SourceFields, String>)
    ensures
        match r {
            Ok(s) => {
                &&& !blank(input.title@)
                &&& opt_view(s.project_id) == opt_view(input.project_id)
                &&& opt_view(s.capture_id) == opt_view(input.capture_id)
                &&& s.title@ == trim_spec(input.title@)
                &&& s.kind@ == trim_spec(input.kind@)
                &&& opt_view(s.url) == norm_url(opt_view(input.url))
                &&& opt_view(s.raw_excerpt) == norm_text(opt_view(input.raw_excerpt))
                &&& opt_view(s.notes) == norm_text(opt_view(input.notes))
                &&& s.links@.map_values(|l: Link| link_view(l)) == source_links_spec(*input)
            },
            Err(e) => blank(input.title@) && e@ == "source title is required"@,
        },
{
    if is_blank(input.title.as_str()) {
        return Err(owned("source title is required"));
    }
    let mut links: Vec<Link> = Vec::new();
    let ghost f = |l: Link| link_view(l);
    match &input.project_id {
        Some(p) => {
            links.push(
                Link { from_type: owned("project"), from_id: p.clone(), relationship_type: owned(
                    "contains",
                ) },
            );
        },
        None => {},
    }
    let ghost first = links@.map_values(f);
    match &input.capture_id {
        Some(c) => {
            let l = Link {
                from_type: owned("capture"),
                from_id: c.clone(),
                relationship_type: owned("references"),
            };
            links.push(l);
            assert(links@.map_values(f) =~= first.push(f(l)));
        },
        None => {},
    }
    assert(links@.map_values(f) =~= source_links_spec(*input));
    Ok(
        SourceFields {
            project_id: clone_opt(&input.project_id),
            capture_id: clone_opt(&input.capture_id),
            title: trim(input.title.as_str()),
            kind: trim(input.kind.as_str()),
            url: normalize_optional_url(clone_opt(&input.url)),
            raw_excerpt: normalize_optional_text(clone_opt(&input.raw_excerpt)),
            notes: normalize_optional_text(clone_opt(&input.notes)),
            links,
        },
    )
}

/// The links a saved artefact gets: its project contains it, and each record
/// it was generated from is used for it.
pub open spec fn artefact_links_spec(project_id: Seq<char>, context: Seq<SelectedContextItem>) -> Seq<
    (Seq<char>, Seq<char>, Seq<char>),
> {
    seq![("project"@, project_id, "contains"@)] + context.map_values(
        |i: SelectedContextItem| (i.item_type@, i.item_id@, "used_for"@),
    )
}

/// The links a saved artefact gets.
pub fn artefact_links(project_id: &str, context: &[SelectedContextItem]) -> (r: Vec<Link>)
    ensures
        r@.map_values(|l: Link| link_view(l)) == artefact_links_spec(project_id@, context@),
{
    let ghost f = |l: Link| link_view(l);
    let ghost rest = context@.map_values(
        |i: SelectedContextItem| (i.item_type@, i.item_id@, "used_for"@),
    );
    let mut links: Vec<Link> = Vec::new();
    links.push(
        Link { from_type: owned("project"), from_id: owned(project_id), relationship_type: owned(
            "contains",
        ) },
    );
    let ghost head = links@.map_values(f);
    let mut i: usize = 0;
    assert(head + rest.take(0) =~= head);
    while i < context.len()
        invariant
            i <= context@.len(),
            f == (|l: Link| link_view(l)),
            rest == context@.map_values(
                |i: SelectedContextItem| (i.item_type@, i.item_id@, "used_for"@),
            ),
            head == seq![("project"@, project_id@, "contains"@)],
            links@.map_values(f) == head + rest.take(i as int),
        decreases context.len() - i,
    {
        let ghost before = links@;
        let l = Link {
            from_type: context[i].item_type.clone(),
            from_id: context[i].item_id.clone(),
            relationship_type: owned("used_for"),
        };
        links.push(l);
        assert(links@.map_values(f) =~= before.map_values(f).push(f(l)));
        assert(head + rest.take(i + 1) =~= (head + rest.take(i as int)).push(rest[i as int]));
        i += 1;
    }
    assert(rest.take(context@.len() as int) =~= rest);
    links
}

/// The lines of local memory that a project recall is grounded in.
pub open spec fn recall_lines(
    project: ProjectRecord,
    decisions: Seq<ProjectDecision>,
    questions: Seq<ProjectQuestion>,
    tasks: Seq<ProjectTask>,
) -> Seq<Seq<char>> {
    seq![
        "Project: "@ + project.name@ + "\nCurrent direction: "@ + project.current_direction@
            + "\nOverview: "@ + project.overview@,
    ] + decisions.map_values(
        |d: ProjectDecision| "Decision ["@ + d.id@ + "]: "@ + d.decision@,
    ) + questions.map_values(|q: ProjectQuestion| "Question ["@ + q.id@ + "]: "@ + q.question@)
        + tasks.map_values(
        |t: ProjectTask| "Task ["@ + t.id@ + "]: "@ + t.title@ + " ("@ + t.status@ + ")"@,
    )
}

/// The opening of the project recall prompt.
pub const RECALL_INSTRUCTIONS: &'static str = "Return a project recall summary grounded only in this local memory. Use sections: Current state, Key decisions, Open questions, Suggested next action. Cite local records where practical.\n\n";

/// The prompt for a project recall.
pub open spec fn recall_prompt_spec(
    project: ProjectRecord,
    decisions: Seq<ProjectDecision>,
    questions: Seq<ProjectQuestion>,
    tasks: Seq<ProjectTask>,
) -> Seq<char> {
    RECALL_INSTRUCTIONS@ + join(recall_lines(project, decisions, questions, tasks), seq!['\n'])
}

fn push_line(out: &mut String, line: &str, Ghost(done): Ghost<Seq<Seq<char>>>)
    requires
        old(out)@ == join(done, seq!['\n']),
        done.len() > 0,
    ensures
        final(out)@ == join(done.push(line@), seq!['\n']),
{
    proof {
        lemma_join_push(done, seq!['\n'], line@);
    }
    out.push('\n');
    push_str(out, line);
}

/// The prompt for a project recall: the project's name, direction and
/// overview, then each decision, question and task with its id.
pub fn recall_prompt(
    project: &ProjectRecord,
    decisions: &[ProjectDecision],
    questions: &[ProjectQuestion],
    tasks: &[ProjectTask],
) -> (r: String)
    ensures
        r@ == recall_prompt_spec(*project, decisions@, questions@, tasks@),
{
    let ghost head = seq![
        "Project: "@ + project.name@ + "\nCurrent direction: "@ + project.current_direction@
            + "\nOverview: "@ + project.overview@,
    ];
    let ghost ds = decisions@.map_values(
        |d: ProjectDecision| "Decision ["@ + d.id@ + "]: "@ + d.decision@,
    );
    let ghost qs = questions@.map_values(
        |q: ProjectQuestion| "Question ["@ + q.id@ + "]: "@ + q.question@,
    );
    let ghost ts = tasks@.map_values(
        |t: ProjectTask| "Task ["@ + t.id@ + "]: "@ + t.title@ + " ("@ + t.status@ + ")"@,
    );
    let mut body = owned("Project: ");
    push_str(&mut body, project.name.as_str());
    push_str(&mut body, "\nCurrent direction: ");
    push_str(&mut body, project.current_direction.as_str());
    push_str(&mut body, "\nOverview: ");
    push_str(&mut body, project.overview.as_str());
    assert(body@ =~= join(head, seq!['\n']));
    let mut i: usize = 0;
    assert(head + ds.take(0) =~= head);
    while i < decisions.len()
        invariant
            i <= decisions@.len(),
            head.len() == 1,
            ds == decisions@.map_values(
                |d: ProjectDecision| "Decision ["@ + d.id@ + "]: "@ + d.decision@,
            ),
            body@ == join(head + ds.take(i as int), seq!['\n']),
        decreases decisions.len() - i,
    {
        let mut line = owned("Decision [");
        push_str(&mut line, decisions[i].id.as_str());
        push_str(&mut line, "]: ");
        push_str(&mut line, decisions[i].decision.as_str());
        assert(line@ =~= ds[i as int]);
        push_line(&mut body, line.as_str(), Ghost(head + ds.take(i as int)));
        assert(head + ds.take(i + 1) =~= (head + ds.take(i as int)).push(ds[i as int]));
        i += 1;
    }
    assert(ds.take(decisions@.len() as int) =~= ds);
    let ghost hd = head + ds;
    let mut i: usize = 0;
    assert(hd + qs.take(0) =~= hd);
    while i < questions.len()
        invariant
            i <= questions@.len(),
            hd.len() >= 1,
            qs == questions@.map_values(
                |q: ProjectQuestion| "Question ["@ + q.id@ + "]: "@ + q.question@,
            ),
            body@ == join(hd + qs.take(i as int), seq!['\n']),
        decreases questions.len() - i,
    {
        let mut line = owned("Question [");
        push_str(&mut line, questions[i].id.as_str());
        push_str(&mut line, "]: ");
        push_str(&mut line, questions[i].question.as_str());
        assert(line@ =~= qs[i as int]);
        push_line(&mut body, line.as_str(), Ghost(hd + qs.take(i as int)));
        assert(hd + qs.take(i + 1) =~= (hd + qs.take(i as int)).push(qs[i as int]));
        i += 1;
    }
    assert(qs.take(questions@.len() as int) =~= qs);
    let ghost hdq = hd + qs;
    let mut i: usize = 0;
    assert(hdq + ts.take(0) =~= hdq);
    while i < tasks.len()
        invariant
            i <= tasks@.len(),
            hdq.len() >= 1,
            ts == tasks@.map_values(
                |t: ProjectTask| "Task ["@ + t.id@ + "]: "@ + t.title@ + " ("@ + t.status@ + ")"@,
            ),
            body@ == join(hdq + ts.take(i as int), seq!['\n']),
        decreases tasks.len() - i,
    {
        let mut line = owned("Task [");
        push_str(&mut line, tasks[i].id.as_str());
        push_str(&mut line, "]: ");
        push_str(&mut line, tasks[i].title.as_str());
        push_str(&mut line, " (");
        push_str(&mut line, tasks[i].status.as_str());
        push_str(&mut line, ")");
        assert(line@ =~= ts[i as int]);
        push_line(&mut body, line.as_str(), Ghost(hdq + ts.take(i as int)));
        assert(hdq + ts.take(i + 1) =~= (hdq + ts.take(i as int)).push(ts[i as int]));
        i += 1;
    }
    assert(ts.take(tasks@.len() as int) =~= ts);
    assert(hdq + ts =~= recall_lines(*project, decisions@, questions@, tasks@));
    let mut prompt = owned(RECALL_INSTRUCTIONS);
    push_str(&mut prompt, body.as_str());
    prompt
}

/// The columns of a stored project; `summary` and `memory` are the names
/// that older rows keep the description and the overview under.
pub struct ProjectRow {
    pub id: String,
    pub name: String,
    pub summary: Option<String>,
    pub memory: Option<String>,
    pub description: Option<String>,
    pub overview: Option<String>,
    pub current_direction: Option<String>,
    pub status: String,
    pub created_at: String,
    pub updated_at: String,
}

/// `a` if present, else `b`.
pub open spec fn first_present(a: Option<Seq<char>>, b: Option<Seq<char>>) -> Option<Seq<char>> {
    if a is Some {
        a
    } else {
        b
    }
}

/// A project record read from its columns: the description falls back to the
/// summary, the overview to the memory and then to empty text, and a missing
/// direction is empty.
pub fn project_from_row(row: ProjectRow) -> (r: ProjectRecord)
    ensures
        r.id@ == row.id@,
        r.name@ == row.name@,
        opt_view(r.description) == first_present(opt_view(row.description), opt_view(row.summary)),
        r.overview@ == match first_present(opt_view(row.overview), opt_view(row.memory)) {
            Some(t) => t,
            None => Seq::empty(),
        },
        r.current_direction@ == match opt_view(row.current_direction) {
            Some(t) => t,
            None => Seq::empty(),
        },
        r.status@ == row.status@,
        r.created_at@ == row.created_at@,
        r.updated_at@ == row.updated_at@,
{
    let description = match row.description {
        Some(d) => Some(d),
        None => row.summary,
    };
    let overview = match row.overview {
        Some(o) => o,
        None => match row.memory {
            Some(m) => m,
            None => String::new(),
        },
    };
    let current_direction = match row.current_direction {
        Some(c) => c,
        None => String::new(),
    };
    ProjectRecord {
        id: row.id,
        name: row.name,
        description,
        overview,
        current_direction,
        status: row.status,
        created_at: row.created_at,
        updated_at: row.updated_at,
    }
}

/// The project a capture's suggestion points at; a capture without a matched
/// suggestion cannot accept it.
pub fn suggested_project(suggested_project_id: Option<String>) -> (r: Result<String, String>)
    ensures
        match opt_view(suggested_project_id) {
            Some(id) => r matches Ok(p) && p@ == id,
            None => r matches Err(e) && e@ == "capture does not have a matching suggested project"@,
        },
{
    match suggested_project_id {
        Some(id) => Ok(id),
        None => Err(owned("capture does not have a matching suggested project")),
    }
}

/// A project recall prompt is the recall instructions followed by one line
/// per piece of memory, joined by newlines: first the project's name,
/// direction and overview, then `Decision [<id>]: <decision>` for every
/// decision, `Question [<id>]: <question>` for every question and
/// `Task [<id>]: <title> (<status>)` for every task, each in its given order.
pub proof fn lemma_recall_prompt_lines(
    project: ProjectRecord,
    decisions: Seq<ProjectDecision>,
    questions: Seq<ProjectQuestion>,
    tasks: Seq<ProjectTask>,
)
    ensures
        recall_prompt_spec(project, decisions, questions, tasks)
            == "Return a project recall summary grounded only in this local memory. Use sections: Current state, Key decisions, Open questions, Suggested next action. Cite local records where practical.\n\n"@
            + join(
            Seq::new(
                1 + decisions.len() + questions.len() + tasks.len(),
                |i: int|
                    if i == 0 {
                        "Project: "@ + project.name@ + "\nCurrent direction: "@
                            + project.current_direction@ + "\nOverview: "@ + project.overview@
                    } else if i < 1 + decisions.len() {
                        "Decision ["@ + decisions[i - 1].id@ + "]: "@ + decisions[i - 1].decision@
                    } else if i < 1 + decisions.len() + questions.len() {
                        "Question ["@ + questions[i - 1 - decisions.len()].id@ + "]: "@
                            + questions[i - 1 - decisions.len()].question@
                    } else {
                        "Task ["@ + tasks[i - 1 - decisions.len() - questions.len()].id@ + "]: "@
                            + tasks[i - 1 - decisions.len() - questions.len()].title@ + " ("@
                            + tasks[i - 1 - decisions.len() - questions.len()].status@ + ")"@
                    },
            ),
            seq!['\n'],
        ),
{
    let lines = recall_lines(project, decisions, questions, tasks);
    let expected = Seq::new(
        1 + decisions.len() + questions.len() + tasks.len(),
        |i: int|
            if i == 0 {
                "Project: "@ + project.name@ + "\nCurrent direction: "@ + project.current_direction@
                    + "\nOverview: "@ + project.overview@
            } else if i < 1 + decisions.len() {
                "Decision ["@ + decisions[i - 1].id@ + "]: "@ + decisions[i - 1].decision@
            } else if i < 1 + decisions.len() + questions.len() {
                "Question ["@ + questions[i - 1 - decisions.len()].id@ + "]: "@
                    + questions[i - 1 - decisions.len()].question@
            } else {
                "Task ["@ + tasks[i - 1 - decisions.len() - questions.len()].id@ + "]: "@
                    + tasks[i - 1 - decisions.len() - questions.len()].title@ + " ("@
                    + tasks[i - 1 - decisions.len() - questions.len()].status@ + ")"@
            },
    );
    assert(lines =~= expected);
}

} // verus!
