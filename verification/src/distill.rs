//! Distillation: turning a provider's extraction of a capture into the
//! records saved beside it.
//!
//! `plan_extraction` decides everything that is written when a capture is
//! processed: the capture's new title, summary, type and project suggestion,
//! and the tasks, decisions, questions and sources that replace the ones the
//! capture had. Blank items are skipped, text is trimmed, and defaults fill
//! what the provider left out.
use vstd::prelude::*;
use crate::capture::{first_match, match_project_id, name_key, ProjectOption};
use crate::settings::{norm_text, norm_url, normalize_optional_text, normalize_optional_url};
use crate::text::{
    blank, clone_opt, is_blank, lemma_trim_idempotent, opt_view, owned, trim, trim_spec,
};

verus! {

/// An insight the provider found.
pub struct ExtractionInsight {
    pub title: Option<String>,
    pub summary: Option<String>,
}

/// A task the provider found.
pub struct ExtractionTask {
    pub title: String,
    pub description: Option<String>,
}

/// A decision the provider found.
pub struct ExtractionDecision {
    pub title: String,
    pub context: Option<String>,
    pub decision: String,
    pub rationale: Option<String>,
}

/// An open question the provider found.
pub struct ExtractionQuestion {
    pub question: String,
    pub answer: Option<String>,
}

/// A source reference the provider found.
pub struct ExtractionSource {
    pub title: Option<String>,
    pub source_type: Option<String>,
    pub url: Option<String>,
    pub raw_reference: Option<String>,
}

/// A snippet, prompt or artefact suggestion the provider found.
pub struct ExtractionTextItem {
    pub title: Option<String>,
    pub text: Option<String>,
}

/// What a provider extracted from a capture.
pub struct ExtractionResult {
    pub title: Option<String>,
    pub summary: Option<String>,
    pub capture_type: Option<String>,
    pub suggested_project: Option<String>,
    pub insights: Option<Vec<ExtractionInsight>>,
    pub tasks: Option<Vec<ExtractionTask>>,
    pub decisions: Option<Vec<ExtractionDecision>>,
    pub questions: Option<Vec<ExtractionQuestion>>,
    pub sources: Option<Vec<ExtractionSource>>,
    pub code_snippets_or_prompts: Option<Vec<ExtractionTextItem>>,
    pub artefact_suggestions: Option<Vec<ExtractionTextItem>>,
}

/// The fields of a capture that processing sets.
pub struct CaptureUpdate {
    pub title: String,
    pub summary: Option<String>,
    pub capture_type: String,
    pub suggested_project_id: Option<String>,
    pub suggested_project_name: Option<String>,
}

/// A task to save, with status `open`.
pub struct PlannedTask {
    pub title: String,
    pub description: Option<String>,
}

/// A decision to save, with status `proposed`.
pub struct PlannedDecision {
    pub title: String,
    pub context: Option<String>,
    pub decision: String,
    pub rationale: Option<String>,
}

/// A question to save, with status `open`.
pub struct PlannedQuestion {
    pub question: String,
    pub answer: Option<String>,
}

/// A source to save; `raw_excerpt` is stored as its raw reference too.
pub struct PlannedSource {
    pub title: String,
    pub kind: String,
    pub url: Option<String>,
    pub raw_excerpt: Option<String>,
    /// Whether the capture's project, if any, is linked to the source.
    pub linked_to_project: bool,
}

/// Everything written when a capture is processed.
pub struct ExtractionPlan {
    pub capture: CaptureUpdate,
    pub tasks: Vec<PlannedTask>,
    pub decisions: Vec<PlannedDecision>,
    pub questions: Vec<PlannedQuestion>,
    pub sources: Vec<PlannedSource>,
}

/// The items of an optional list; a missing list has none.
pub open spec fn items<T>(o: Option<Vec<T>>) -> Seq<T> {
    match o {
        Some(v) => v@,
        None => Seq::empty(),
    }
}

/// Normalised text, or `default` when there is none.
pub open spec fn text_or(o: Option<Seq<char>>, default: Seq<char>) -> Seq<char> {
    match norm_text(o) {
        Some(t) => t,
        None => default,
    }
}

pub open spec fn task_view(t: PlannedTask) -> (Seq<char>, Option<Seq<char>>) {
    (t.title@, opt_view(t.description))
}

pub open spec fn decision_view(d: PlannedDecision) -> (
    Seq<char>,
    Option<Seq<char>>,
    Seq<char>,
    Option<Seq<char>>,
) {
    (d.title@, opt_view(d.context), d.decision@, opt_view(d.rationale))
}

pub open spec fn question_view(q: PlannedQuestion) -> (Seq<char>, Option<Seq<char>>) {
    (q.question@, opt_view(q.answer))
}

pub open spec fn source_view(s: PlannedSource) -> (
    Seq<char>,
    Seq<char>,
    Option<Seq<char>>,
    Option<Seq<char>>,
    bool,
) {
    (s.title@, s.kind@, opt_view(s.url), opt_view(s.raw_excerpt), s.linked_to_project)
}

/// The tasks kept from `ts`: those with a non-blank title, trimmed.
pub open spec fn planned_tasks(ts: Seq<ExtractionTask>) -> Seq<(Seq<char>, Option<Seq<char>>)>
    decreases ts.len(),
{
    if ts.len() == 0 {
        seq![]
    } else {
        let rest = planned_tasks(ts.drop_last());
        let t = ts.last();
        if blank(t.title@) {
            rest
        } else {
            rest.push((trim_spec(t.title@), norm_text(opt_view(t.description))))
        }
    }
}

/// The decisions kept from `ds`: those with a non-blank title and decision.
pub open spec fn planned_decisions(ds: Seq<ExtractionDecision>) -> Seq<
    (Seq<char>, Option<Seq<char>>, Seq<char>, Option<Seq<char>>),
>
    decreases ds.len(),
{
    if ds.len() == 0 {
        seq![]
    } else {
        let rest = planned_decisions(ds.drop_last());
        let d = ds.last();
        if blank(d.title@) || blank(d.decision@) {
            rest
        } else {
            rest.push(
                (
                    trim_spec(d.title@),
                    norm_text(opt_view(d.context)),
                    trim_spec(d.decision@),
                    norm_text(opt_view(d.rationale)),
                ),
            )
        }
    }
}

/// The questions kept from `qs`: those that are not blank.
pub open spec fn planned_questions(qs: Seq<ExtractionQuestion>) -> Seq<
    (Seq<char>, Option<Seq<char>>),
>
    decreases qs.len(),
{
    if qs.len() == 0 {
        seq![]
    } else {
        let rest = planned_questions(qs.drop_last());
        let q = qs.last();
        if blank(q.question@) {
            rest
        } else {
            rest.push((trim_spec(q.question@), norm_text(opt_view(q.answer))))
        }
    }
}

/// The title of an extracted source: its own, else its URL, else its raw
/// reference, else `Source reference`.
pub open spec fn source_title(s: ExtractionSource) -> Seq<char> {
    match norm_text(opt_view(s.title)) {
        Some(t) => t,
        None => match opt_view(s.url) {
            Some(u) => u,
            None => match opt_view(s.raw_reference) {
                Some(r) => r,
                None => "Source reference"@,
            },
        },
    }
}

pub open spec fn source_entry(s: ExtractionSource) -> (
    Seq<char>,
    Seq<char>,
    Option<Seq<char>>,
    Option<Seq<char>>,
    bool,
) {
    (
        source_title(s),
        text_or(opt_view(s.source_type), "text"@),
        norm_url(opt_view(s.url)),
        norm_text(opt_view(s.raw_reference)),
        true,
    )
}

pub open spec fn insight_entry(i: ExtractionInsight) -> (
    Seq<char>,
    Seq<char>,
    Option<Seq<char>>,
    Option<Seq<char>>,
    bool,
) {
    (text_or(opt_view(i.title), "Insight"@), "insight"@, None, norm_text(opt_view(i.summary)), false)
}

pub open spec fn text_item_entry(t: ExtractionTextItem, default_title: Seq<char>, kind: Seq<char>) -> (
    Seq<char>,
    Seq<char>,
    Option<Seq<char>>,
    Option<Seq<char>>,
    bool,
) {
    (text_or(opt_view(t.title), default_title), kind, None, norm_text(opt_view(t.text)), false)
}

/// All sources saved: the extracted sources, then insights, snippets or
/// prompts, and artefact suggestions, in that order.
pub open spec fn planned_sources(e: ExtractionResult) -> Seq<
    (Seq<char>, Seq<char>, Option<Seq<char>>, Option<Seq<char>>, bool),
> {
    items(e.sources).map_values(|s: ExtractionSource| source_entry(s)) + items(e.insights).map_values(
        |i: ExtractionInsight| insight_entry(i),
    ) + items(e.code_snippets_or_prompts).map_values(
        |t: ExtractionTextItem| text_item_entry(t, "Code or prompt"@, "prompt_or_snippet"@),
    ) + items(e.artefact_suggestions).map_values(
        |t: ExtractionTextItem| text_item_entry(t, "Artefact suggestion"@, "artefact_suggestion"@),
    )
}

/// The project suggestion matched against the existing projects.
pub open spec fn suggested_id_spec(e: ExtractionResult, projects: Seq<ProjectOption>) -> Option<
    Seq<char>,
> {
    match norm_text(opt_view(e.suggested_project)) {
        Some(n) => first_match(projects, name_key(n)),
        None => None,
    }
}

fn plan_tasks(ts: &Option<Vec<ExtractionTask>>) -> (r: Vec<PlannedTask>)
    ensures
        r@.map_values(|t: PlannedTask| task_view(t)) == planned_tasks(items(*ts)),
{
    let mut out: Vec<PlannedTask> = Vec::new();
    match ts {
        None => {
            assert(out@.map_values(|t: PlannedTask| task_view(t)) =~= planned_tasks(items(*ts)));
        },
        Some(v) => {
            let mut i: usize = 0;
            assert(v@.take(0) =~= Seq::<ExtractionTask>::empty());
            assert(out@.map_values(|t: PlannedTask| task_view(t)) =~= planned_tasks(v@.take(0)));
            while i < v.len()
                invariant
                    i <= v@.len(),
                    out@.map_values(|t: PlannedTask| task_view(t)) == planned_tasks(
                        v@.take(i as int),
                    ),
                decreases v.len() - i,
            {
                let ghost before = out@;
                assert(v@.take(i + 1).drop_last() =~= v@.take(i as int));
                let t = &v[i];
                if !is_blank(t.title.as_str()) {
                    let p = PlannedTask {
                        title: trim(t.title.as_str()),
                        description: normalize_optional_text(clone_opt(&t.description)),
                    };
                    out.push(p);
                    assert(out@.map_values(|t: PlannedTask| task_view(t)) =~= before.map_values(
                        |t: PlannedTask| task_view(t),
                    ).push(task_view(p)));
                }
                i += 1;
            }
            assert(v@.take(v@.len() as int) =~= v@);
        },
    }
    out
}

fn plan_decisions(ds: &Option<Vec<ExtractionDecision>>) -> (r: Vec<PlannedDecision>)
    ensures
        r@.map_values(|d: PlannedDecision| decision_view(d)) == planned_decisions(items(*ds)),
{
    let mut out: Vec<PlannedDecision> = Vec::new();
    match ds {
        None => {
            assert(out@.map_values(|d: PlannedDecision| decision_view(d)) =~= planned_decisions(
                items(*ds),
            ));
        },
        Some(v) => {
            let mut i: usize = 0;
            assert(v@.take(0) =~= Seq::<ExtractionDecision>::empty());
            assert(out@.map_values(|d: PlannedDecision| decision_view(d)) =~= planned_decisions(
                v@.take(0),
            ));
            while i < v.len()
                invariant
                    i <= v@.len(),
                    out@.map_values(|d: PlannedDecision| decision_view(d)) == planned_decisions(
                        v@.take(i as int),
                    ),
                decreases v.len() - i,
            {
                let ghost before = out@;
                assert(v@.take(i + 1).drop_last() =~= v@.take(i as int));
                let d = &v[i];
                if !is_blank(d.title.as_str()) && !is_blank(d.decision.as_str()) {
                    let p = PlannedDecision {
                        title: trim(d.title.as_str()),
                        context: normalize_optional_text(clone_opt(&d.context)),
                        decision: trim(d.decision.as_str()),
                        rationale: normalize_optional_text(clone_opt(&d.rationale)),
                    };
                    out.push(p);
                    assert(out@.map_values(|d: PlannedDecision| decision_view(d))
                        =~= before.map_values(|d: PlannedDecision| decision_view(d)).push(
                        decision_view(p),
                    ));
                }
                i += 1;
            }
            assert(v@.take(v@.len() as int) =~= v@);
        },
    }
    out
}

fn plan_questions(qs: &Option<Vec<ExtractionQuestion>>) -> (r: Vec<PlannedQuestion>)
    ensures
        r@.map_values(|q: PlannedQuestion| question_view(q)) == planned_questions(items(*qs)),
{
    let mut out: Vec<PlannedQuestion> = Vec::new();
    match qs {
        None => {
            assert(out@.map_values(|q: PlannedQuestion| question_view(q)) =~= planned_questions(
                items(*qs),
            ));
        },
        Some(v) => {
            let mut i: usize = 0;
            assert(v@.take(0) =~= Seq::<ExtractionQuestion>::empty());
            assert(out@.map_values(|q: PlannedQuestion| question_view(q)) =~= planned_questions(
                v@.take(0),
            ));
            while i < v.len()
                invariant
                    i <= v@.len(),
                    out@.map_values(|q: PlannedQuestion| question_view(q)) == planned_questions(
                        v@.take(i as int),
                    ),
                decreases v.len() - i,
            {
                let ghost before = out@;
                assert(v@.take(i + 1).drop_last() =~= v@.take(i as int));
                let q = &v[i];
                if !is_blank(q.question.as_str()) {
                    let p = PlannedQuestion {
                        question: trim(q.question.as_str()),
                        answer: normalize_optional_text(clone_opt(&q.answer)),
                    };
                    out.push(p);
                    assert(out@.map_values(|q: PlannedQuestion| question_view(q))
                        =~= before.map_values(|q: PlannedQuestion| question_view(q)).push(
                        question_view(p),
                    ));
                }
                i += 1;
            }
            assert(v@.take(v@.len() as int) =~= v@);
        },
    }
    out
}

fn normalized_or(value: &Option<String>, default: &str) -> (r: String)
    ensures
        r@ == text_or(opt_view(*value), default@),
{
    match normalize_optional_text(clone_opt(value)) {
        Some(t) => t,
        None => owned(default),
    }
}

fn extracted_source(s: &ExtractionSource) -> (r: PlannedSource)
    ensures
        source_view(r) == source_entry(*s),
{
    let title = match normalize_optional_text(clone_opt(&s.title)) {
        Some(t) => t,
        None => match &s.url {
            Some(u) => u.clone(),
            None => match &s.raw_reference {
                Some(r) => r.clone(),
                None => owned("Source reference"),
            },
        },
    };
    PlannedSource {
        title,
        kind: normalized_or(&s.source_type, "text"),
        url: normalize_optional_url(clone_opt(&s.url)),
        raw_excerpt: normalize_optional_text(clone_opt(&s.raw_reference)),
        linked_to_project: true,
    }
}

fn plan_sources(e: &ExtractionResult) -> (r: Vec<PlannedSource>)
    ensures
        r@.map_values(|s: PlannedSource| source_view(s)) == planned_sources(*e),
{
    let mut out: Vec<PlannedSource> = Vec::new();
    let ghost f = |s: PlannedSource| source_view(s);
    let ghost a = items(e.sources).map_values(|s: ExtractionSource| source_entry(s));
    let ghost b = items(e.insights).map_values(|i: ExtractionInsight| insight_entry(i));
    let ghost c = items(e.code_snippets_or_prompts).map_values(
        |t: ExtractionTextItem| text_item_entry(t, "Code or prompt"@, "prompt_or_snippet"@),
    );
    let ghost d = items(e.artefact_suggestions).map_values(
        |t: ExtractionTextItem| text_item_entry(t, "Artefact suggestion"@, "artefact_suggestion"@),
    );
    assert(out@.map_values(f) =~= Seq::empty());
    if let Some(v) = &e.sources {
        let mut i: usize = 0;
        while i < v.len()
            invariant
                i <= v@.len(),
                f == (|s: PlannedSource| source_view(s)),
                a == v@.map_values(|s: ExtractionSource| source_entry(s)),
                out@.map_values(f) == a.take(i as int),
            decreases v.len() - i,
        {
            let ghost before = out@;
            let p = extracted_source(&v[i]);
            out.push(p);
            assert(out@.map_values(f) =~= before.map_values(f).push(f(p)));
            assert(a.take(i + 1) =~= a.take(i as int).push(a[i as int]));
            i += 1;
        }
        assert(a.take(v@.len() as int) =~= a);
    }
    assert(out@.map_values(f) =~= a);
    if let Some(v) = &e.insights {
        let mut i: usize = 0;
        while i < v.len()
            invariant
                i <= v@.len(),
                f == (|s: PlannedSource| source_view(s)),
                b == v@.map_values(|i: ExtractionInsight| insight_entry(i)),
                out@.map_values(f) == a + b.take(i as int),
            decreases v.len() - i,
        {
            let ghost before = out@;
            let p = PlannedSource {
                title: normalized_or(&v[i].title, "Insight"),
                kind: owned("insight"),
                url: None,
                raw_excerpt: normalize_optional_text(clone_opt(&v[i].summary)),
                linked_to_project: false,
            };
            out.push(p);
            assert(out@.map_values(f) =~= before.map_values(f).push(f(p)));
            assert(b.take(i + 1) =~= b.take(i as int).push(b[i as int]));
            assert(a + b.take(i + 1) =~= (a + b.take(i as int)).push(b[i as int]));
            i += 1;
        }
        assert(b.take(v@.len() as int) =~= b);
    }
    assert(out@.map_values(f) =~= a + b);
    if let Some(v) = &e.code_snippets_or_prompts {
        let mut i: usize = 0;
        while i < v.len()
            invariant
                i <= v@.len(),
                f == (|s: PlannedSource| source_view(s)),
                c == v@.map_values(
                    |t: ExtractionTextItem| text_item_entry(t, "Code or prompt"@, "prompt_or_snippet"@),
                ),
                out@.map_values(f) == a + b + c.take(i as int),
            decreases v.len() - i,
        {
            let ghost before = out@;
            let p = PlannedSource {
                title: normalized_or(&v[i].title, "Code or prompt"),
                kind: owned("prompt_or_snippet"),
                url: None,
                raw_excerpt: normalize_optional_text(clone_opt(&v[i].text)),
                linked_to_project: false,
            };
            out.push(p);
            assert(out@.map_values(f) =~= before.map_values(f).push(f(p)));
            assert(c.take(i + 1) =~= c.take(i as int).push(c[i as int]));
            assert(a + b + c.take(i + 1) =~= (a + b + c.take(i as int)).push(c[i as int]));
            i += 1;
        }
        assert(c.take(v@.len() as int) =~= c);
    }
    assert(out@.map_values(f) =~= a + b + c);
    if let Some(v) = &e.artefact_suggestions {
        let mut i: usize = 0;
        while i < v.len()
            invariant
                i <= v@.len(),
                f == (|s: PlannedSource| source_view(s)),
                d == v@.map_values(
                    |t: ExtractionTextItem|
                        text_item_entry(t, "Artefact suggestion"@, "artefact_suggestion"@),
                ),
                out@.map_values(f) == a + b + c + d.take(i as int),
            decreases v.len() - i,
        {
            let ghost before = out@;
            let p = PlannedSource {
                title: normalized_or(&v[i].title, "Artefact suggestion"),
                kind: owned("artefact_suggestion"),
                url: None,
                raw_excerpt: normalize_optional_text(clone_opt(&v[i].text)),
                linked_to_project: false,
            };
            out.push(p);
            assert(out@.map_values(f) =~= before.map_values(f).push(f(p)));
            assert(d.take(i + 1) =~= d.take(i as int).push(d[i as int]));
            assert(a + b + c + d.take(i + 1) =~= (a + b + c + d.take(i as int)).push(d[i as int]));
            i += 1;
        }
        assert(d.take(v@.len() as int) =~= d);
    }
    assert(out@.map_values(f) =~= a + b + c + d);
    out
}

/// Everything written when a capture is processed with this extraction.
///
/// The capture gets the extracted title (or `Untitled capture`), summary and
/// type (or `note`), and the suggested project's name together with the id of
/// the existing project of that name, if any. Tasks, decisions and questions
/// with blank text are left out; sources come with defaults for what is
/// missing.
pub fn plan_extraction(extraction: &ExtractionResult, projects: &[ProjectOption]) -> (r:
    ExtractionPlan)
    ensures
        r.capture.title@ == text_or(opt_view(extraction.title), "Untitled capture"@),
        opt_view(r.capture.summary) == norm_text(opt_view(extraction.summary)),
        r.capture.capture_type@ == text_or(opt_view(extraction.capture_type), "note"@),
        opt_view(r.capture.suggested_project_name) == norm_text(
            opt_view(extraction.suggested_project),
        ),
        opt_view(r.capture.suggested_project_id) == suggested_id_spec(*extraction, projects@),
        r.tasks@.map_values(|t: PlannedTask| task_view(t)) == planned_tasks(items(extraction.tasks)),
        r.decisions@.map_values(|d: PlannedDecision| decision_view(d)) == planned_decisions(
            items(extraction.decisions),
        ),
        r.questions@.map_values(|q: PlannedQuestion| question_view(q)) == planned_questions(
            items(extraction.questions),
        ),
        r.sources@.map_values(|s: PlannedSource| source_view(s)) == planned_sources(*extraction),
{
    let suggested_project_name = normalize_optional_text(clone_opt(&extraction.suggested_project));
    let suggested_project_id = match &suggested_project_name {
        Some(name) => match_project_id(projects, name.as_str()),
        None => None,
    };
    let capture = CaptureUpdate {
        title: normalized_or(&extraction.title, "Untitled capture"),
        summary: normalize_optional_text(clone_opt(&extraction.summary)),
        capture_type: normalized_or(&extraction.capture_type, "note"),
        suggested_project_id,
        suggested_project_name,
    };
    ExtractionPlan {
        capture,
        tasks: plan_tasks(&extraction.tasks),
        decisions: plan_decisions(&extraction.decisions),
        questions: plan_questions(&extraction.questions),
        sources: plan_sources(extraction),
    }
}

/// Every task, decision and question that processing saves has non-blank,
/// trimmed text: blank items from the provider are never saved.
pub proof fn lemma_planned_items_not_blank(e: ExtractionResult)
    ensures
        forall|i: int|
            0 <= i < planned_tasks(items(e.tasks)).len() ==> {
                let t = #[trigger] planned_tasks(items(e.tasks))[i];
                !blank(t.0) && trim_spec(t.0) == t.0
            },
        forall|i: int|
            0 <= i < planned_decisions(items(e.decisions)).len() ==> {
                let d = #[trigger] planned_decisions(items(e.decisions))[i];
                !blank(d.0) && trim_spec(d.0) == d.0 && !blank(d.2) && trim_spec(d.2) == d.2
            },
        forall|i: int|
            0 <= i < planned_questions(items(e.questions)).len() ==> {
                let q = #[trigger] planned_questions(items(e.questions))[i];
                !blank(q.0) && trim_spec(q.0) == q.0
            },
{
    lemma_tasks_not_blank(items(e.tasks));
    lemma_decisions_not_blank(items(e.decisions));
    lemma_questions_not_blank(items(e.questions));
}

proof fn lemma_tasks_not_blank(ts: Seq<ExtractionTask>)
    ensures
        forall|i: int|
            0 <= i < planned_tasks(ts).len() ==> {
                let t = #[trigger] planned_tasks(ts)[i];
                !blank(t.0) && trim_spec(t.0) == t.0
            },
    decreases ts.len(),
{
    if ts.len() > 0 {
        let rest = planned_tasks(ts.drop_last());
        lemma_tasks_not_blank(ts.drop_last());
        lemma_trim_idempotent(ts.last().title@);
        let r = planned_tasks(ts);
        assert forall|i: int| 0 <= i < r.len() implies !blank(#[trigger] r[i].0) && trim_spec(
            r[i].0,
        ) == r[i].0 by {
            if i < rest.len() {
                assert(r[i] == rest[i]);
            }
        }
    }
}

proof fn lemma_decisions_not_blank(ds: Seq<ExtractionDecision>)
    ensures
        forall|i: int|
            0 <= i < planned_decisions(ds).len() ==> {
                let d = #[trigger] planned_decisions(ds)[i];
                !blank(d.0) && trim_spec(d.0) == d.0 && !blank(d.2) && trim_spec(d.2) == d.2
            },
    decreases ds.len(),
{
    if ds.len() > 0 {
        let rest = planned_decisions(ds.drop_last());
        lemma_decisions_not_blank(ds.drop_last());
        lemma_trim_idempotent(ds.last().title@);
        lemma_trim_idempotent(ds.last().decision@);
        let r = planned_decisions(ds);
        assert forall|i: int| 0 <= i < r.len() implies !blank(#[trigger] r[i].0) && trim_spec(
            r[i].0,
        ) == r[i].0 && !blank(r[i].2) && trim_spec(r[i].2) == r[i].2 by {
            if i < rest.len() {
                assert(r[i] == rest[i]);
            }
        }
    }
}

proof fn lemma_questions_not_blank(qs: Seq<ExtractionQuestion>)
    ensures
        forall|i: int|
            0 <= i < planned_questions(qs).len() ==> {
                let q = #[trigger] planned_questions(qs)[i];
                !blank(q.0) && trim_spec(q.0) == q.0
            },
    decreases qs.len(),
{
    if qs.len() > 0 {
        let rest = planned_questions(qs.drop_last());
        lemma_questions_not_blank(qs.drop_last());
        lemma_trim_idempotent(qs.last().question@);
        let r = planned_questions(qs);
        assert forall|i: int| 0 <= i < r.len() implies !blank(#[trigger] r[i].0) && trim_spec(
            r[i].0,
        ) == r[i].0 by {
            if i < rest.len() {
                assert(r[i] == rest[i]);
            }
        }
    }
}

/// Optional text as it is saved: trimmed, or nothing when missing or blank.
pub open spec fn kept_text(o: Option<Seq<char>>) -> Option<Seq<char>> {
    match o {
        Some(t) => if trim_spec(t).len() == 0 {
            None
        } else {
            Some(trim_spec(t))
        },
        None => None,
    }
}

/// Whether an extracted task is saved: its title is not blank.
pub open spec fn task_is_kept(t: ExtractionTask) -> bool {
    trim_spec(t.title@).len() > 0
}

/// Whether an extracted decision is saved: its title and decision are not blank.
pub open spec fn decision_is_kept(d: ExtractionDecision) -> bool {
    trim_spec(d.title@).len() > 0 && trim_spec(d.decision@).len() > 0
}

/// Whether an extracted question is saved: its text is not blank.
pub open spec fn question_is_kept(q: ExtractionQuestion) -> bool {
    trim_spec(q.question@).len() > 0
}

/// The saved tasks are the extracted tasks with a non-blank title, in order,
/// each with its title trimmed and its description trimmed (none when the
/// description is missing or blank).
pub proof fn lemma_saved_tasks(ts: Seq<ExtractionTask>)
    ensures
        planned_tasks(ts) == ts.filter(|t: ExtractionTask| task_is_kept(t)).map_values(
            |t: ExtractionTask| (trim_spec(t.title@), kept_text(opt_view(t.description))),
        ),
    decreases ts.len(),
{
    reveal(Seq::filter);
    let pred = |t: ExtractionTask| task_is_kept(t);
    let f = |t: ExtractionTask| (trim_spec(t.title@), kept_text(opt_view(t.description)));
    if ts.len() == 0 {
        assert(ts.filter(pred) =~= Seq::<ExtractionTask>::empty());
        assert(ts.filter(pred).map_values(f) =~= planned_tasks(ts));
    } else {
        lemma_saved_tasks(ts.drop_last());
        let rest = ts.drop_last().filter(pred);
        if pred(ts.last()) {
            assert(ts.filter(pred) == rest.push(ts.last()));
            assert(rest.push(ts.last()).map_values(f) =~= rest.map_values(f).push(f(ts.last())));
        } else {
            assert(ts.filter(pred) == rest);
        }
    }
}

/// The saved decisions are the extracted decisions whose title and decision
/// are not blank, in order, with title and decision trimmed and context and
/// rationale trimmed (none when missing or blank).
pub proof fn lemma_saved_decisions(ds: Seq<ExtractionDecision>)
    ensures
        planned_decisions(ds) == ds.filter(|d: ExtractionDecision| decision_is_kept(d)).map_values(
            |d: ExtractionDecision|
                (
                    trim_spec(d.title@),
                    kept_text(opt_view(d.context)),
                    trim_spec(d.decision@),
                    kept_text(opt_view(d.rationale)),
                ),
        ),
    decreases ds.len(),
{
    reveal(Seq::filter);
    let pred = |d: ExtractionDecision| decision_is_kept(d);
    let f = |d: ExtractionDecision|
        (
            trim_spec(d.title@),
            kept_text(opt_view(d.context)),
            trim_spec(d.decision@),
            kept_text(opt_view(d.rationale)),
        );
    if ds.len() == 0 {
        assert(ds.filter(pred) =~= Seq::<ExtractionDecision>::empty());
        assert(ds.filter(pred).map_values(f) =~= planned_decisions(ds));
    } else {
        lemma_saved_decisions(ds.drop_last());
        let rest = ds.drop_last().filter(pred);
        if pred(ds.last()) {
            assert(ds.filter(pred) == rest.push(ds.last()));
            assert(rest.push(ds.last()).map_values(f) =~= rest.map_values(f).push(f(ds.last())));
        } else {
            assert(ds.filter(pred) == rest);
        }
    }
}

/// The saved questions are the extracted questions that are not blank, in
/// order, each trimmed and with the provider's answer trimmed (none when the
/// answer is missing or blank).
pub proof fn lemma_saved_questions(qs: Seq<ExtractionQuestion>)
    ensures
        planned_questions(qs) == qs.filter(|q: ExtractionQuestion| question_is_kept(q)).map_values(
            |q: ExtractionQuestion| (trim_spec(q.question@), kept_text(opt_view(q.answer))),
        ),
    decreases qs.len(),
{
    reveal(Seq::filter);
    let pred = |q: ExtractionQuestion| question_is_kept(q);
    let f = |q: ExtractionQuestion| (trim_spec(q.question@), kept_text(opt_view(q.answer)));
    if qs.len() == 0 {
        assert(qs.filter(pred) =~= Seq::<ExtractionQuestion>::empty());
        assert(qs.filter(pred).map_values(f) =~= planned_questions(qs));
    } else {
        lemma_saved_questions(qs.drop_last());
        let rest = qs.drop_last().filter(pred);
        if pred(qs.last()) {
            assert(qs.filter(pred) == rest.push(qs.last()));
            assert(rest.push(qs.last()).map_values(f) =~= rest.map_values(f).push(f(qs.last())));
        } else {
            assert(qs.filter(pred) == rest);
        }
    }
}

/// Optional text as it is saved, or `default` when it is missing or blank.
pub proof fn lemma_text_or_default(o: Option<Seq<char>>, default: Seq<char>)
    ensures
        text_or(o, default) == match kept_text(o) {
            Some(t) => t,
            None => default,
        },
{
}

/// The sources saved for a capture: first one per extracted source, titled
/// by its own title, else its URL, else its raw reference, else `Source
/// reference`, of its type or `text`, and linked to the project; then one per
/// insight (`Insight`, kind `insight`), per snippet or prompt (`Code or
/// prompt`, kind `prompt_or_snippet`) and per artefact suggestion (`Artefact
/// suggestion`, kind `artefact_suggestion`), with their text as the excerpt,
/// no URL and no project link.
pub proof fn lemma_saved_sources(e: ExtractionResult)
    ensures
        ({
            let ss = items(e.sources);
            let is = items(e.insights);
            let cs = items(e.code_snippets_or_prompts);
            let as_ = items(e.artefact_suggestions);
            let r = planned_sources(e);
            &&& r.len() == ss.len() + is.len() + cs.len() + as_.len()
            &&& forall|i: int|
                0 <= i < ss.len() ==> #[trigger] r[i] == (
                    match kept_text(opt_view(ss[i].title)) {
                        Some(t) => t,
                        None => match opt_view(ss[i].url) {
                            Some(u) => u,
                            None => match opt_view(ss[i].raw_reference) {
                                Some(x) => x,
                                None => "Source reference"@,
                            },
                        },
                    },
                    match kept_text(opt_view(ss[i].source_type)) {
                        Some(t) => t,
                        None => "text"@,
                    },
                    norm_url(opt_view(ss[i].url)),
                    kept_text(opt_view(ss[i].raw_reference)),
                    true,
                )
            &&& forall|i: int|
                0 <= i < is.len() ==> #[trigger] r[ss.len() + i] == (
                    match kept_text(opt_view(is[i].title)) {
                        Some(t) => t,
                        None => "Insight"@,
                    },
                    "insight"@,
                    None::<Seq<char>>,
                    kept_text(opt_view(is[i].summary)),
                    false,
                )
            &&& forall|i: int|
                0 <= i < cs.len() ==> #[trigger] r[ss.len() + is.len() + i] == (
                    match kept_text(opt_view(cs[i].title)) {
                        Some(t) => t,
                        None => "Code or prompt"@,
                    },
                    "prompt_or_snippet"@,
                    None::<Seq<char>>,
                    kept_text(opt_view(cs[i].text)),
                    false,
                )
            &&& forall|i: int|
                0 <= i < as_.len() ==> #[trigger] r[ss.len() + is.len() + cs.len() + i] == (
                    match kept_text(opt_view(as_[i].title)) {
                        Some(t) => t,
                        None => "Artefact suggestion"@,
                    },
                    "artefact_suggestion"@,
                    None::<Seq<char>>,
                    kept_text(opt_view(as_[i].text)),
                    false,
                )
        }),
{
    let ss = items(e.sources);
    let is = items(e.insights);
    let cs = items(e.code_snippets_or_prompts);
    let as_ = items(e.artefact_suggestions);
    let a = ss.map_values(|s: ExtractionSource| source_entry(s));
    let b = is.map_values(|i: ExtractionInsight| insight_entry(i));
    let c = cs.map_values(
        |t: ExtractionTextItem| text_item_entry(t, "Code or prompt"@, "prompt_or_snippet"@),
    );
    let d = as_.map_values(
        |t: ExtractionTextItem| text_item_entry(t, "Artefact suggestion"@, "artefact_suggestion"@),
    );
    let r = planned_sources(e);
    assert(r == a + b + c + d);
    assert forall|i: int| 0 <= i < ss.len() implies #[trigger] r[i] == source_entry(ss[i]) by {
        assert(r[i] == a[i]);
    }
    assert forall|i: int| 0 <= i < is.len() implies #[trigger] r[ss.len() + i] == insight_entry(
        is[i],
    ) by {
        assert(r[ss.len() + i] == b[i]);
    }
    assert forall|i: int| 0 <= i < cs.len() implies #[trigger] r[ss.len() + is.len() + i]
        == text_item_entry(cs[i], "Code or prompt"@, "prompt_or_snippet"@) by {
        assert(r[ss.len() + is.len() + i] == c[i]);
    }
    assert forall|i: int| 0 <= i < as_.len() implies #[trigger] r[ss.len() + is.len() + cs.len()
        + i] == text_item_entry(as_[i], "Artefact suggestion"@, "artefact_suggestion"@) by {
        assert(r[ss.len() + is.len() + cs.len() + i] == d[i]);
    }
}

} // verus!
