//! Captures: the raw-text inbox, fallback titles, project suggestions and the
//! extraction prompt.
use vstd::prelude::*;
use crate::text::{
    blank, chars_of, condense, condense_whitespace, join, lemma_join_push, lowercase, opt_view,
    owned, prefix, push_chars, push_str, slice_chars, string_of, text_eq, to_lowercase, trim,
    trim_end, trim_end_spec, trim_spec, is_blank, has_prefix, is_ws, lemma_trim_end_keeps_prefix,
};

verus! {

/// A raw capture and what processing has added beside it.
pub struct Capture {
    pub id: String,
    pub raw_text: String,
    pub title: Option<String>,
    pub summary: Option<String>,
    pub capture_type: String,
    pub source_kind: String,
    pub source: Option<String>,
    pub status: String,
    pub processing_status: String,
    pub processing_error: Option<String>,
    pub project_id: Option<String>,
    pub suggested_project_id: Option<String>,
    pub suggested_project_name: Option<String>,
    pub created_at: String,
    pub updated_at: String,
    pub processed_at: Option<String>,
    pub archived_at: Option<String>,
}

/// A project as offered for selection.
pub struct ProjectOption {
    pub id: String,
    pub name: String,
}

/// The title given to a capture before it is processed: its words joined by
/// single spaces and cut to 80 characters, or `Untitled capture`.
pub open spec fn fallback_title_spec(raw: Seq<char>) -> Seq<char> {
    if condense(raw).len() == 0 {
        "Untitled capture"@
    } else {
        prefix(condense(raw), 80)
    }
}

/// The title given to a capture before it is processed.
pub fn fallback_title(raw_text: &str) -> (r: String)
    ensures
        r@ == fallback_title_spec(raw_text@),
{
    let v = chars_of(raw_text);
    let condensed = condense_whitespace(&v);
    if condensed.len() == 0 {
        return owned("Untitled capture");
    }
    let n: usize = if condensed.len() <= 80 {
        condensed.len()
    } else {
        80
    };
    let t = slice_chars(&condensed, 0, n);
    proof {
        if condensed@.len() <= 80 {
            assert(t@ =~= condensed@);
        }
    }
    string_of(&t)
}

/// The text and title of a new capture: trailing whitespace is dropped, the
/// rest of the raw text is kept as it was typed.
pub fn prepare_capture(raw_text: &str) -> (r: Result<(String, String), String>)
    ensures
        match r {
            Ok((text, title)) => {
                &&& !blank(raw_text@)
                &&& text@ == trim_end_spec(raw_text@)
                &&& title@ == fallback_title_spec(trim_end_spec(raw_text@))
            },
            Err(e) => blank(raw_text@) && e@ == "capture text cannot be empty"@,
        },
{
    let text = trim_end(raw_text);
    if is_blank(raw_text) {
        return Err(owned("capture text cannot be empty"));
    }
    let title = fallback_title(text.as_str());
    Ok((text, title))
}

/// The statuses a capture can be given.
pub open spec fn capture_status_ok(status: Seq<char>) -> bool {
    status == "unprocessed"@ || status == "processed"@ || status == "archived"@
}

/// Accepts `unprocessed`, `processed` and `archived`.
pub fn validate_capture_status(status: &str) -> (r: Result<(), String>)
    ensures
        r is Ok <==> capture_status_ok(status@),
        r matches Err(e) ==> e@ == "unsupported capture status"@,
{
    if text_eq(status, "unprocessed") || text_eq(status, "processed") || text_eq(status, "archived") {
        Ok(())
    } else {
        Err(owned("unsupported capture status"))
    }
}

/// The key by which a project name is matched: trimmed, then lower-cased.
pub open spec fn name_key(s: Seq<char>) -> Seq<char> {
    lowercase(trim_spec(s))
}

/// The id of the first project in `ps` whose name has the key `key`.
pub open spec fn first_match(ps: Seq<ProjectOption>, key: Seq<char>) -> Option<Seq<char>>
    decreases ps.len(),
{
    if ps.len() == 0 {
        None
    } else if name_key(ps[0].name@) == key {
        Some(ps[0].id@)
    } else {
        first_match(ps.drop_first(), key)
    }
}

/// The id of the first project whose trimmed, lower-cased name equals the
/// trimmed, lower-cased `name`.
pub fn match_project_id(projects: &[ProjectOption], name: &str) -> (r: Option<String>)
    ensures
        opt_view(r) == first_match(projects@, name_key(name@)),
{
    let trimmed = trim(name);
    let normalized = to_lowercase(trimmed.as_str());
    let mut i: usize = 0;
    assert(projects@.skip(0) =~= projects@);
    while i < projects.len()
        invariant
            i <= projects@.len(),
            normalized@ == name_key(name@),
            first_match(projects@, name_key(name@)) == first_match(
                projects@.skip(i as int),
                name_key(name@),
            ),
        decreases projects.len() - i,
    {
        let ghost rest = projects@.skip(i as int);
        assert(rest[0] == projects@[i as int]);
        assert(rest.drop_first() =~= projects@.skip(i + 1));
        let candidate_trimmed = trim(projects[i].name.as_str());
        let candidate = to_lowercase(candidate_trimmed.as_str());
        if text_eq(candidate.as_str(), normalized.as_str()) {
            return Some(projects[i].id.clone());
        }
        i += 1;
    }
    None
}

/// The opening of the extraction prompt: the JSON shape and the rules.
pub const EXTRACTION_PROMPT_HEAD: &'static str = "Return one JSON object matching this shape:\n{\n  \"title\": \"short capture title\",\n  \"summary\": \"2-4 sentence technical summary\",\n  \"captureType\": \"note | url | code | terminal | ai_chat | github_issue\",\n  \"suggestedProject\": \"matching existing project name or concise new project suggestion, or null\",\n  \"insights\": [{\"title\": \"insight\", \"summary\": \"why it matters\"}],\n  \"tasks\": [{\"title\": \"task\", \"description\": \"optional detail\"}],\n  \"decisions\": [{\"title\": \"decision title\", \"context\": \"context\", \"decision\": \"decision\", \"rationale\": \"rationale\"}],\n  \"questions\": [{\"question\": \"open question\", \"answer\": null}],\n  \"sources\": [{\"title\": \"source title\", \"sourceType\": \"url | repo | docs | message | terminal | text\", \"url\": \"https://...\", \"rawReference\": \"pasted reference\"}],\n  \"codeSnippetsOrPrompts\": [{\"title\": \"saved snippet or prompt\", \"text\": \"short extract\"}],\n  \"artefactSuggestions\": [{\"title\": \"artefact type\", \"text\": \"why this capture could become it\"}]\n}\n\nRules:\n- Return JSON only.\n- Use empty arrays when no items exist.\n- Preserve the raw capture by extracting structure beside it.\n- Prefer developer-native categories: insight, task, decision, question, source, code snippet or prompt worth saving, artefact suggestion.\n- Suggested project should match one of the existing project names when that is clearly right.\n\nExisting projects:\n";

/// The list of existing projects shown in the extraction prompt.
pub open spec fn project_list_text(projects: Seq<ProjectOption>) -> Seq<char> {
    if projects.len() == 0 {
        "No existing projects are available."@
    } else {
        join(projects.map_values(|p: ProjectOption| "- "@ + p.name@), seq!['\n'])
    }
}

/// The prompt that asks a provider to distil `capture` into structured JSON.
pub open spec fn extraction_prompt_spec(capture: Capture, projects: Seq<ProjectOption>) -> Seq<char> {
    EXTRACTION_PROMPT_HEAD@ + project_list_text(projects) + "\n\nRaw capture metadata:\n- current title: "@
        + match opt_view(capture.title) {
        Some(t) => t,
        None => "Untitled capture"@,
    } + "\n- capture type: "@ + capture.capture_type@ + "\n- source kind: "@
        + capture.source_kind@ + "\n- source: "@ + match opt_view(capture.source) {
        Some(s) => s,
        None => "None"@,
    } + "\n\nRaw capture:\n"@ + capture.raw_text@
}

fn project_list(projects: &[ProjectOption]) -> (r: String)
    ensures
        r@ == project_list_text(projects@),
{
    if projects.len() == 0 {
        return owned("No existing projects are available.");
    }
    let ghost items = projects@.map_values(|p: ProjectOption| "- "@ + p.name@);
    let mut out = String::new();
    let mut i: usize = 0;
    assert(items.take(0) =~= Seq::<Seq<char>>::empty());
    while i < projects.len()
        invariant
            i <= projects@.len(),
            items == projects@.map_values(|p: ProjectOption| "- "@ + p.name@),
            out@ == join(items.take(i as int), seq!['\n']),
        decreases projects.len() - i,
    {
        proof {
            lemma_join_push(items.take(i as int), seq!['\n'], items[i as int]);
            assert(items.take(i + 1) =~= items.take(i as int).push(items[i as int]));
        }
        if i > 0 {
            out.push('\n');
        }
        push_str(&mut out, "- ");
        push_str(&mut out, projects[i].name.as_str());
        proof {
            if i > 0 {
                assert(out@ =~= join(items.take(i as int), seq!['\n']) + seq!['\n'] + items[i as int]);
            } else {
                assert(out@ =~= items[i as int]);
            }
        }
        i += 1;
    }
    assert(items.take(projects@.len() as int) =~= items);
    out
}

/// The prompt that asks a provider to distil `capture` into structured JSON:
/// the expected shape, the rules, the existing project names, the capture's
/// metadata and its raw text.
pub fn extraction_prompt(capture: &Capture, projects: &[ProjectOption]) -> (r: String)
    ensures
        r@ == extraction_prompt_spec(*capture, projects@),
{
    let mut out = owned(EXTRACTION_PROMPT_HEAD);
    let names = project_list(projects);
    push_str(&mut out, names.as_str());
    push_str(&mut out, "\n\nRaw capture metadata:\n- current title: ");
    match &capture.title {
        Some(t) => push_str(&mut out, t.as_str()),
        None => push_str(&mut out, "Untitled capture"),
    }
    push_str(&mut out, "\n- capture type: ");
    push_str(&mut out, capture.capture_type.as_str());
    push_str(&mut out, "\n- source kind: ");
    push_str(&mut out, capture.source_kind.as_str());
    push_str(&mut out, "\n- source: ");
    match &capture.source {
        Some(s) => push_str(&mut out, s.as_str()),
        None => push_str(&mut out, "None"),
    }
    push_str(&mut out, "\n\nRaw capture:\n");
    push_str(&mut out, capture.raw_text.as_str());
    out
}

/// A fallback title is never empty and never longer than 80 characters.
pub proof fn lemma_fallback_title_bounds(raw: Seq<char>)
    ensures
        0 < fallback_title_spec(raw).len() <= 80,
{
    reveal_strlit("Untitled capture");
}

/// A capture keeps what was typed: its saved text is a prefix of the raw
/// input, and only whitespace is cut from the end.
pub proof fn lemma_capture_keeps_raw_text(raw: Seq<char>)
    ensures
        has_prefix(raw, trim_end_spec(raw)),
        forall|j: int| trim_end_spec(raw).len() <= j < raw.len() ==> is_ws(#[trigger] raw[j]),
{
    lemma_trim_end_keeps_prefix(raw);
}

/// A matched project has the searched key, and it is the first that has it;
/// no match means no project has the key.
pub proof fn lemma_first_match_sound(ps: Seq<ProjectOption>, key: Seq<char>)
    ensures
        first_match(ps, key) matches Some(id) ==> exists|i: int|
            0 <= i < ps.len() && #[trigger] ps[i].id@ == id && name_key(ps[i].name@) == key
                && forall|j: int| 0 <= j < i ==> name_key(#[trigger] ps[j].name@) != key,
        first_match(ps, key) is None ==> forall|i: int|
            0 <= i < ps.len() ==> name_key(#[trigger] ps[i].name@) != key,
    decreases ps.len(),
{
    if ps.len() > 0 {
        let t = ps.drop_first();
        lemma_first_match_sound(t, key);
        if name_key(ps[0].name@) == key {
            assert(ps[0].id@ == first_match(ps, key)->0);
        } else {
            assert forall|i: int| 1 <= i < ps.len() implies ps[i] == #[trigger] t[i - 1] by {}
            if let Some(id) = first_match(t, key) {
                let i = choose|i: int|
                    0 <= i < t.len() && #[trigger] t[i].id@ == id && name_key(t[i].name@) == key
                        && forall|j: int| 0 <= j < i ==> name_key(#[trigger] t[j].name@) != key;
                assert(ps[i + 1] == t[i]);
                assert forall|j: int| 0 <= j < i + 1 implies name_key(#[trigger] ps[j].name@)
                    != key by {
                    if j > 0 {
                        assert(ps[j] == t[j - 1]);
                    }
                }
            } else {
                assert forall|i: int| 0 <= i < ps.len() implies name_key(#[trigger] ps[i].name@)
                    != key by {
                    if i > 0 {
                        assert(ps[i] == t[i - 1]);
                    }
                }
            }
        }
    }
}

/// The capture sent to a provider to test its settings.
pub fn provider_test_capture() -> (r: Capture)
    ensures
        r.id@ == "provider_test"@,
        r.raw_text@ == "Health check: extract one title and summary from this developer capture."@,
        opt_view(r.title) == Some("Provider test"@),
        r.summary is None,
        r.capture_type@ == "note"@,
        r.source_kind@ == "typed"@,
        r.source is None,
        r.status@ == "unprocessed"@,
        r.processing_status@ == "idle"@,
        r.processing_error is None,
        r.project_id is None,
        r.suggested_project_id is None,
        r.suggested_project_name is None,
        r.created_at@ == Seq::<char>::empty(),
        r.updated_at@ == Seq::<char>::empty(),
        r.processed_at is None,
        r.archived_at is None,
{
    Capture {
        id: owned("provider_test"),
        raw_text: owned("Health check: extract one title and summary from this developer capture."),
        title: Some(owned("Provider test")),
        summary: None,
        capture_type: owned("note"),
        source_kind: owned("typed"),
        source: None,
        status: owned("unprocessed"),
        processing_status: owned("idle"),
        processing_error: None,
        project_id: None,
        suggested_project_id: None,
        suggested_project_name: None,
        created_at: String::new(),
        updated_at: String::new(),
        processed_at: None,
        archived_at: None,
    }
}

/// A capture's fallback title is its text with whitespace runs collapsed to
/// single spaces, cut to its first 80 characters; `Untitled capture` when the
/// text has no words.
pub proof fn lemma_fallback_title_is_cut_text(raw: Seq<char>)
    ensures
        condense(raw).len() == 0 ==> fallback_title_spec(raw) == "Untitled capture"@,
        condense(raw).len() > 0 ==> {
            &&& fallback_title_spec(raw).len() == if condense(raw).len() < 80 {
                condense(raw).len()
            } else {
                80
            }
            &&& fallback_title_spec(raw) == condense(raw).take(fallback_title_spec(raw).len() as int)
        },
{
    if condense(raw).len() > 0 {
        assert(condense(raw) =~= condense(raw).take(condense(raw).len() as int));
    }
}

} // verus!
