//! Search and recall over local memory: the text an entity is indexed by,
//! its content hash, keyword scoring, snippets, and the prompts that ask a
//! provider to answer from what was found.
use vstd::prelude::*;
use crate::artefact::ProjectRecord;
use crate::text::{
    blank, byte_offset, chars_of, condense, condense_whitespace, contains_chars, contains_seq,
    find_chars, find_first, hex_lower, is_blank, is_whitespace, is_ws, join, lemma_join_push,
    lemma_words_nonempty, lowercase, opt_view, owned, prefix, push_hex_lower, push_str,
    slice_chars, string_of, text_eq, to_lowercase, trim, trim_spec, utf8_len, words,
};

verus! {

/// A record that can be searched.
pub struct SearchEntity {
    pub entity_type: String,
    pub entity_id: String,
    pub title: String,
    pub body: String,
    pub project_id: Option<String>,
    pub project_name: Option<String>,
}

/// The text an entity is indexed and matched by: `<type>: <title>` and its body.
pub open spec fn search_text_spec(e: SearchEntity) -> Seq<char> {
    e.entity_type@ + ": "@ + e.title@ + "\n"@ + e.body@
}

/// The text an entity is indexed and matched by.
pub fn entity_search_text(entity: &SearchEntity) -> (r: String)
    ensures
        r@ == search_text_spec(*entity),
{
    let mut out = entity.entity_type.clone();
    push_str(&mut out, ": ");
    push_str(&mut out, entity.title.as_str());
    push_str(&mut out, "\n");
    push_str(&mut out, entity.body.as_str());
    out
}

/// The 64-bit hash that std's `DefaultHasher`, freshly made, gives a string.
pub uninterp spec fn default_hash(s: Seq<char>) -> u64;

/// Calls `BuildHasher::hash_one` on `BuildHasherDefault<DefaultHasher>`, which
/// hashes `content` with a new `DefaultHasher` and returns `finish()`. The
/// result is named `default_hash`: `DefaultHasher::new` always starts from the
/// same keys, so it depends on the text alone; the algorithm is not restated.
#[verifier::external_body]
fn hash_text(content: &str) -> (r: u64)
    ensures
        r == default_hash(content@),
{
    std::hash::BuildHasher::hash_one(
        &std::hash::BuildHasherDefault::<std::collections::hash_map::DefaultHasher>::default(),
        content,
    )
}

/// The hash an entity's search text is stored with, in lower-case hexadecimal.
pub fn content_hash(content: &str) -> (r: String)
    ensures
        r@ == hex_lower(default_hash(content@) as nat),
{
    let h = hash_text(content);
    let mut out = String::new();
    push_hex_lower(&mut out, h);
    out
}

/// Whether a stored embedding was made from content with this hash.
pub fn stored_hash_is_current(stored: &Option<String>, content_hash: &str) -> (r: bool)
    ensures
        r == (opt_view(*stored) == Some(content_hash@)),
{
    match stored {
        Some(h) => text_eq(h.as_str(), content_hash),
        None => false,
    }
}

/// How many entities an indexing run embedded and how many it skipped.
pub struct IndexProgress {
    pub indexed: usize,
    pub skipped: usize,
}

impl IndexProgress {
    /// No entity seen yet.
    pub fn new() -> (r: Self)
        ensures
            r.indexed == 0,
            r.skipped == 0,
    {
        IndexProgress { indexed: 0, skipped: 0 }
    }

    /// Counts one entity: skipped when its embedding is current, indexed
    /// otherwise. Returns whether it must be embedded.
    pub fn record(&mut self, current: bool) -> (embed: bool)
        requires
            old(self).indexed + old(self).skipped < usize::MAX,
        ensures
            embed == !current,
            current ==> final(self).skipped == old(self).skipped + 1 && final(self).indexed == old(
                self,
            ).indexed,
            !current ==> final(self).indexed == old(self).indexed + 1 && final(self).skipped == old(
                self,
            ).skipped,
    {
        if current {
            self.skipped = self.skipped + 1;
            false
        } else {
            self.indexed = self.indexed + 1;
            true
        }
    }
}

/// Whether an entity belongs to the searched scope: every entity when no
/// project is given, else those of that project.
pub open spec fn in_scope(e: SearchEntity, project_id: Option<Seq<char>>) -> bool {
    match project_id {
        None => true,
        Some(p) => opt_view(e.project_id) == Some(p),
    }
}

pub open spec fn entity_view(e: SearchEntity) -> (
    Seq<char>,
    Seq<char>,
    Seq<char>,
    Seq<char>,
    Option<Seq<char>>,
    Option<Seq<char>>,
) {
    (e.entity_type@, e.entity_id@, e.title@, e.body@, opt_view(e.project_id), opt_view(e.project_name))
}

/// The entities of `es` in scope, in order.
pub open spec fn scoped(es: Seq<SearchEntity>, project_id: Option<Seq<char>>) -> Seq<
    (Seq<char>, Seq<char>, Seq<char>, Seq<char>, Option<Seq<char>>, Option<Seq<char>>),
>
    decreases es.len(),
{
    if es.len() == 0 {
        seq![]
    } else {
        let rest = scoped(es.drop_last(), project_id);
        if in_scope(es.last(), project_id) {
            rest.push(entity_view(es.last()))
        } else {
            rest
        }
    }
}

fn copy_entity(e: &SearchEntity) -> (r: SearchEntity)
    ensures
        entity_view(r) == entity_view(*e),
{
    SearchEntity {
        entity_type: e.entity_type.clone(),
        entity_id: e.entity_id.clone(),
        title: e.title.clone(),
        body: e.body.clone(),
        project_id: match &e.project_id {
            Some(p) => Some(p.clone()),
            None => None,
        },
        project_name: match &e.project_name {
            Some(p) => Some(p.clone()),
            None => None,
        },
    }
}

/// The entities that a search of `project_id` (or of everything) looks at.
pub fn entities_in_scope(entities: &[SearchEntity], project_id: Option<&str>) -> (r: Vec<
    SearchEntity,
>)
    ensures
        r@.map_values(|e: SearchEntity| entity_view(e)) == scoped(
            entities@,
            match project_id {
                Some(p) => Some(p@),
                None => None,
            },
        ),
{
    let ghost pid = match project_id {
        Some(p) => Some(p@),
        None => None,
    };
    let ghost f = |e: SearchEntity| entity_view(e);
    let mut out: Vec<SearchEntity> = Vec::new();
    let mut i: usize = 0;
    assert(entities@.take(0) =~= Seq::<SearchEntity>::empty());
    assert(out@.map_values(f) =~= scoped(entities@.take(0), pid));
    while i < entities.len()
        invariant
            i <= entities@.len(),
            f == (|e: SearchEntity| entity_view(e)),
            pid == match project_id {
                Some(p) => Some(p@),
                None => None,
            },
            out@.map_values(f) == scoped(entities@.take(i as int), pid),
        decreases entities.len() - i,
    {
        assert(entities@.take(i + 1).drop_last() =~= entities@.take(i as int));
        let e = &entities[i];
        let keep = match project_id {
            None => true,
            Some(p) => match &e.project_id {
                Some(q) => text_eq(q.as_str(), p),
                None => false,
            },
        };
        if keep {
            let ghost before = out@;
            let c = copy_entity(e);
            out.push(c);
            assert(out@.map_values(f) =~= before.map_values(f).push(f(c)));
        }
        i += 1;
    }
    assert(entities@.take(entities@.len() as int) =~= entities@);
    out
}

/// A keyword score as a fraction.
pub struct KeywordScore {
    pub numerator: usize,
    pub denominator: usize,
}

/// How many of `terms` occur in `hay`.
pub open spec fn terms_found(terms: Seq<Seq<char>>, hay: Seq<char>) -> nat
    decreases terms.len(),
{
    if terms.len() == 0 {
        0
    } else {
        terms_found(terms.drop_last(), hay) + if contains_seq(hay, terms.last()) {
            1nat
        } else {
            0nat
        }
    }
}

/// The keyword score of `content` for `query`, both lower-cased: 1 when the
/// whole query occurs, else the share of the query's words that occur.
pub open spec fn keyword_score_spec(content: Seq<char>, query: Seq<char>) -> (nat, nat) {
    let hay = lowercase(content);
    let q = lowercase(query);
    if contains_seq(hay, q) {
        (1, 1)
    } else {
        (terms_found(words(q), hay), if words(q).len() == 0 {
            1
        } else {
            words(q).len()
        })
    }
}

/// The words of `v`, each as its own vector.
pub fn split_words(v: &[char]) -> (r: Vec<Vec<char>>)
    ensures
        r@.map_values(|w: Vec<char>| w@) == words(v@),
{
    let ghost f = |w: Vec<char>| w@;
    let mut out: Vec<Vec<char>> = Vec::new();
    let mut prev_word_char = false;
    let mut i: usize = 0;
    assert(v@.take(0) =~= Seq::<char>::empty());
    assert(out@.map_values(f) =~= words(v@.take(0)));
    while i < v.len()
        invariant
            i <= v.len(),
            f == (|w: Vec<char>| w@),
            out@.map_values(f) == words(v@.take(i as int)),
            prev_word_char == (i > 0 && !is_ws(v@[i - 1])),
        decreases v.len() - i,
    {
        let c = v[i];
        let ghost p = v@.take(i as int);
        let ghost t = v@.take(i + 1);
        assert(t.drop_last() =~= p);
        assert(t.last() == c);
        if is_whitespace(c) {
            prev_word_char = false;
        } else {
            let ghost before = out@;
            if prev_word_char {
                proof {
                    lemma_words_nonempty(p);
                }
                let mut w = out.pop().unwrap();
                w.push(c);
                out.push(w);
                assert(out@.map_values(f) =~= words(t));
            } else {
                let mut w: Vec<char> = Vec::new();
                w.push(c);
                out.push(w);
                assert(out@.map_values(f) =~= words(t));
            }
            prev_word_char = true;
        }
        i += 1;
    }
    assert(v@.take(v.len() as int) =~= v@);
    out
}

/// The keyword score of `content` for `query`.
pub fn keyword_score(content: &str, query: &str) -> (r: KeywordScore)
    ensures
        (r.numerator as nat, r.denominator as nat) == keyword_score_spec(content@, query@),
{
    let lower = to_lowercase(content);
    let lower_query = to_lowercase(query);
    let hay = chars_of(lower.as_str());
    let q = chars_of(lower_query.as_str());
    if contains_chars(&hay, &q) {
        return KeywordScore { numerator: 1, denominator: 1 };
    }
    let terms = split_words(&q);
    let ghost ws = terms@.map_values(|w: Vec<char>| w@);
    let mut found: usize = 0;
    let mut i: usize = 0;
    assert(ws.take(0) =~= Seq::<Seq<char>>::empty());
    while i < terms.len()
        invariant
            i <= terms@.len(),
            ws == terms@.map_values(|w: Vec<char>| w@),
            hay@ == lowercase(content@),
            found as nat == terms_found(ws.take(i as int), hay@),
            found <= i,
        decreases terms.len() - i,
    {
        assert(ws.take(i + 1).drop_last() =~= ws.take(i as int));
        assert(ws.take(i + 1).last() == terms@[i as int]@);
        if contains_chars(&hay, &terms[i]) {
            found = found + 1;
        }
        i += 1;
    }
    assert(ws.take(terms@.len() as int) =~= ws);
    let denominator = if terms.len() == 0 {
        1
    } else {
        terms.len()
    };
    KeywordScore { numerator: found, denominator }
}

/// The snippet shown for a match: the body's words joined by single spaces,
/// from 80 bytes before the first occurrence of the query (found in the
/// lower-cased text; the byte position is then used as a character count),
/// at most 220 characters.
pub open spec fn snippet_spec(body: Seq<char>, query: Seq<char>) -> Seq<char> {
    let condensed = condense(body);
    let lower = lowercase(condensed);
    let found: int = match find_first(lower, lowercase(query)) {
        Some(i) => utf8_len(lower.take(i)) as int,
        None => 0,
    };
    let start = if found >= 80 {
        found - 80
    } else {
        0
    };
    if start >= condensed.len() {
        Seq::empty()
    } else {
        prefix(condensed.skip(start), 220)
    }
}

/// The snippet shown for a match of `query` in `body`.
pub fn snippet(body: &str, query: &str) -> (r: String)
    ensures
        r@ == snippet_spec(body@, query@),
{
    let v = chars_of(body);
    let condensed = condense_whitespace(&v);
    let condensed_text = string_of(&condensed);
    let lower_text = to_lowercase(condensed_text.as_str());
    let lower = chars_of(lower_text.as_str());
    let query_text = to_lowercase(query);
    let q = chars_of(query_text.as_str());
    let found: u128 = match find_chars(&lower, &q) {
        Some(i) => byte_offset(&lower, i),
        None => 0,
    };
    let start: u128 = if found >= 80 {
        found - 80
    } else {
        0
    };
    if start >= condensed.len() as u128 {
        return String::new();
    }
    let a = start as usize;
    let b = if condensed.len() - a <= 220 {
        condensed.len()
    } else {
        a + 220
    };
    let piece = slice_chars(&condensed, a, b);
    proof {
        let rest = condensed@.skip(a as int);
        if rest.len() <= 220 {
            assert(piece@ =~= rest);
        } else {
            assert(piece@ =~= rest.take(220));
        }
    }
    string_of(&piece)
}

/// The number of results a search returns: the requested limit, 10 by
/// default, kept between 1 and 25.
pub fn search_limit(limit: Option<usize>) -> (r: usize)
    ensures
        r == match limit {
            Some(n) => if n < 1 {
                1
            } else if n > 25 {
                25
            } else {
                n
            },
            None => 10,
        },
        1 <= r <= 25,
{
    let n = match limit {
        Some(n) => n,
        None => 10,
    };
    if n < 1 {
        1
    } else if n > 25 {
        25
    } else {
        n
    }
}

/// The query searched for: the input trimmed; a blank query finds nothing.
pub fn search_query(query: &str) -> (r: Option<String>)
    ensures
        match r {
            Some(q) => !blank(query@) && q@ == trim_spec(query@),
            None => blank(query@),
        },
{
    if is_blank(query) {
        None
    } else {
        Some(trim(query))
    }
}

/// The question asked: the input trimmed; a blank question is refused.
pub fn ask_question(question: &str) -> (r: Result<String, String>)
    ensures
        match r {
            Ok(q) => !blank(question@) && q@ == trim_spec(question@),
            Err(e) => blank(question@) && e@ == "question is required"@,
        },
{
    if is_blank(question) {
        Err(owned("question is required"))
    } else {
        Ok(trim(question))
    }
}

/// A search result as quoted to the provider.
pub struct ContextHit {
    pub entity_type: String,
    pub entity_id: String,
    pub title: String,
    pub snippet: String,
}

/// What answering a question takes.
pub enum AskStep {
    /// Nothing matched: this is the answer.
    Answer(String),
    /// Ask the provider with this prompt.
    AskProvider(String),
}

/// The line quoting one result: `- [<type>:<id>] <title> — <snippet>`.
pub open spec fn hit_line(h: ContextHit) -> Seq<char> {
    "- ["@ + h.entity_type@ + ":"@ + h.entity_id@ + "] "@ + h.title@ + " — "@ + h.snippet@
}

/// The answer given when no local memory matched.
pub const NO_MATCH_ANSWER: &'static str = "No local Signal Box memory matched this question. Add or index relevant captures first.";

/// The opening of the prompt that answers a question from local context.
pub const ASK_INSTRUCTIONS: &'static str = "Answer this question using only the local Signal Box context below. If the context is insufficient, say so. Cite local records with [type:id].\n\nQuestion: ";

/// The prompt that answers `question` from the quoted results.
pub open spec fn ask_prompt_spec(question: Seq<char>, hits: Seq<ContextHit>) -> Seq<char> {
    ASK_INSTRUCTIONS@ + question + "\n\nContext:\n"@ + join(
        hits.map_values(|h: ContextHit| hit_line(h)),
        seq!['\n'],
    )
}

fn push_line(out: &mut String, nonempty: bool, line: &str, Ghost(done): Ghost<Seq<Seq<char>>>)
    requires
        old(out)@ == join(done, seq!['\n']),
        nonempty == (done.len() > 0),
    ensures
        final(out)@ == join(done.push(line@), seq!['\n']),
{
    proof {
        lemma_join_push(done, seq!['\n'], line@);
    }
    if nonempty {
        out.push('\n');
    }
    push_str(out, line);
}

/// How a question is answered from the results found for it: the fixed
/// answer when there are none, else a prompt that quotes each of them.
pub fn ask_step(question: &str, hits: &[ContextHit]) -> (r: AskStep)
    ensures
        hits@.len() == 0 ==> (r matches AskStep::Answer(a) && a@ == NO_MATCH_ANSWER@),
        hits@.len() > 0 ==> (r matches AskStep::AskProvider(p) && p@ == ask_prompt_spec(
            question@,
            hits@,
        )),
{
    if hits.len() == 0 {
        return AskStep::Answer(owned(NO_MATCH_ANSWER));
    }
    let ghost lines = hits@.map_values(|h: ContextHit| hit_line(h));
    let mut context = String::new();
    let mut i: usize = 0;
    assert(lines.take(0) =~= Seq::<Seq<char>>::empty());
    while i < hits.len()
        invariant
            i <= hits@.len(),
            lines == hits@.map_values(|h: ContextHit| hit_line(h)),
            context@ == join(lines.take(i as int), seq!['\n']),
        decreases hits.len() - i,
    {
        let h = &hits[i];
        let mut line = owned("- [");
        push_str(&mut line, h.entity_type.as_str());
        push_str(&mut line, ":");
        push_str(&mut line, h.entity_id.as_str());
        push_str(&mut line, "] ");
        push_str(&mut line, h.title.as_str());
        push_str(&mut line, " — ");
        push_str(&mut line, h.snippet.as_str());
        assert(line@ =~= hit_line(*h));
        push_line(&mut context, i > 0, line.as_str(), Ghost(lines.take(i as int)));
        assert(lines.take(i + 1) =~= lines.take(i as int).push(lines[i as int]));
        i += 1;
    }
    assert(lines.take(hits@.len() as int) =~= lines);
    let mut prompt = owned(ASK_INSTRUCTIONS);
    push_str(&mut prompt, question);
    push_str(&mut prompt, "\n\nContext:\n");
    push_str(&mut prompt, context.as_str());
    AskStep::AskProvider(prompt)
}

/// A snippet is at most 220 characters long.
pub proof fn lemma_snippet_bounded(body: Seq<char>, query: Seq<char>)
    ensures
        snippet_spec(body, query).len() <= 220,
{
}

proof fn lemma_terms_found_bound(terms: Seq<Seq<char>>, hay: Seq<char>)
    ensures
        terms_found(terms, hay) <= terms.len(),
    decreases terms.len(),
{
    if terms.len() > 0 {
        lemma_terms_found_bound(terms.drop_last(), hay);
    }
}

/// A keyword score is a fraction between 0 and 1 with a positive denominator.
pub proof fn lemma_keyword_score_fraction(content: Seq<char>, query: Seq<char>)
    ensures
        1 <= keyword_score_spec(content, query).1,
        keyword_score_spec(content, query).0 <= keyword_score_spec(content, query).1,
{
    lemma_terms_found_bound(words(lowercase(query)), lowercase(content));
}

/// A search scoped to a project only looks at that project's entities.
pub proof fn lemma_scoped_entities_in_project(es: Seq<SearchEntity>, project_id: Seq<char>)
    ensures
        forall|i: int|
            0 <= i < scoped(es, Some(project_id)).len() ==> (#[trigger] scoped(
                es,
                Some(project_id),
            )[i]).4 == Some(project_id),
    decreases es.len(),
{
    if es.len() > 0 {
        lemma_scoped_entities_in_project(es.drop_last(), project_id);
        let rest = scoped(es.drop_last(), Some(project_id));
        let r = scoped(es, Some(project_id));
        assert forall|i: int| 0 <= i < r.len() implies (#[trigger] r[i]).4 == Some(project_id) by {
            if i < rest.len() {
                assert(r[i] == rest[i]);
            }
        }
    }
}

/// `terms_found` counts the terms that occur in `hay`: it is the number of
/// terms left after keeping those that occur.
proof fn lemma_terms_found_counts(terms: Seq<Seq<char>>, hay: Seq<char>)
    ensures
        terms_found(terms, hay) == terms.filter(|t: Seq<char>| contains_seq(hay, t)).len(),
    decreases terms.len(),
{
    reveal(Seq::filter);
    if terms.len() > 0 {
        lemma_terms_found_counts(terms.drop_last(), hay);
    }
}

/// The terms found in two lists of terms together are those found in each.
proof fn lemma_terms_found_concat(a: Seq<Seq<char>>, b: Seq<Seq<char>>, hay: Seq<char>)
    ensures
        terms_found(a + b, hay) == terms_found(a, hay) + terms_found(b, hay),
    decreases b.len(),
{
    if b.len() == 0 {
        assert(a + b =~= a);
    } else {
        lemma_terms_found_concat(a, b.drop_last(), hay);
        assert((a + b).drop_last() =~= a + b.drop_last());
        assert((a + b).last() == b.last());
    }
}

/// How many query words occur does not depend on their order: moving a
/// block of words from the front of the query to its end counts the same.
pub proof fn lemma_terms_found_ignores_order(a: Seq<Seq<char>>, b: Seq<Seq<char>>, hay: Seq<char>)
    ensures
        terms_found(a + b, hay) == terms_found(b + a, hay),
{
    lemma_terms_found_concat(a, b, hay);
    lemma_terms_found_concat(b, a, hay);
}

/// The keyword score of `content` for `query`, both lower-cased, is 1 when
/// the whole query occurs in the content; otherwise its numerator is the
/// number of the query's words that occur in the content, each counted
/// wherever it stands, and its denominator is the number of words (at least 1).
pub proof fn lemma_keyword_score_counts(content: Seq<char>, query: Seq<char>)
    ensures
        contains_seq(lowercase(content), lowercase(query)) ==> keyword_score_spec(content, query)
            == (1nat, 1nat),
        !contains_seq(lowercase(content), lowercase(query)) ==> {
            &&& keyword_score_spec(content, query).0 == words(lowercase(query)).filter(
                |w: Seq<char>| contains_seq(lowercase(content), w),
            ).len()
            &&& keyword_score_spec(content, query).1 == if words(lowercase(query)).len() == 0 {
                1
            } else {
                words(lowercase(query)).len()
            }
        },
{
    lemma_terms_found_counts(words(lowercase(query)), lowercase(content));
}

/// Scoping keeps every entity when no project is given, and otherwise
/// exactly the entities whose project is the given one, in their order,
/// each unchanged.
pub proof fn lemma_scoped_is_filter(es: Seq<SearchEntity>, project_id: Option<Seq<char>>)
    ensures
        project_id is None ==> scoped(es, project_id) == es.map_values(
            |e: SearchEntity| entity_view(e),
        ),
        project_id is Some ==> scoped(es, project_id) == es.filter(
            |e: SearchEntity| opt_view(e.project_id) == project_id,
        ).map_values(|e: SearchEntity| entity_view(e)),
    decreases es.len(),
{
    reveal(Seq::filter);
    let f = |e: SearchEntity| entity_view(e);
    let pred = |e: SearchEntity| opt_view(e.project_id) == project_id;
    if es.len() == 0 {
        assert(es.map_values(f) =~= Seq::empty());
        assert(es.filter(pred).map_values(f) =~= Seq::empty());
    } else {
        lemma_scoped_is_filter(es.drop_last(), project_id);
        assert(es.map_values(f) =~= es.drop_last().map_values(f).push(f(es.last())));
        let rest = es.drop_last().filter(pred);
        if pred(es.last()) {
            assert(es.filter(pred) == rest.push(es.last()));
            assert(rest.push(es.last()).map_values(f) =~= rest.map_values(f).push(f(es.last())));
        } else {
            assert(es.filter(pred) == rest);
        }
    }
}

/// The prompt that answers a question is the fixed instructions, the
/// question, and then one line `- [<type>:<id>] <title> — <snippet>` per
/// result, in order, joined by newlines.
pub proof fn lemma_ask_prompt_lines(question: Seq<char>, hits: Seq<ContextHit>)
    ensures
        ask_prompt_spec(question, hits)
            == "Answer this question using only the local Signal Box context below. If the context is insufficient, say so. Cite local records with [type:id].\n\nQuestion: "@
            + question + "\n\nContext:\n"@ + join(
            Seq::new(
                hits.len(),
                |i: int|
                    "- ["@ + hits[i].entity_type@ + ":"@ + hits[i].entity_id@ + "] "@ + hits[i].title@
                        + " — "@ + hits[i].snippet@,
            ),
            seq!['\n'],
        ),
{
    let lines = Seq::new(
        hits.len(),
        |i: int|
            "- ["@ + hits[i].entity_type@ + ":"@ + hits[i].entity_id@ + "] "@ + hits[i].title@
                + " — "@ + hits[i].snippet@,
    );
    assert(hits.map_values(|h: ContextHit| hit_line(h)) =~= lines);
}

} // verus!
