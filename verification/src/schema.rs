//! Schema migrations: which of the known migrations still have to be applied.
use vstd::prelude::*;
use crate::text::text_eq;

verus! {

/// Whether `name` is among `recorded`.
pub open spec fn recorded_name(recorded: Seq<String>, name: Seq<char>) -> bool {
    exists|j: int| 0 <= j < recorded.len() && (#[trigger] recorded[j])@ == name
}

/// The indices of the migrations in `names` that are not recorded, in order.
pub open spec fn pending_spec(names: Seq<String>, recorded: Seq<String>) -> Seq<int>
    decreases names.len(),
{
    if names.len() == 0 {
        seq![]
    } else {
        let rest = pending_spec(names.drop_last(), recorded);
        if recorded_name(recorded, names.last()@) {
            rest
        } else {
            rest.push(names.len() - 1)
        }
    }
}

fn is_recorded(recorded: &[String], name: &str) -> (r: bool)
    ensures
        r == recorded_name(recorded@, name@),
{
    let mut j: usize = 0;
    while j < recorded.len()
        invariant
            j <= recorded@.len(),
            forall|k: int| 0 <= k < j ==> (#[trigger] recorded@[k])@ != name@,
        decreases recorded.len() - j,
    {
        if text_eq(recorded[j].as_str(), name) {
            return true;
        }
        j += 1;
    }
    false
}

/// The migrations to apply, as indices into `names`, in order: those whose
/// name is not recorded as applied. Their number is what a run reports.
pub fn pending_migrations(names: &[String], recorded: &[String]) -> (r: Vec<usize>)
    ensures
        r@.map_values(|i: usize| i as int) == pending_spec(names@, recorded@),
{
    let ghost f = |i: usize| i as int;
    let mut out: Vec<usize> = Vec::new();
    let mut i: usize = 0;
    assert(names@.take(0) =~= Seq::<String>::empty());
    assert(out@.map_values(f) =~= pending_spec(names@.take(0), recorded@));
    while i < names.len()
        invariant
            i <= names@.len(),
            f == (|i: usize| i as int),
            out@.map_values(f) == pending_spec(names@.take(i as int), recorded@),
        decreases names.len() - i,
    {
        let ghost t = names@.take(i + 1);
        assert(t.drop_last() =~= names@.take(i as int));
        assert(t.last() == names@[i as int]);
        if !is_recorded(recorded, names[i].as_str()) {
            let ghost before = out@;
            out.push(i);
            assert(out@.map_values(f) =~= before.map_values(f).push(i as int));
        }
        i += 1;
    }
    assert(names@.take(names@.len() as int) =~= names@);
    out
}

/// Every index listed by `pending_spec` lies within `names`, and an index of
/// `names` is listed exactly when its name is not recorded.
pub proof fn lemma_pending_members(names: Seq<String>, recorded: Seq<String>)
    ensures
        forall|m: int|
            0 <= m < pending_spec(names, recorded).len() ==> 0 <= #[trigger] pending_spec(
                names,
                recorded,
            )[m] < names.len(),
        forall|k: int|
            0 <= k < names.len() ==> (pending_spec(names, recorded).contains(k) <==> !recorded_name(
                recorded,
                (#[trigger] names[k])@,
            )),
    decreases names.len(),
{
    if names.len() > 0 {
        let init = names.drop_last();
        lemma_pending_members(init, recorded);
        let rest = pending_spec(init, recorded);
        assert forall|k: int| 0 <= k < names.len() implies (pending_spec(names, recorded).contains(k)
            <==> !recorded_name(recorded, (#[trigger] names[k])@)) by {
            if k < names.len() - 1 {
                assert(init[k] == names[k]);
                if !recorded_name(recorded, names.last()@) {
                    let p = rest.push(names.len() - 1);
                    if p.contains(k) {
                        let m = choose|m: int| 0 <= m < p.len() && #[trigger] p[m] == k;
                        assert(m < rest.len());
                        assert(rest[m] == k);
                    }
                    if rest.contains(k) {
                        let m = choose|m: int| 0 <= m < rest.len() && #[trigger] rest[m] == k;
                        assert(p[m] == k);
                    }
                }
            } else {
                if !recorded_name(recorded, names.last()@) {
                    assert(rest.push(names.len() - 1)[rest.len() as int] == k);
                } else {
                    if rest.contains(k) {
                        let m = choose|m: int| 0 <= m < rest.len() && #[trigger] rest[m] == k;
                        assert(rest[m] < init.len());
                    }
                }
            }
        }
    }
}

/// When every name in `names` is recorded, nothing is pending.
proof fn lemma_nothing_pending(names: Seq<String>, recorded: Seq<String>)
    requires
        forall|k: int| 0 <= k < names.len() ==> recorded_name(recorded, (#[trigger] names[k])@),
    ensures
        pending_spec(names, recorded) == Seq::<int>::empty(),
    decreases names.len(),
{
    if names.len() > 0 {
        let init = names.drop_last();
        assert forall|k: int| 0 <= k < init.len() implies recorded_name(recorded, (#[trigger] init[k])@) by {
            assert(init[k] == names[k]);
        }
        lemma_nothing_pending(init, recorded);
        assert(recorded_name(recorded, names[names.len() - 1]@));
    }
}

/// Migrating twice applies nothing the second time: once the pending
/// migrations are recorded beside the ones already applied, none is pending.
pub proof fn lemma_second_run_applies_nothing(names: Seq<String>, recorded: Seq<String>)
    ensures
        pending_spec(
            names,
            recorded + pending_spec(names, recorded).map_values(|i: int| names[i]),
        ) == Seq::<int>::empty(),
{
    let pending = pending_spec(names, recorded);
    let applied = recorded + pending.map_values(|i: int| names[i]);
    lemma_pending_members(names, recorded);
    assert forall|k: int| 0 <= k < names.len() implies recorded_name(applied, (#[trigger] names[k])@) by {
        if recorded_name(recorded, names[k]@) {
            let j = choose|j: int| 0 <= j < recorded.len() && (#[trigger] recorded[j])@ == names[k]@;
            assert(applied[j] == recorded[j]);
        } else {
            assert(pending.contains(k));
            let m = choose|m: int| 0 <= m < pending.len() && #[trigger] pending[m] == k;
            assert(applied[recorded.len() + m] == names[k]);
        }
    }
    lemma_nothing_pending(names, applied);
}

} // verus!
