use vstd::prelude::*;

use crate::contract::{PluginEntry, PluginRecord};
use crate::manager::{
    outcome_report, outcome_state, outcomes_reports, outcomes_state, LoadOutcome,
};
use crate::registry::{entries_wf, has_name, has_scope, insert_result, insert_state};

verus! {

/// A well-formed registry never holds two entries with the same name, nor
/// two entries with the same scope.
pub proof fn lemma_registry_uniqueness(s: Seq<PluginEntry>)
    requires
        entries_wf(s),
    ensures
        forall|i: int, j: int|
            0 <= i < s.len() && 0 <= j < s.len() && i != j ==> (#[trigger] s[i].plugin.name@)
                != (#[trigger] s[j].plugin.name@),
        forall|i: int, j: int|
            0 <= i < s.len() && 0 <= j < s.len() && i != j ==> (#[trigger] s[i].plugin.scope@)
                != (#[trigger] s[j].plugin.scope@),
{
}

/// An insertion attempt preserves the registry invariant, whether the
/// record is committed or rejected.
pub proof fn lemma_insert_preserves_wf(s: Seq<PluginEntry>, rec: PluginRecord)
    requires
        entries_wf(s),
        s.len() <= usize::MAX,
    ensures
        entries_wf(insert_state(s, rec)),
{
    if insert_result(s, rec) is Ok {
        let t = insert_state(s, rec);
        assert(t == s.push(PluginEntry { plugin: rec, id: s.len() as usize }));
        assert forall|i: int| 0 <= i < t.len() implies (#[trigger] t[i].id) == i by {
            if i < s.len() {
                assert(t[i] == s[i]);
            }
        }
        assert forall|i: int, j: int|
            0 <= i < t.len() && 0 <= j < t.len() && i != j implies (#[trigger] t[i].plugin.name@)
            != (#[trigger] t[j].plugin.name@) by {
            if i < s.len() && j < s.len() {
                assert(t[i] == s[i] && t[j] == s[j]);
            } else if i < s.len() {
                assert(!has_name(s, rec.name@));
                assert(t[i] == s[i]);
            } else if j < s.len() {
                assert(!has_name(s, rec.name@));
                assert(t[j] == s[j]);
            }
        }
        assert forall|i: int, j: int|
            0 <= i < t.len() && 0 <= j < t.len() && i != j implies (#[trigger] t[i].plugin.scope@)
            != (#[trigger] t[j].plugin.scope@) by {
            if i < s.len() && j < s.len() {
                assert(t[i] == s[i] && t[j] == s[j]);
            } else if i < s.len() {
                assert(!has_scope(s, rec.scope@));
                assert(t[i] == s[i]);
            } else if j < s.len() {
                assert(!has_scope(s, rec.scope@));
                assert(t[j] == s[j]);
            }
        }
    }
}

/// Identifiers across any well-formed registry are exactly the positions in
/// load order: contiguous from zero, strictly increasing, never repeated.
pub proof fn lemma_identifiers_contiguous(s: Seq<PluginEntry>)
    requires
        entries_wf(s),
    ensures
        forall|i: int| 0 <= i < s.len() ==> (#[trigger] s[i].id) == i,
        forall|i: int, j: int| 0 <= i < j < s.len() ==> (#[trigger] s[i].id) < (#[trigger] s[j].id),
{
    assert forall|i: int, j: int| 0 <= i < j < s.len() implies (#[trigger] s[i].id) < (
    #[trigger] s[j].id) by {
        assert(s[i].id == i);
        assert(s[j].id == j);
    }
}

/// A candidate that failed before registration — a module that could not be
/// opened, a factory symbol that was absent, a bundle that could not be
/// installed — leaves the registry exactly as it was: no partial entry, and
/// no identifier consumed, since the next identifier is the entry count.
pub proof fn lemma_failed_load_leaves_registry(s: Seq<PluginEntry>, o: LoadOutcome)
    requires
        !(o is Loaded),
    ensures
        outcome_state(s, o) == s,
        outcome_report(s, o) is Some,
{
}

/// A record the registry rejects is not inserted at all: the contents, and
/// with them the next identifier, stay exactly as they were.
pub proof fn lemma_rejected_insert_leaves_registry(s: Seq<PluginEntry>, rec: PluginRecord)
    requires
        insert_result(s, rec) is Err,
    ensures
        insert_state(s, rec) == s,
{
}

/// The outcomes of a discovery pass in which every candidate loaded and
/// reported the given records, in scan order.
pub open spec fn loaded_outcomes(recs: Seq<PluginRecord>) -> Seq<LoadOutcome> {
    Seq::new(recs.len(), |i: int| LoadOutcome::Loaded(recs[i]))
}

/// The records are pairwise independent: no two report the same name, and
/// no two claim the same scope.
pub open spec fn independent_records(recs: Seq<PluginRecord>) -> bool {
    forall|i: int, j: int|
        0 <= i < j < recs.len() ==> (#[trigger] recs[i]).name@ != (#[trigger] recs[j]).name@ && recs[i].scope@
            != recs[j].scope@
}

/// A discovery pass over independent records registers every one of them:
/// the registry ends with exactly one entry per record, in scan order,
/// carrying that record unchanged — so the plugins document then holds
/// exactly as many summaries, each with the route list its plugin
/// registered — and the pass reports no failure.
pub proof fn lemma_independent_loads_register_all(recs: Seq<PluginRecord>)
    requires
        independent_records(recs),
        recs.len() <= usize::MAX,
    ensures
        outcomes_state(Seq::empty(), loaded_outcomes(recs)).len() == recs.len(),
        forall|i: int|
            0 <= i < recs.len() ==> (#[trigger] outcomes_state(
                Seq::empty(),
                loaded_outcomes(recs),
            )[i]).plugin == recs[i] && outcomes_state(Seq::empty(), loaded_outcomes(recs))[i].id
                == i,
        outcomes_reports(Seq::empty(), loaded_outcomes(recs)).len() == 0,
        entries_wf(outcomes_state(Seq::empty(), loaded_outcomes(recs))),
    decreases recs.len(),
{
    let os = loaded_outcomes(recs);
    if recs.len() == 0 {
        assert(outcomes_state(Seq::empty(), os) =~= Seq::<PluginEntry>::empty());
    } else {
        let pre = recs.drop_last();
        let last = recs.last();
        assert(independent_records(pre)) by {
            assert forall|i: int, j: int| 0 <= i < j < pre.len() implies (#[trigger] pre[i]).name@
                != (#[trigger] pre[j]).name@ && pre[i].scope@ != pre[j].scope@ by {
                assert(pre[i] == recs[i]);
                assert(pre[j] == recs[j]);
            }
        }
        lemma_independent_loads_register_all(pre);
        let st = outcomes_state(Seq::empty(), loaded_outcomes(pre));
        assert(os.drop_last() =~= loaded_outcomes(pre));
        assert(os.last() == LoadOutcome::Loaded(last));
        assert(!has_scope(st, last.scope@)) by {
            if has_scope(st, last.scope@) {
                let w = choose|w: int|
                    0 <= w < st.len() && (#[trigger] st[w].plugin.scope@) == last.scope@;
                assert(st[w].plugin == pre[w]);
                assert(recs[w].scope@ == recs[recs.len() - 1].scope@);
            }
        }
        assert(!has_name(st, last.name@)) by {
            if has_name(st, last.name@) {
                let w = choose|w: int|
                    0 <= w < st.len() && (#[trigger] st[w].plugin.name@) == last.name@;
                assert(st[w].plugin == pre[w]);
                assert(recs[w].name@ == recs[recs.len() - 1].name@);
            }
        }
        let t = outcomes_state(Seq::empty(), os);
        assert(t == insert_state(st, last));
        assert(t == st.push(PluginEntry { plugin: last, id: st.len() as usize }));
        assert forall|i: int| 0 <= i < recs.len() implies (#[trigger] t[i]).plugin == recs[i]
            && t[i].id == i by {
            if i < pre.len() {
                assert(t[i] == st[i]);
            }
        }
        assert(outcomes_reports(Seq::empty(), os) == outcomes_reports(
            Seq::empty(),
            loaded_outcomes(pre),
        ));
        lemma_insert_preserves_wf(st, last);
    }
}

/// Loading the same bundle twice: once a record with a given name and scope
/// is registered, a second record repeating either one is rejected — with a
/// duplicate-scope or duplicate-name error — and changes nothing.
pub proof fn lemma_reinstall_rejected(
    s: Seq<PluginEntry>,
    rec: PluginRecord,
    again: PluginRecord,
)
    requires
        entries_wf(s),
        s.len() <= usize::MAX,
        insert_result(s, rec) is Ok,
        again.name@ == rec.name@ || again.scope@ == rec.scope@,
    ensures
        insert_result(insert_state(s, rec), again) is Err,
        insert_state(insert_state(s, rec), again) == insert_state(s, rec),
{
    let t = insert_state(s, rec);
    assert(t == s.push(PluginEntry { plugin: rec, id: s.len() as usize }));
    let w = s.len() as int;
    assert(t[w].plugin == rec);
    if again.scope@ == rec.scope@ {
        assert(has_scope(t, again.scope@)) by {
            assert(t[w].plugin.scope@ == again.scope@);
        }
    } else {
        assert(has_name(t, again.name@)) by {
            assert(t[w].plugin.name@ == again.name@);
        }
    }
}

} // verus!
