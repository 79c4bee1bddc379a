use vstd::prelude::*;
use crate::api::CrashError;
use crate::model::{Crash, ErrorGroup, GroupDetails, OperatingSystemCount};

verus! {

/// The texts of a list of strings.
pub open spec fn texts(v: Seq<String>) -> Seq<Seq<char>> {
    v.map_values(|s: String| s@)
}

/// The ids to look up for `cs`: each distinct, non-empty error group id, in the order of
/// first appearance.
pub open spec fn lookup_id_seq(cs: Seq<Crash>) -> Seq<Seq<char>>
    decreases cs.len(),
{
    if cs.len() == 0 {
        Seq::empty()
    } else {
        let prev = lookup_id_seq(cs.drop_last());
        match cs.last().error_group_id {
            Some(id) => if id@.len() > 0 && !prev.contains(id@) {
                prev.push(id@)
            } else {
                prev
            },
            None => prev,
        }
    }
}

/// Whether one of the first `n` crash groups of `cs` has an error group id with text `id`.
pub open spec fn group_of_some(cs: Seq<Crash>, n: int, id: Seq<char>) -> bool {
    exists|j: int| 0 <= j < n && cs[j].error_group_id is Some && cs[j].error_group_id->0@ == id
}

/// What the lookups for `ids`, answered by `answers` one for one, leave: the id and the
/// per-system breakdown of each successful lookup, in order.
pub open spec fn kept_details(
    ids: Seq<Seq<char>>,
    answers: Seq<Result<ErrorGroup, CrashError>>,
) -> Seq<(Seq<char>, Seq<OperatingSystemCount>)>
    decreases ids.len(),
{
    if ids.len() == 0 || answers.len() == 0 {
        Seq::empty()
    } else {
        let prev = kept_details(ids.drop_last(), answers.drop_last());
        match answers.last() {
            Ok(g) => prev.push((ids.last(), g.operating_systems@)),
            Err(_) => prev,
        }
    }
}

/// The breakdowns as texts and sequences.
pub open spec fn details_view(d: Seq<(String, Vec<OperatingSystemCount>)>) -> Seq<
    (Seq<char>, Seq<OperatingSystemCount>),
> {
    d.map_values(|p: (String, Vec<OperatingSystemCount>)| (p.0@, p.1@))
}

/// Every kept id is one of the ids looked up; distinct ids give distinct kept ids.
pub proof fn lemma_kept_keys(ids: Seq<Seq<char>>, answers: Seq<Result<ErrorGroup, CrashError>>)
    requires
        ids.len() == answers.len(),
    ensures
        forall|a: int| 0 <= a < kept_details(ids, answers).len() ==> ids.contains(#[trigger] kept_details(ids, answers)[a].0),
        ids.no_duplicates() ==> forall|a: int, b: int|
            0 <= a < b < kept_details(ids, answers).len() ==> (#[trigger] kept_details(ids, answers)[a]).0
                != (#[trigger] kept_details(ids, answers)[b]).0,
    decreases ids.len(),
{
    if ids.len() > 0 {
        let pi = ids.drop_last();
        let pa = answers.drop_last();
        lemma_kept_keys(pi, pa);
        let prev = kept_details(pi, pa);
        let k = kept_details(ids, answers);
        assert forall|a: int| 0 <= a < k.len() implies ids.contains(#[trigger] k[a].0) by {
            if a < prev.len() {
                let j = choose|j: int| 0 <= j < pi.len() && pi[j] == prev[a].0;
                assert(ids[j] == k[a].0);
            } else {
                assert(ids[ids.len() - 1] == k[a].0);
            }
        }
        if ids.no_duplicates() {
            assert(pi.no_duplicates());
            assert forall|a: int, b: int| 0 <= a < b < k.len() implies (#[trigger] k[a]).0 != (#[trigger] k[b]).0 by {
                if b >= prev.len() {
                    assert(k[b].0 == ids.last());
                    let j = choose|j: int| 0 <= j < pi.len() && pi[j] == prev[a].0;
                    assert(ids[j] == prev[a].0);
                }
            }
        }
    }
}

/// Facts about the ids to look up: non-empty, distinct, and each the id of some crash group.
pub proof fn lemma_lookup_ids(cs: Seq<Crash>)
    ensures
        lookup_id_seq(cs).no_duplicates(),
        forall|k: int|
            0 <= k < lookup_id_seq(cs).len() ==> (#[trigger] lookup_id_seq(cs)[k]).len() > 0
                && group_of_some(cs, cs.len() as int, lookup_id_seq(cs)[k]),
    decreases cs.len(),
{
    if cs.len() > 0 {
        let p = cs.drop_last();
        lemma_lookup_ids(p);
        let prev = lookup_id_seq(p);
        let ids = lookup_id_seq(cs);
        assert forall|k: int| 0 <= k < ids.len() implies (#[trigger] ids[k]).len() > 0 && group_of_some(cs, cs.len() as int, ids[k]) by {
            if k < prev.len() {
                assert(group_of_some(p, p.len() as int, prev[k]));
                let j = choose|j: int| 0 <= j < p.len() && p[j].error_group_id is Some && p[j].error_group_id->0@ == prev[k];
                assert(cs[j] == p[j]);
            } else {
                assert(cs[cs.len() - 1] == cs.last());
            }
        }
    }
}

/// The ids to look up for `crashes`: each distinct, non-empty error group id, in the order of
/// first appearance.
pub fn lookup_ids(crashes: &Vec<Crash>) -> (ids: Vec<String>)
    ensures
        texts(ids@) == lookup_id_seq(crashes@),
{
    let mut ids: Vec<String> = Vec::new();
    let mut i: usize = 0;
    while i < crashes.len()
        invariant
            i <= crashes@.len(),
            texts(ids@) == lookup_id_seq(crashes@.take(i as int)),
        decreases crashes@.len() - i,
    {
        let ghost prev = lookup_id_seq(crashes@.take(i as int));
        assert(crashes@.take(i + 1).drop_last() =~= crashes@.take(i as int));
        if let Some(id) = &crashes[i].error_group_id {
            if id.unicode_len() > 0 && !crate::text::holds_text(&ids, id) {
                proof {
                    assert forall|k: int| 0 <= k < prev.len() implies prev[k] != id@ by {
                        assert(prev[k] == ids@[k]@);
                    }
                }
                ids.push(id.clone());
                assert(texts(ids@) =~= prev.push(id@));
            } else if id.unicode_len() > 0 {
                proof {
                    let k = choose|k: int| 0 <= k < ids@.len() && (#[trigger] ids@[k])@ == id@;
                    assert(prev[k] == id@);
                }
            }
        }
        i = i + 1;
    }
    assert(crashes@.take(crashes@.len() as int) =~= crashes@);
    ids
}

/// Keeps, for each successful lookup, its id and per-system breakdown, in order; `answers[k]`
/// is the answer of the lookup for `ids[k]`.
pub fn collect_details(ids: &Vec<String>, answers: Vec<Result<ErrorGroup, CrashError>>) -> (r: GroupDetails)
    requires
        ids@.len() == answers@.len(),
    ensures
        details_view(r@) == kept_details(texts(ids@), answers@),
{
    let ghost all = answers@;
    let ghost idv = texts(ids@);
    let mut rest = answers;
    let mut r: GroupDetails = Vec::new();
    let n = ids.len();
    let mut i: usize = 0;
    while i < n
        invariant
            n == ids@.len(),
            n == all.len(),
            idv == texts(ids@),
            i <= n,
            rest@ == all.skip(i as int),
            details_view(r@) == kept_details(idv.take(i as int), all.take(i as int)),
        decreases n - i,
    {
        let a = rest.remove(0);
        proof {
            assert(idv.take(i + 1).drop_last() =~= idv.take(i as int));
            assert(all.take(i + 1).drop_last() =~= all.take(i as int));
            assert(all.skip(i as int).drop_first() =~= all.skip(i + 1));
            assert(a == all[i as int]);
            assert(idv[i as int] == ids@[i as int]@);
        }
        match a {
            Ok(g) => {
                let ghost before = r@;
                r.push((ids[i].clone(), g.operating_systems));
                assert(details_view(r@) =~= details_view(before).push((idv[i as int], g.operating_systems@)));
            },
            Err(_) => {},
        }
        i = i + 1;
    }
    assert(idv.take(n as int) =~= idv);
    assert(all.take(n as int) =~= all);
    r
}

} // verus!
