use vstd::prelude::*;
use crate::model::{DistributionGroup, Version};
use crate::text::{lex_less, lex_lt, lemma_lex_total, lemma_lex_transitive};

verus! {

/// Whether some group in `gs` carries the name `group`.
pub open spec fn has_group_named(gs: Seq<DistributionGroup>, group: Seq<char>) -> bool {
    exists|k: int| 0 <= k < gs.len() && (#[trigger] gs[k]).name@ == group
}

/// Whether some group in `groups` carries the name `group`; absent group data matches nothing.
pub open spec fn groups_contain(groups: Option<Vec<DistributionGroup>>, group: Seq<char>) -> bool {
    match groups {
        Some(gs) => has_group_named(gs@, group),
        None => false,
    }
}

/// Whether `v` is a candidate: every version is when no group is asked for.
pub open spec fn eligible(v: Version, group: Option<Seq<char>>) -> bool {
    match group {
        Some(g) => groups_contain(v.distribution_groups, g),
        None => true,
    }
}

/// Whether `vs[i]` is what a stable newest-first sort puts first among the candidates: no
/// candidate is newer, and every candidate before it is strictly older.
pub open spec fn is_first_latest(vs: Seq<Version>, i: int, group: Option<Seq<char>>) -> bool {
    &&& 0 <= i < vs.len()
    &&& eligible(vs[i], group)
    &&& forall|j: int|
        0 <= j < vs.len() && eligible(#[trigger] vs[j], group) ==> {
            &&& (j < i ==> lex_lt(vs[j].uploaded_at@, vs[i].uploaded_at@))
            &&& (j > i ==> !lex_lt(vs[i].uploaded_at@, vs[j].uploaded_at@))
        }
}

/// Picks the version to report on.
pub struct VersionList {}

impl VersionList {
    /// The newest version; among equally new ones the first in the list.
    pub fn latest_version(versions: Vec<Version>) -> (r: Option<Version>)
        ensures
            match r {
                Some(v) => exists|i: int| is_first_latest(versions@, i, None) && v == versions@[i],
                None => versions@.len() == 0,
            },
    {
        let mut versions = versions;
        let ghost vs = versions@;
        match VersionList::latest_index(&versions, None) {
            Some(i) => {
                let v = versions.remove(i);
                assert(is_first_latest(vs, i as int, None) && v == vs[i as int]);
                assert(exists|k: int| is_first_latest(vs, k, None) && v == vs[k]);
                Some(v)
            },
            None => {
                proof {
                    if vs.len() > 0 {
                        assert(eligible(vs[0], None));
                    }
                }
                None
            },
        }
    }

    /// The newest version released to the distribution group named `distribution_group`;
    /// among equally new ones the first in the list. Versions without group data never match.
    pub fn latest_version_of_distribution_group(
        versions: Vec<Version>,
        distribution_group: String,
    ) -> (r: Option<Version>)
        ensures
            match r {
                Some(v) => exists|i: int|
                    is_first_latest(versions@, i, Some(distribution_group@)) && v == versions@[i],
                None => forall|j: int|
                    0 <= j < versions@.len() ==> !eligible(
                        #[trigger] versions@[j],
                        Some(distribution_group@),
                    ),
            },
    {
        let mut versions = versions;
        match VersionList::latest_index(&versions, Some(&distribution_group)) {
            Some(i) => Some(versions.remove(i)),
            None => None,
        }
    }

    /// Whether a version with the groups `distribution_groups` was released to `distribution_group`.
    pub fn by_distribution_group(
        distribution_group: &String,
        distribution_groups: &Option<Vec<DistributionGroup>>,
    ) -> (r: bool)
        ensures
            r == groups_contain(*distribution_groups, distribution_group@),
    {
        match distribution_groups {
            Some(groups) => {
                let mut k: usize = 0;
                while k < groups.len()
                    invariant
                        k <= groups@.len(),
                        *distribution_groups == Some(*groups),
                        forall|m: int| 0 <= m < k ==> (#[trigger] groups@[m]).name@ != distribution_group@,
                    decreases groups@.len() - k,
                {
                    if groups[k].name == *distribution_group {
                        assert(groups@[k as int].name@ == distribution_group@);
                        assert(has_group_named(groups@, distribution_group@));
                        return true;
                    }
                    k = k + 1;
                }
                false
            },
            None => false,
        }
    }

    /// The index of the first newest candidate, if there is a candidate.
    fn latest_index(versions: &Vec<Version>, group: Option<&String>) -> (r: Option<usize>)
        ensures
            match r {
                Some(i) => is_first_latest(versions@, i as int, match group { Some(g) => Some(g@), None => None }),
                None => forall|j: int|
                    0 <= j < versions@.len() ==> !eligible(
                        #[trigger] versions@[j],
                        match group { Some(g) => Some(g@), None => None },
                    ),
            },
    {
        let ghost g = match group { Some(g) => Some(g@), None => None };
        let ghost vs = versions@;
        let mut best: Option<usize> = None;
        let mut j: usize = 0;
        while j < versions.len()
            invariant
                vs == versions@,
                g == match group { Some(g) => Some(g@), None => None::<Seq<char>> },
                j <= vs.len(),
                match best {
                    Some(b) => {
                        &&& b < j
                        &&& eligible(vs[b as int], g)
                        &&& forall|k: int|
                            0 <= k < j && eligible(#[trigger] vs[k], g) ==> {
                                &&& (k < b ==> lex_lt(vs[k].uploaded_at@, vs[b as int].uploaded_at@))
                                &&& (k > b ==> !lex_lt(vs[b as int].uploaded_at@, vs[k].uploaded_at@))
                            }
                    },
                    None => forall|k: int| 0 <= k < j ==> !eligible(#[trigger] vs[k], g),
                },
            decreases vs.len() - j,
        {
            let candidate = match group {
                Some(name) => VersionList::by_distribution_group(name, &versions[j].distribution_groups),
                None => true,
            };
            if candidate {
                match best {
                    None => {
                        best = Some(j);
                    },
                    Some(b) => {
                        if lex_less(versions[b].uploaded_at.as_str(), versions[j].uploaded_at.as_str()) {
                            proof {
                                let kj = vs[j as int].uploaded_at@;
                                let kb = vs[b as int].uploaded_at@;
                                assert forall|k: int|
                                    0 <= k < j && eligible(#[trigger] vs[k], g) implies lex_lt(vs[k].uploaded_at@, kj) by {
                                    let kk = vs[k].uploaded_at@;
                                    lemma_lex_total(kk, kb);
                                    if lex_lt(kk, kb) {
                                        lemma_lex_transitive(kk, kb, kj);
                                    }
                                }
                            }
                            best = Some(j);
                        }
                    },
                }
            }
            j = j + 1;
        }
        best
    }
}

} // verus!
