use vstd::prelude::*;
use crate::version::{SemVer, version_lt, lemma_version_order_total};

verus! {

/// One published version of a package, as reported by an index query.
/// Transient: produced by one query and consumed by version selection.
pub struct PackageSummary {
    pub name: String,
    pub version: SemVer,
}

/// Index of the first summary carrying the greatest version under
/// semantic-version order, or `None` when the query returned nothing.
/// When the same version is published twice, the first entry wins.
pub fn select_latest(summaries: &Vec<PackageSummary>) -> (r: Option<usize>)
    ensures
        r is Some <==> summaries@.len() > 0,
        r matches Some(idx) ==> {
            &&& idx < summaries@.len()
            &&& forall|k: int|
                0 <= k < summaries@.len() ==> !version_lt(
                    summaries@[idx as int].version,
                    #[trigger] summaries@[k].version,
                )
            &&& forall|k: int|
                0 <= k < idx ==> version_lt(
                    #[trigger] summaries@[k].version,
                    summaries@[idx as int].version,
                )
        },
{
    if summaries.len() == 0 {
        return None;
    }
    let mut best: usize = 0;
    let mut i: usize = 1;
    while i < summaries.len()
        invariant
            best < i <= summaries@.len(),
            forall|k: int|
                0 <= k < i ==> !version_lt(
                    summaries@[best as int].version,
                    #[trigger] summaries@[k].version,
                ),
            forall|k: int|
                0 <= k < best ==> version_lt(
                    #[trigger] summaries@[k].version,
                    summaries@[best as int].version,
                ),
        decreases summaries@.len() - i,
    {
        if summaries[best].version.lt(&summaries[i].version) {
            best = i;
        }
        i += 1;
    }
    Some(best)
}

/// With pairwise distinct versions the greatest version is attained at
/// exactly one summary, so "latest" is unambiguous: ties cannot occur.
pub proof fn lemma_latest_unique(s: Seq<PackageSummary>, i1: int, i2: int)
    requires
        forall|k1: int, k2: int|
            0 <= k1 < s.len() && 0 <= k2 < s.len() && k1 != k2 ==> (#[trigger] s[k1].version)
                != (#[trigger] s[k2].version),
        0 <= i1 < s.len(),
        0 <= i2 < s.len(),
        forall|k: int| 0 <= k < s.len() ==> !version_lt(s[i1].version, #[trigger] s[k].version),
        forall|k: int| 0 <= k < s.len() ==> !version_lt(s[i2].version, #[trigger] s[k].version),
    ensures
        i1 == i2,
{
    if i1 != i2 {
        lemma_version_order_total(s[i1].version, s[i2].version);
    }
}

} // verus!
