//! USB device driver interface: how well a driver matches a device.
use vstd::prelude::*;

verus! {

/// How well a driver matches a device (in increasing order of preference).
#[derive(Copy, Clone, Debug, PartialEq, Eq, Structural)]
pub enum MatchLevel {
    Unmatched,
    /// Matches the class.
    Generic,
    /// Vendor-specific for the class.
    Vendor,
    /// Matched on VID/DID.
    Precise,
}

/// Preference rank of a match level.
pub open spec fn match_rank(m: MatchLevel) -> nat {
    match m {
        MatchLevel::Unmatched => 0,
        MatchLevel::Generic => 1,
        MatchLevel::Vendor => 2,
        MatchLevel::Precise => 3,
    }
}

impl MatchLevel {
    /// Preference rank (higher is better).
    pub fn rank(&self) -> (r: u8)
        ensures
            r == match_rank(*self),
    {
        match self {
            MatchLevel::Unmatched => 0,
            MatchLevel::Generic => 1,
            MatchLevel::Vendor => 2,
            MatchLevel::Precise => 3,
        }
    }
}

/// Match levels rank strictly in the order Unmatched, Generic, Vendor,
/// Precise: a vendor-specific driver beats a class driver, and a driver
/// matched on the device's IDs beats both.
pub proof fn lemma_match_order()
    ensures
        match_rank(MatchLevel::Unmatched) < match_rank(MatchLevel::Generic),
        match_rank(MatchLevel::Generic) < match_rank(MatchLevel::Vendor),
        match_rank(MatchLevel::Vendor) < match_rank(MatchLevel::Precise),
{
}

/// What the driver chosen by `find_driver` (index `i`, as its contract
/// describes it) is, in terms of the levels themselves: a precise match
/// whenever any driver matches precisely, otherwise a vendor match
/// whenever any driver gives one, otherwise a class match; and the first
/// driver at that level.
pub proof fn lemma_chosen_driver(levels: Seq<MatchLevel>, i: int)
    requires
        0 <= i < levels.len(),
        levels[i] != MatchLevel::Unmatched,
        forall|j: int| 0 <= j < i ==> match_rank(levels[j]) < match_rank(levels[i]),
        forall|j: int| 0 <= j < levels.len() ==> match_rank(levels[j]) <= match_rank(levels[i]),
    ensures
        (exists|j: int| 0 <= j < levels.len() && levels[j] == MatchLevel::Precise) ==> levels[i] == MatchLevel::Precise,
        (exists|j: int| 0 <= j < levels.len() && levels[j] == MatchLevel::Vendor) ==> (levels[i] == MatchLevel::Vendor
            || levels[i] == MatchLevel::Precise),
        levels[i] == MatchLevel::Generic ==> forall|j: int| 0 <= j < levels.len() ==> #[trigger] levels[j]
            == MatchLevel::Generic || levels[j] == MatchLevel::Unmatched,
        forall|j: int| 0 <= j < i ==> #[trigger] levels[j] != levels[i],
{
    if exists|j: int| 0 <= j < levels.len() && levels[j] == MatchLevel::Precise {
        let j = choose|j: int| 0 <= j < levels.len() && levels[j] == MatchLevel::Precise;
        assert(match_rank(levels[j]) <= match_rank(levels[i]));
    }
    if exists|j: int| 0 <= j < levels.len() && levels[j] == MatchLevel::Vendor {
        let j = choose|j: int| 0 <= j < levels.len() && levels[j] == MatchLevel::Vendor;
        assert(match_rank(levels[j]) <= match_rank(levels[i]));
    }
    assert forall|j: int| 0 <= j < i implies #[trigger] levels[j] != levels[i] by {
        assert(match_rank(levels[j]) < match_rank(levels[i]));
    }
    if levels[i] == MatchLevel::Generic {
        assert forall|j: int| 0 <= j < levels.len() implies #[trigger] levels[j] == MatchLevel::Generic
            || levels[j] == MatchLevel::Unmatched by {
            assert(match_rank(levels[j]) <= match_rank(levels[i]));
        }
    }
}

/// Locate the driver to use, given the match level that each registered
/// driver reports for a device: the first driver with the highest level,
/// or `None` when no driver matches at all.
pub fn find_driver(levels: &[MatchLevel]) -> (r: Option<usize>)
    ensures
        r is None <==> forall|j: int| 0 <= j < levels@.len() ==> levels@[j] == MatchLevel::Unmatched,
        r matches Some(i) ==> i < levels@.len() && levels@[i as int] != MatchLevel::Unmatched
            && (forall|j: int| 0 <= j < i ==> match_rank(levels@[j]) < match_rank(levels@[i as int]))
            && (forall|j: int| 0 <= j < levels@.len() ==> match_rank(levels@[j]) <= match_rank(
                levels@[i as int],
            )),
        r matches Some(i) ==> ((exists|j: int| 0 <= j < levels@.len() && levels@[j] == MatchLevel::Precise)
            ==> levels@[i as int] == MatchLevel::Precise),
        r matches Some(i) ==> ((exists|j: int| 0 <= j < levels@.len() && levels@[j] == MatchLevel::Vendor)
            ==> levels@[i as int] == MatchLevel::Vendor || levels@[i as int] == MatchLevel::Precise),
{
    let mut best: Option<usize> = None;
    let mut k: usize = 0;
    while k < levels.len()
        invariant
            k <= levels@.len(),
            best is None <==> forall|j: int| 0 <= j < k ==> levels@[j] == MatchLevel::Unmatched,
            best matches Some(i) ==> i < k && levels@[i as int] != MatchLevel::Unmatched
                && (forall|j: int| 0 <= j < i ==> match_rank(levels@[j]) < match_rank(levels@[i as int]))
                && (forall|j: int| 0 <= j < k ==> match_rank(levels@[j]) <= match_rank(
                    levels@[i as int],
                )),
        decreases levels@.len() - k,
    {
        let ml = levels[k];
        if ml != MatchLevel::Unmatched {
            match best {
                None => {
                    best = Some(k);
                },
                Some(b) => {
                    if levels[b].rank() < ml.rank() {
                        best = Some(k);
                    }
                },
            }
        }
        k += 1;
    }
    proof {
        if let Some(i) = best {
            lemma_chosen_driver(levels@, i as int);
        }
    }
    best
}

} // verus!
