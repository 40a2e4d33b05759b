use vstd::prelude::*;

verus! {

/// The two external catalogue identifiers under which one media item is known.
/// Either of them may be absent.
#[derive(Clone, Copy, Debug)]
pub struct MediaIdentifiers {
    pub primary_id: Option<i32>,
    pub secondary_id: Option<i32>,
}

impl MediaIdentifiers {
    /// Two identifier pairs name the same media item when they share a present
    /// primary id or a present secondary id.
    pub open spec fn spec_matches(self, other: MediaIdentifiers) -> bool {
        ||| (self.primary_id is Some && self.primary_id == other.primary_id)
        ||| (self.secondary_id is Some && self.secondary_id == other.secondary_id)
    }

    /// At least one of the two identifiers is present.
    pub open spec fn spec_is_present(self) -> bool {
        self.primary_id is Some || self.secondary_id is Some
    }

    pub fn new(primary_id: Option<i32>, secondary_id: Option<i32>) -> (ids: MediaIdentifiers)
        ensures
            ids.primary_id == primary_id,
            ids.secondary_id == secondary_id,
    {
        MediaIdentifiers { primary_id, secondary_id }
    }

    pub fn is_present(&self) -> (present: bool)
        ensures
            present == self.spec_is_present(),
    {
        self.primary_id.is_some() || self.secondary_id.is_some()
    }
}

/// Decides whether two identifier pairs name the same media item.
pub fn matches(a: MediaIdentifiers, b: MediaIdentifiers) -> (same: bool)
    ensures
        same == a.spec_matches(b),
{
    let by_primary = match (a.primary_id, b.primary_id) {
        (Some(x), Some(y)) => x == y,
        _ => false,
    };
    let by_secondary = match (a.secondary_id, b.secondary_id) {
        (Some(x), Some(y)) => x == y,
        _ => false,
    };
    by_primary || by_secondary
}

/// Matching does not depend on the order of its arguments.
pub proof fn lemma_matches_commutative(a: MediaIdentifiers, b: MediaIdentifiers)
    ensures
        a.spec_matches(b) == b.spec_matches(a),
{
}

/// A pair with both identifiers absent matches nothing, not even itself.
pub proof fn lemma_absent_never_matches(a: MediaIdentifiers, b: MediaIdentifiers)
    requires
        !a.spec_is_present(),
    ensures
        !a.spec_matches(b),
        !b.spec_matches(a),
{
}

/// A pair with an identifier present matches itself.
pub proof fn lemma_present_matches_itself(a: MediaIdentifiers)
    ensures
        a.spec_matches(a) == a.spec_is_present(),
{
}

} // verus!
