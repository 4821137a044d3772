use vstd::prelude::*;

verus! {

/// A point in the remote chain's history: a two-part counter ordered
/// lexicographically by `(revision_number, revision_height)`. The revision
/// number changes only on a chain-id-changing upgrade.
#[derive(Clone, Copy, PartialEq, Eq, Structural, Debug, Hash)]
pub struct Height {
    pub revision_number: u64,
    pub revision_height: u64,
}

/// Strict lexicographic order on heights.
pub open spec fn height_lt(a: Height, b: Height) -> bool {
    a.revision_number < b.revision_number || (a.revision_number == b.revision_number
        && a.revision_height < b.revision_height)
}

pub open spec fn height_lte(a: Height, b: Height) -> bool {
    height_lt(a, b) || a == b
}

/// The lesser of two heights.
pub open spec fn min_height(a: Height, b: Height) -> Height {
    if height_lt(b, a) {
        b
    } else {
        a
    }
}

impl Height {
    pub fn new(revision_number: u64, revision_height: u64) -> (r: Height)
        ensures
            r == (Height { revision_number, revision_height }),
    {
        Height { revision_number, revision_height }
    }

    pub fn lt(&self, other: &Height) -> (r: bool)
        ensures
            r == height_lt(*self, *other),
    {
        self.revision_number < other.revision_number || (self.revision_number
            == other.revision_number && self.revision_height < other.revision_height)
    }

    pub fn lte(&self, other: &Height) -> (r: bool)
        ensures
            r == height_lte(*self, *other),
    {
        self.lt(other) || (self.revision_number == other.revision_number && self.revision_height
            == other.revision_height)
    }
}

/// The order on heights is total: trichotomy, transitivity and antisymmetry.
pub proof fn lemma_height_order_total(a: Height, b: Height, c: Height)
    ensures
        height_lt(a, b) || height_lt(b, a) || a == b,
        height_lte(a, b) && height_lte(b, c) ==> height_lte(a, c),
        height_lte(a, b) && height_lte(b, a) ==> a == b,
{
}

} // verus!
