//! Principals: opaque identifiers ordered by their bytes.
use vstd::prelude::*;
use crate::bytes::{append_bytes, compare_bytes, lex_le};

verus! {

/// An identifier of a sender, a canister or a subnet, held as its raw bytes.
pub struct Principal {
    pub bytes: Vec<u8>,
}

impl View for Principal {
    type V = Seq<u8>;

    open spec fn view(&self) -> Seq<u8> {
        self.bytes@
    }
}

impl Principal {
    /// The principal with the given raw bytes.
    pub fn from_slice(b: &[u8]) -> (r: Principal)
        ensures
            r@ == b@,
    {
        let mut bytes: Vec<u8> = Vec::new();
        append_bytes(&mut bytes, b);
        assert(bytes@ =~= b@);
        Principal { bytes }
    }

    /// The principal of unauthenticated callers: the single byte 4.
    pub fn anonymous() -> (r: Principal)
        ensures
            r@ == seq![4u8],
    {
        let b = vec![4u8];
        assert(b@ =~= seq![4u8]);
        Principal { bytes: b }
    }

    /// The raw bytes.
    pub fn as_slice(&self) -> (r: &[u8])
        ensures
            r@ == self@,
    {
        self.bytes.as_slice()
    }

    /// A copy of this principal.
    pub fn copy(&self) -> (r: Principal)
        ensures
            r@ == self@,
    {
        Principal { bytes: self.bytes.clone() }
    }
}

/// `p` lies within one of the `(low, high)` ranges, both bounds included.
pub open spec fn within_ranges(p: Seq<u8>, ranges: Seq<(Seq<u8>, Seq<u8>)>) -> bool {
    exists|i: int| 0 <= i < ranges.len() && lex_le(#[trigger] ranges[i].0, p) && lex_le(p, ranges[i].1)
}

/// Both bounds of a range are included, and no principal lies within an
/// empty list of ranges.
pub proof fn lemma_range_bounds_inclusive(p: Seq<u8>)
    ensures
        within_ranges(p, seq![(p, p)]),
        !within_ranges(p, Seq::empty()),
{
    crate::bytes::lemma_lex_cmp_zero(p, p);
    assert(lex_le(seq![(p, p)][0].0, p) && lex_le(p, seq![(p, p)][0].1));
}

/// The ranges as pairs of byte strings.
pub open spec fn range_views(ranges: Seq<(Principal, Principal)>) -> Seq<(Seq<u8>, Seq<u8>)> {
    ranges.map_values(|r: (Principal, Principal)| (r.0@, r.1@))
}

/// Whether `principal` lies within one of the `(low, high)` ranges, both
/// bounds included, in the byte-lexicographic order.
pub fn principal_is_within_ranges(principal: &Principal, ranges: &[(Principal, Principal)]) -> (r: bool)
    ensures
        r == within_ranges(principal@, range_views(ranges@)),
{
    let mut i: usize = 0;
    while i < ranges.len()
        invariant
            i <= ranges@.len(),
            forall|j: int| 0 <= j < i ==> !(lex_le(#[trigger] ranges@[j].0@, principal@) && lex_le(principal@, ranges@[j].1@)),
        decreases ranges.len() - i,
    {
        let lo = compare_bytes(ranges[i].0.as_slice(), principal.as_slice());
        let hi = compare_bytes(principal.as_slice(), ranges[i].1.as_slice());
        if lo <= 0 && hi <= 0 {
            let ghost rv = range_views(ranges@);
            assert(rv[i as int] == (ranges@[i as int].0@, ranges@[i as int].1@));
            assert(lex_le(rv[i as int].0, principal@) && lex_le(principal@, rv[i as int].1));
            return true;
        }
        i = i + 1;
    }
    assert forall|j: int| 0 <= j < range_views(ranges@).len() implies !(lex_le(#[trigger] range_views(ranges@)[j].0, principal@) && lex_le(principal@, range_views(ranges@)[j].1)) by {
        assert(range_views(ranges@)[j] == (ranges@[j].0@, ranges@[j].1@));
    }
    false
}

} // verus!
