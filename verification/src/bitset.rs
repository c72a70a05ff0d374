//! Move-sets as 64-bit square sets: one bit per square index.

use vstd::prelude::*;
use crate::square::Square;

verus! {

/// Whether bit `i` of the mask `b` is set: the spec-level reading of a
/// square mask.
pub open spec fn bit64(b: u64, i: u64) -> bool {
    i < 64 && (b >> i) & 1u64 == 1u64
}

/// A set of squares, one bit per square index. This is the move-set
/// representation: membership of square `i` is bit `i` of the mask.
#[derive(Clone, Copy, PartialEq, Eq, Structural, Debug)]
pub struct SquareSet {
    mask: u64,
}

impl SquareSet {
    /// The raw 64-bit mask.
    pub closed spec fn bits(self) -> u64 {
        self.mask
    }

    /// Whether the square with dense index `i` is a member.
    pub open spec fn has(self, i: int) -> bool {
        0 <= i < 64 && bit64(self.bits(), i as u64)
    }

    /// The set with no squares.
    pub fn empty() -> (r: SquareSet)
        ensures
            r.bits() == 0u64,
    {
        SquareSet { mask: 0 }
    }

    /// The set whose members are the bits of `m`.
    pub fn from_mask(m: u64) -> (r: SquareSet)
        ensures
            r.bits() == m,
    {
        SquareSet { mask: m }
    }

    /// The raw mask of this set.
    pub fn to_mask(self) -> (r: u64)
        ensures
            r == self.bits(),
    {
        self.mask
    }

    /// Membership test for a square.
    pub fn member(self, sq: Square) -> (b: bool)
        requires
            sq.wf(),
        ensures
            b == self.has(sq.index()),
    {
        let i = sq.to_index();
        ((self.mask >> (i as u64)) & 1u64) == 1u64
    }
}

/// Two square sets with the same mask are the same set.
pub proof fn lemma_squareset_eq(a: SquareSet, b: SquareSet)
    requires
        a.bits() == b.bits(),
    ensures
        a == b,
{
}

/// Bit membership distributes over union of masks.
pub proof fn lemma_bit64_or(a: u64, b: u64, i: u64)
    ensures
        bit64(a | b, i) == (bit64(a, i) || bit64(b, i)),
{
    assert((((a | b) >> i) & 1u64 == 1u64) == (((a >> i) & 1u64 == 1u64) || ((b >> i) & 1u64
        == 1u64))) by (bit_vector);
}

/// Bit membership distributes over intersection of masks.
pub proof fn lemma_bit64_and(a: u64, b: u64, i: u64)
    ensures
        bit64(a & b, i) == (bit64(a, i) && bit64(b, i)),
{
    assert((((a & b) >> i) & 1u64 == 1u64) == (((a >> i) & 1u64 == 1u64) && ((b >> i) & 1u64
        == 1u64))) by (bit_vector);
}

/// Bit membership under mask difference `a & !b`.
pub proof fn lemma_bit64_diff(a: u64, b: u64, i: u64)
    ensures
        bit64(a & !b, i) == (bit64(a, i) && !bit64(b, i)),
{
    assert(i < 64 ==> ((((a & !b) >> i) & 1u64 == 1u64) == (((a >> i) & 1u64 == 1u64) && !((b
        >> i) & 1u64 == 1u64)))) by (bit_vector);
}

/// The zero mask has no member.
pub proof fn lemma_bit64_zero(i: u64)
    ensures
        !bit64(0u64, i),
{
    assert((0u64 >> i) & 1u64 == 0u64) by (bit_vector);
}

/// A single-bit mask has exactly the one member.
pub proof fn lemma_bit64_single(j: u64, i: u64)
    requires
        j < 64,
    ensures
        bit64(1u64 << j, i) == (i == j),
{
    assert(j < 64 ==> ((((1u64 << j) >> i) & 1u64 == 1u64) == (i == j && i < 64))) by (bit_vector);
}

} // verus!
