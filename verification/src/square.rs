//! Board squares: 64 identifiers that round-trip to a dense index 0..64.

use vstd::prelude::*;

verus! {

/// One of the 64 board squares. File (column) and rank (row) are packed
/// into the dense index `rank * 8 + file`, the usual little-endian
/// rank-file numbering (a1 is 0, b1 is 1, ..., h8 is 63). Squares are
/// totally ordered by that index.
#[derive(Clone, Copy, PartialEq, Eq, Structural, PartialOrd, Ord, Debug)]
pub struct Square {
    idx: u8,
}

impl Square {
    /// Valid squares carry an index below 64.
    pub open spec fn wf(self) -> bool {
        self.spec_idx() < 64
    }

    /// The raw dense index.
    pub closed spec fn spec_idx(self) -> u8 {
        self.idx
    }

    /// The dense index as a mathematical integer.
    pub open spec fn index(self) -> int {
        self.spec_idx() as int
    }

    /// The file (column), 0 through 7.
    pub open spec fn spec_file(self) -> int {
        self.index() % 8
    }

    /// The rank (row), 0 through 7.
    pub open spec fn spec_rank(self) -> int {
        self.index() / 8
    }

    /// Builds the square with dense index `i`.
    pub fn from_index(i: u8) -> (r: Square)
        requires
            i < 64,
        ensures
            r.wf(),
            r.index() == i as int,
    {
        Square { idx: i }
    }

    /// The dense index of this square.
    pub fn to_index(self) -> (r: u8)
        requires
            self.wf(),
        ensures
            r < 64,
            r as int == self.index(),
    {
        self.idx
    }

    /// Builds the square on the given file and rank.
    pub fn from_coords(file: u8, rank: u8) -> (r: Square)
        requires
            file < 8,
            rank < 8,
        ensures
            r.wf(),
            r.index() == rank * 8 + file,
            r.spec_file() == file as int,
            r.spec_rank() == rank as int,
    {
        Square { idx: rank * 8 + file }
    }

    /// The file (column) of this square.
    pub fn file(self) -> (r: u8)
        requires
            self.wf(),
        ensures
            r as int == self.spec_file(),
    {
        self.idx % 8
    }

    /// The rank (row) of this square.
    pub fn rank(self) -> (r: u8)
        requires
            self.wf(),
        ensures
            r as int == self.spec_rank(),
    {
        self.idx / 8
    }
}

/// The dense index identifies a square: two valid squares with one index
/// are the same square, so indices round-trip.
pub proof fn lemma_square_index_injective(a: Square, b: Square)
    requires
        a.wf(),
        b.wf(),
        a.index() == b.index(),
    ensures
        a == b,
{
}

} // verus!
