//! The position store: the authoritative board occupancy and side to move.
//!
//! A position maps each of the 64 squares to an optional `(kind, side)`
//! occupant and carries the side to move. It mutates only through
//! `apply_move`, which also flips the side to move; nothing else does.

use vstd::prelude::*;
use crate::bitset::{
    bit64, lemma_bit64_and, lemma_bit64_diff, lemma_bit64_or, lemma_bit64_single,
    lemma_bit64_zero, SquareSet,
};
use crate::piece::{PieceKind, Side};
use crate::rules;
use crate::square::Square;

verus! {

/// The board position.
pub struct Position {
    occupants: Vec<Option<(PieceKind, Side)>>,
    turn: Side,
}

impl Position {
    /// Well-formed positions hold exactly 64 squares.
    pub closed spec fn wf(self) -> bool {
        self.occupants@.len() == 64
    }

    /// The occupant of the square with dense index `i`.
    pub closed spec fn at(self, i: int) -> Option<(PieceKind, Side)>
        recommends
            0 <= i < 64,
    {
        self.occupants@[i]
    }

    /// The side to move.
    pub closed spec fn turn(self) -> Side {
        self.turn
    }

    /// Whether square `i` holds a piece of side `s`.
    pub open spec fn holds_side(self, i: int, s: Side) -> bool {
        match self.at(i) {
            Some(p) => p.1 == s,
            None => false,
        }
    }

    /// The occupancy mask of the squares with index below `n`.
    pub open spec fn occ_mask_upto(self, n: int) -> u64
        recommends
            0 <= n <= 64,
        decreases n,
    {
        if n <= 0 {
            0u64
        } else {
            self.occ_mask_upto(n - 1) | (if self.at(n - 1) is Some {
                1u64 << ((n - 1) as u64)
            } else {
                0u64
            })
        }
    }

    /// All occupied squares, as a mask.
    pub open spec fn occ_mask(self) -> u64 {
        self.occ_mask_upto(64)
    }

    /// The mask of squares with index below `n` held by side `s`.
    pub open spec fn side_mask_upto(self, s: Side, n: int) -> u64
        recommends
            0 <= n <= 64,
        decreases n,
    {
        if n <= 0 {
            0u64
        } else {
            self.side_mask_upto(s, n - 1) | (if self.holds_side(n - 1, s) {
                1u64 << ((n - 1) as u64)
            } else {
                0u64
            })
        }
    }

    /// All squares held by side `s`, as a mask.
    pub open spec fn side_mask(self, s: Side) -> u64 {
        self.side_mask_upto(s, 64)
    }

    /// Bit `i` of the occupancy mask says whether square `i` is occupied.
    pub proof fn lemma_occ_mask_upto_bit(self, n: int, i: u64)
        requires
            0 <= n <= 64,
            i < 64,
        ensures
            bit64(self.occ_mask_upto(n), i) == ((i as int) < n && self.at(i as int) is Some),
        decreases n,
    {
        if n <= 0 {
            lemma_bit64_zero(i);
        } else {
            self.lemma_occ_mask_upto_bit(n - 1, i);
            let prev = self.occ_mask_upto(n - 1);
            let j = (n - 1) as u64;
            if self.at(n - 1) is Some {
                lemma_bit64_or(prev, 1u64 << j, i);
                lemma_bit64_single(j, i);
            } else {
                lemma_bit64_or(prev, 0u64, i);
                lemma_bit64_zero(i);
            }
        }
    }

    /// Bit `i` of the occupancy mask, over the whole board.
    pub proof fn lemma_occ_mask_bit(self, i: u64)
        requires
            i < 64,
        ensures
            bit64(self.occ_mask(), i) == (self.at(i as int) is Some),
    {
        self.lemma_occ_mask_upto_bit(64, i);
    }

    /// Bit `i` of a side's mask says whether square `i` holds that side.
    pub proof fn lemma_side_mask_upto_bit(self, s: Side, n: int, i: u64)
        requires
            0 <= n <= 64,
            i < 64,
        ensures
            bit64(self.side_mask_upto(s, n), i) == ((i as int) < n && self.holds_side(
                i as int,
                s,
            )),
        decreases n,
    {
        if n <= 0 {
            lemma_bit64_zero(i);
        } else {
            self.lemma_side_mask_upto_bit(s, n - 1, i);
            let prev = self.side_mask_upto(s, n - 1);
            let j = (n - 1) as u64;
            if self.holds_side(n - 1, s) {
                lemma_bit64_or(prev, 1u64 << j, i);
                lemma_bit64_single(j, i);
            } else {
                lemma_bit64_or(prev, 0u64, i);
                lemma_bit64_zero(i);
            }
        }
    }

    /// Bit `i` of a side's mask, over the whole board.
    pub proof fn lemma_side_mask_bit(self, s: Side, i: u64)
        requires
            i < 64,
        ensures
            bit64(self.side_mask(s), i) == self.holds_side(i as int, s),
    {
        self.lemma_side_mask_upto_bit(s, 64, i);
    }

    /// The occupant of a square.
    pub fn piece_at(&self, sq: Square) -> (r: Option<(PieceKind, Side)>)
        requires
            self.wf(),
            sq.wf(),
        ensures
            r == self.at(sq.index()),
    {
        self.occupants[sq.to_index() as usize]
    }

    /// The side whose turn it is.
    pub fn side_to_move(&self) -> (r: Side)
        ensures
            r == self.turn(),
    {
        self.turn
    }

    /// The mask of all occupied squares.
    pub fn combined(&self) -> (r: u64)
        requires
            self.wf(),
        ensures
            r == self.occ_mask(),
    {
        let mut m: u64 = 0;
        let mut i: usize = 0;
        while i < 64
            invariant
                self.wf(),
                i <= 64,
                m == self.occ_mask_upto(i as int),
            decreases 64 - i,
        {
            if self.occupants[i].is_some() {
                m = m | (1u64 << (i as u64));
            } else {
                proof {
                    assert(m | 0u64 == m) by (bit_vector);
                }
            }
            i = i + 1;
        }
        m
    }

    /// The mask of all squares held by side `s`.
    pub fn color_combined(&self, s: Side) -> (r: u64)
        requires
            self.wf(),
        ensures
            r == self.side_mask(s),
    {
        let mut m: u64 = 0;
        let mut i: usize = 0;
        while i < 64
            invariant
                self.wf(),
                i <= 64,
                m == self.side_mask_upto(s, i as int),
            decreases 64 - i,
        {
            let held = match self.occupants[i] {
                Some(p) => p.1 == s,
                None => false,
            };
            if held {
                m = m | (1u64 << (i as u64));
            } else {
                proof {
                    assert(m | 0u64 == m) by (bit_vector);
                }
            }
            i = i + 1;
        }
        m
    }

    /// The pseudo-legal destination mask for a piece of `kind` and `side`
    /// standing on `sq` in this position: the rules engine's reachability
    /// for the kind, less the mover's own pieces. The pawn's mask is the
    /// forward pushes joined with the enemy-occupied diagonal captures;
    /// the push component is written here with the generator's own
    /// guarantees (it never meets an occupant nor the capture geometry),
    /// so those facts hold of the model by definition.
    pub open spec fn kind_moves(self, sq: Square, kind: PieceKind, side: Side) -> u64 {
        let occ = self.occ_mask();
        let own = self.side_mask(side);
        let foes = self.side_mask(side.opposite());
        match kind {
            PieceKind::Pawn => (rules::pawn_quiets_of(sq.spec_idx(), side, occ) & !occ
                & !rules::pawn_attack_geom(sq.spec_idx(), side)) | (rules::pawn_attack_geom(
                sq.spec_idx(),
                side,
            ) & foes),
            PieceKind::Knight => rules::knight_moves_of(sq.spec_idx()) & !own,
            PieceKind::Bishop => rules::bishop_moves_of(sq.spec_idx(), occ) & !own,
            PieceKind::Rook => rules::rook_moves_of(sq.spec_idx(), occ) & !own,
            PieceKind::Queen => (rules::rook_moves_of(sq.spec_idx(), occ)
                | rules::bishop_moves_of(sq.spec_idx(), occ)) & !own,
            PieceKind::King => rules::king_moves_of(sq.spec_idx()) & !own,
        }
    }

    /// The destination mask for the piece standing on `sq`.
    pub open spec fn spec_moves(self, sq: Square) -> u64
        recommends
            self.wf(),
            sq.wf(),
            self.at(sq.index()) is Some,
    {
        self.kind_moves(sq, self.at(sq.index()).unwrap().0, self.at(sq.index()).unwrap().1)
    }

    /// Computes the move-set of the piece standing on `sq`.
    pub fn move_squares(&self, sq: Square) -> (r: SquareSet)
        requires
            self.wf(),
            sq.wf(),
            self.at(sq.index()) is Some,
        ensures
            r.bits() == self.spec_moves(sq),
    {
        let idx = sq.to_index();
        let (kind, side) = self.occupants[idx as usize].unwrap();
        let occ = self.combined();
        let mask: u64 = match kind {
            PieceKind::Pawn => {
                let foes = self.color_combined(side.flip());
                let q = rules::pawn_quiets(idx, side, occ);
                let a = rules::pawn_attacks(idx, side, foes);
                proof {
                    let g: u64 = rules::pawn_attack_geom(idx, side);
                    assert((q & !occ) & !g == q) by (bit_vector)
                        requires
                            q & occ == 0u64,
                            q & g == 0u64,
                    ;
                }
                q | a
            },
            PieceKind::Knight => {
                let own = self.color_combined(side);
                rules::knight_moves(idx) & !own
            },
            PieceKind::Bishop => {
                let own = self.color_combined(side);
                rules::bishop_moves(idx, occ) & !own
            },
            PieceKind::Rook => {
                let own = self.color_combined(side);
                rules::rook_moves(idx, occ) & !own
            },
            PieceKind::Queen => {
                let own = self.color_combined(side);
                (rules::rook_moves(idx, occ) | rules::bishop_moves(idx, occ)) & !own
            },
            PieceKind::King => {
                let own = self.color_combined(side);
                rules::king_moves(idx) & !own
            },
        };
        SquareSet::from_mask(mask)
    }

    /// Applies the move `from -> to` when `to` lies in the supplied
    /// move-set and `from` is occupied; otherwise leaves the position
    /// unchanged. On success the origin is vacated, the destination holds
    /// the moved piece, every other square keeps its occupant, and the
    /// side to move flips; it flips on no other path.
    pub fn apply_move(&mut self, from: Square, to: Square, moves: &SquareSet) -> (applied: bool)
        requires
            old(self).wf(),
            from.wf(),
            to.wf(),
        ensures
            final(self).wf(),
            applied == (moves.has(to.index()) && old(self).at(from.index()) is Some
                && from.index() != to.index()),
            applied ==> {
                &&& final(self).at(from.index()) is None
                &&& final(self).at(to.index()) == old(self).at(from.index())
                &&& forall|i: int|
                    0 <= i < 64 && i != from.index() && i != to.index()
                        ==> (#[trigger] final(self).at(i)) == old(self).at(i)
                &&& final(self).turn() == old(self).turn().opposite()
            },
            !applied ==> *final(self) == *old(self),
    {
        let from_idx = from.to_index() as usize;
        let to_idx = to.to_index() as usize;
        let p = self.occupants[from_idx];
        if moves.member(to) && p.is_some() && from_idx != to_idx {
            self.occupants.set(to_idx, p);
            self.occupants.set(from_idx, None);
            self.turn = self.turn.flip();
            true
        } else {
            false
        }
    }

    /// The game's initial arrangement, square by square.
    pub open spec fn initial_occupant_of(i: int) -> Option<(PieceKind, Side)> {
        if i == 0 || i == 7 {
            Some((PieceKind::Rook, Side::White))
        } else if i == 1 || i == 6 {
            Some((PieceKind::Knight, Side::White))
        } else if i == 2 || i == 5 {
            Some((PieceKind::Bishop, Side::White))
        } else if i == 3 {
            Some((PieceKind::Queen, Side::White))
        } else if i == 4 {
            Some((PieceKind::King, Side::White))
        } else if 8 <= i < 16 {
            Some((PieceKind::Pawn, Side::White))
        } else if 48 <= i < 56 {
            Some((PieceKind::Pawn, Side::Black))
        } else if i == 56 || i == 63 {
            Some((PieceKind::Rook, Side::Black))
        } else if i == 57 || i == 62 {
            Some((PieceKind::Knight, Side::Black))
        } else if i == 58 || i == 61 {
            Some((PieceKind::Bishop, Side::Black))
        } else if i == 59 {
            Some((PieceKind::Queen, Side::Black))
        } else if i == 60 {
            Some((PieceKind::King, Side::Black))
        } else {
            None
        }
    }

    /// Builds the game's initial position, White to move.
    pub fn initial() -> (p: Position)
        ensures
            p.wf(),
            p.turn() == Side::White,
            forall|i: int| 0 <= i < 64 ==> (#[trigger] p.at(i)) == Position::initial_occupant_of(i),
    {
        let mut occupants: Vec<Option<(PieceKind, Side)>> = Vec::new();
        let mut i: usize = 0;
        while i < 64
            invariant
                i <= 64,
                occupants@.len() == i as int,
                forall|j: int| 0 <= j < i ==> occupants@[j] == Position::initial_occupant_of(j),
            decreases 64 - i,
        {
            occupants.push(initial_occupant(i as u8));
            i = i + 1;
        }
        Position { occupants, turn: Side::White }
    }

    /// Builds a position from a full arrangement and a side to move.
    pub fn from_arrangement(occupants: Vec<Option<(PieceKind, Side)>>, turn: Side) -> (p: Position)
        requires
            occupants@.len() == 64,
        ensures
            p.wf(),
            p.turn() == turn,
            forall|i: int| 0 <= i < 64 ==> (#[trigger] p.at(i)) == occupants@[i],
    {
        Position { occupants, turn }
    }

    /// The queen's move-set is the union of the rook's and the bishop's
    /// move-sets from the same square, whatever the occupancy.
    pub proof fn lemma_queen_moves_union(self, sq: Square, side: Side)
        ensures
            self.kind_moves(sq, PieceKind::Queen, side) == self.kind_moves(
                sq,
                PieceKind::Rook,
                side,
            ) | self.kind_moves(sq, PieceKind::Bishop, side),
    {
        let r: u64 = rules::rook_moves_of(sq.spec_idx(), self.occ_mask());
        let b: u64 = rules::bishop_moves_of(sq.spec_idx(), self.occ_mask());
        let own: u64 = self.side_mask(side);
        assert((r | b) & !own == (r & !own) | (b & !own)) by (bit_vector);
    }

    /// No move-set ever holds a square occupied by the mover's own side.
    pub proof fn lemma_moves_no_own_capture(self, sq: Square, kind: PieceKind, side: Side, i: u64)
        requires
            i < 64,
            bit64(self.kind_moves(sq, kind, side), i),
        ensures
            !self.holds_side(i as int, side),
    {
        let occ = self.occ_mask();
        let own = self.side_mask(side);
        let foes = self.side_mask(side.opposite());
        self.lemma_side_mask_bit(side, i);
        match kind {
            PieceKind::Pawn => {
                let q: u64 = rules::pawn_quiets_of(sq.spec_idx(), side, occ);
                let g: u64 = rules::pawn_attack_geom(sq.spec_idx(), side);
                lemma_bit64_or(q & !occ & !g, g & foes, i);
                if bit64(q & !occ & !g, i) {
                    lemma_bit64_diff(q & !occ, g, i);
                    lemma_bit64_diff(q, occ, i);
                    self.lemma_occ_mask_bit(i);
                } else {
                    lemma_bit64_and(g, foes, i);
                    self.lemma_side_mask_bit(side.opposite(), i);
                }
            },
            PieceKind::Knight => {
                lemma_bit64_diff(rules::knight_moves_of(sq.spec_idx()), own, i);
            },
            PieceKind::Bishop => {
                lemma_bit64_diff(rules::bishop_moves_of(sq.spec_idx(), occ), own, i);
            },
            PieceKind::Rook => {
                lemma_bit64_diff(rules::rook_moves_of(sq.spec_idx(), occ), own, i);
            },
            PieceKind::Queen => {
                lemma_bit64_diff(
                    rules::rook_moves_of(sq.spec_idx(), occ) | rules::bishop_moves_of(
                        sq.spec_idx(),
                        occ,
                    ),
                    own,
                    i,
                );
            },
            PieceKind::King => {
                lemma_bit64_diff(rules::king_moves_of(sq.spec_idx()), own, i);
            },
        }
    }

    /// A pawn's move-set holds a diagonal-capture square exactly when the
    /// opposing side occupies it: captures only onto enemies, and never a
    /// diagonal step onto an empty square.
    pub proof fn lemma_pawn_diagonal_capture(self, sq: Square, side: Side, i: u64)
        requires
            i < 64,
            bit64(rules::pawn_attack_geom(sq.spec_idx(), side), i),
        ensures
            bit64(self.kind_moves(sq, PieceKind::Pawn, side), i) == self.holds_side(
                i as int,
                side.opposite(),
            ),
    {
        let occ = self.occ_mask();
        let foes = self.side_mask(side.opposite());
        let q: u64 = rules::pawn_quiets_of(sq.spec_idx(), side, occ);
        let g: u64 = rules::pawn_attack_geom(sq.spec_idx(), side);
        lemma_bit64_or(q & !occ & !g, g & foes, i);
        lemma_bit64_diff(q & !occ, g, i);
        lemma_bit64_and(g, foes, i);
        self.lemma_side_mask_bit(side.opposite(), i);
    }
}

/// The initial occupant of square `i`, as executable code.
fn initial_occupant(i: u8) -> (r: Option<(PieceKind, Side)>)
    requires
        i < 64,
    ensures
        r == Position::initial_occupant_of(i as int),
{
    if i == 0 || i == 7 {
        Some((PieceKind::Rook, Side::White))
    } else if i == 1 || i == 6 {
        Some((PieceKind::Knight, Side::White))
    } else if i == 2 || i == 5 {
        Some((PieceKind::Bishop, Side::White))
    } else if i == 3 {
        Some((PieceKind::Queen, Side::White))
    } else if i == 4 {
        Some((PieceKind::King, Side::White))
    } else if 8 <= i && i < 16 {
        Some((PieceKind::Pawn, Side::White))
    } else if 48 <= i && i < 56 {
        Some((PieceKind::Pawn, Side::Black))
    } else if i == 56 || i == 63 {
        Some((PieceKind::Rook, Side::Black))
    } else if i == 57 || i == 62 {
        Some((PieceKind::Knight, Side::Black))
    } else if i == 58 || i == 61 {
        Some((PieceKind::Bishop, Side::Black))
    } else if i == 59 {
        Some((PieceKind::Queen, Side::Black))
    } else if i == 60 {
        Some((PieceKind::King, Side::Black))
    } else {
        None
    }
}

} // verus!
