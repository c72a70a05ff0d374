//! The display projection: the per-square visual category handed to the
//! presentation layer, recomputed after every transition.

use vstd::prelude::*;
use crate::controller::SelectionState;
use crate::position::Position;
use crate::square::Square;

verus! {

/// The visual category of one square: it holds a piece, it is a
/// highlighted move destination, or neither.
#[derive(Clone, Copy, PartialEq, Eq, Structural, Debug)]
pub enum SquareType {
    Piece,
    Moveable,
    Plain,
}

/// The category of square `i`: occupied squares show their piece; empty
/// members of an active selection's move-set are highlighted; everything
/// else is plain.
pub open spec fn spec_category(pos: Position, sel: SelectionState, i: int) -> SquareType {
    if pos.at(i) is Some {
        SquareType::Piece
    } else if sel matches SelectionState::Active { moves, .. } && moves.has(i) {
        SquareType::Moveable
    } else {
        SquareType::Plain
    }
}

/// Computes the display projection: one category per square index.
pub fn project(pos: &Position, sel: &SelectionState) -> (r: Vec<SquareType>)
    requires
        pos.wf(),
    ensures
        r@.len() == 64,
        forall|i: int| 0 <= i < 64 ==> r@[i] == spec_category(*pos, *sel, i),
{
    let mut r: Vec<SquareType> = Vec::new();
    let mut i: usize = 0;
    while i < 64
        invariant
            pos.wf(),
            i <= 64,
            r@.len() == i as int,
            forall|j: int| 0 <= j < i ==> r@[j] == spec_category(*pos, *sel, j),
        decreases 64 - i,
    {
        let sq = Square::from_index(i as u8);
        let category = if pos.piece_at(sq).is_some() {
            SquareType::Piece
        } else {
            let highlighted = match sel {
                SelectionState::Active { moves, .. } => moves.member(sq),
                SelectionState::Empty => false,
            };
            if highlighted {
                SquareType::Moveable
            } else {
                SquareType::Plain
            }
        };
        r.push(category);
        i = i + 1;
    }
    r
}

} // verus!
