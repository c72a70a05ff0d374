//! The selection controller: resolves one click against the current
//! selection state and position.
//!
//! The state machine starts Empty and never terminates. A click either
//! starts a selection (own piece, own turn), applies a move (member of
//! the computed move-set), re-targets the selection (own piece outside
//! the move-set), or changes nothing. A stale selection is kept on a
//! click that is neither a move nor a re-target ("sticky" selection).

use vstd::prelude::*;
use crate::piece::{PieceKind, Side};
use crate::bitset::SquareSet;
use crate::position::Position;
use crate::projection::{project, SquareType};
use crate::square::Square;

verus! {

/// The transient interaction state: nothing selected, or one selected
/// square together with its occupant and its computed move-set.
#[derive(Clone, Copy, PartialEq, Eq, Structural, Debug)]
pub enum SelectionState {
    Empty,
    Active { square: Square, kind: PieceKind, side: Side, moves: SquareSet },
}

/// One game session: the position store and the selection state.
pub struct Game {
    position: Position,
    selection: SelectionState,
}

/// `post` is `pre` with the move `from -> to` applied: the origin square
/// empty, the destination holding the origin's occupant, every other
/// square unchanged, and the side to move flipped.
pub open spec fn moved_position(pre: Position, post: Position, from: Square, to: Square) -> bool {
    &&& post.wf()
    &&& post.at(from.index()) is None
    &&& post.at(to.index()) == pre.at(from.index())
    &&& forall|i: int|
        0 <= i < 64 && i != from.index() && i != to.index() ==> (#[trigger] post.at(i)) == pre.at(
            i,
        )
    &&& post.turn() == pre.turn().opposite()
}

/// `s` is a selection freshly computed for the piece on `sq`: the clicked
/// square, its actual occupant, and exactly the move-set the position
/// yields for it.
pub open spec fn fresh_selection(pos: Position, sq: Square, s: SelectionState) -> bool {
    &&& s matches SelectionState::Active { square, kind, side, moves }
    &&& square == sq
    &&& pos.at(sq.index()) == Some((kind, side))
    &&& moves.bits() == pos.spec_moves(sq)
}

/// The click-resolution transition table: what one click on `sq` does to
/// the game, relating the state before (`pre`) to the state after
/// (`post`).
pub open spec fn click_transition(pre: Game, sq: Square, post: Game) -> bool {
    match pre.sel() {
        SelectionState::Empty => match pre.pos().at(sq.index()) {
            None => post.pos() == pre.pos() && post.sel() is Empty,
            Some(p) => if p.1 == pre.pos().turn() {
                post.pos() == pre.pos() && fresh_selection(pre.pos(), sq, post.sel())
            } else {
                post.pos() == pre.pos() && post.sel() is Empty
            },
        },
        SelectionState::Active { square, moves, .. } => if moves.has(sq.index()) {
            moved_position(pre.pos(), post.pos(), square, sq) && post.sel() is Empty
        } else {
            match pre.pos().at(sq.index()) {
                Some(p) => if p.1 == pre.pos().turn() {
                    post.pos() == pre.pos() && fresh_selection(pre.pos(), sq, post.sel())
                } else {
                    post.pos() == pre.pos() && post.sel() == pre.sel()
                },
                None => post.pos() == pre.pos() && post.sel() == pre.sel(),
            }
        },
    }
}

impl Game {
    /// The position store.
    pub closed spec fn pos(self) -> Position {
        self.position
    }

    /// The selection state.
    pub closed spec fn sel(self) -> SelectionState {
        self.selection
    }

    /// The session invariant: the position is well-formed, and an active
    /// selection names a square whose occupant matches the recorded piece
    /// and side, belongs to the side to move, and carries exactly the
    /// move-set computed for it in the current position.
    pub open spec fn inv(self) -> bool {
        &&& self.pos().wf()
        &&& (self.sel() matches SelectionState::Active { square, kind, side, moves } ==> {
            &&& square.wf()
            &&& self.pos().at(square.index()) == Some((kind, side))
            &&& side == self.pos().turn()
            &&& moves.bits() == self.pos().spec_moves(square)
        })
    }

    /// Starts a session: the initial position, White to move, nothing
    /// selected.
    pub fn new() -> (g: Game)
        ensures
            g.inv(),
            g.sel() is Empty,
            g.pos().turn() == Side::White,
            forall|i: int|
                0 <= i < 64 ==> (#[trigger] g.pos().at(i)) == Position::initial_occupant_of(i),
    {
        Game { position: Position::initial(), selection: SelectionState::Empty }
    }

    /// Starts a session from a given position, nothing selected.
    pub fn from_position(position: Position) -> (g: Game)
        requires
            position.wf(),
        ensures
            g.inv(),
            g.sel() is Empty,
            g.pos() == position,
    {
        Game { position, selection: SelectionState::Empty }
    }

    /// The occupant of a square.
    pub fn piece_at(&self, sq: Square) -> (r: Option<(PieceKind, Side)>)
        requires
            self.inv(),
            sq.wf(),
        ensures
            r == self.pos().at(sq.index()),
    {
        self.position.piece_at(sq)
    }

    /// The side whose turn it is.
    pub fn side_to_move(&self) -> (r: Side)
        ensures
            r == self.pos().turn(),
    {
        self.position.side_to_move()
    }

    /// The current selection state.
    pub fn selection(&self) -> (r: SelectionState)
        ensures
            r == self.sel(),
    {
        self.selection
    }

    /// Resolves one click event against the current state, per the
    /// transition table `click_transition`.
    pub fn click(&mut self, sq: Square)
        requires
            old(self).inv(),
            sq.wf(),
        ensures
            final(self).inv(),
            click_transition(*old(self), sq, *final(self)),
    {
        let sel = self.selection;
        match sel {
            SelectionState::Empty => {
                match self.position.piece_at(sq) {
                    Some((kind, side)) => {
                        if side == self.position.side_to_move() {
                            let moves = self.position.move_squares(sq);
                            self.selection = SelectionState::Active { square: sq, kind, side, moves };
                        }
                    },
                    None => {},
                }
            },
            SelectionState::Active { square, kind, side, moves } => {
                if moves.member(sq) {
                    proof {
                        // The clicked destination cannot be the selected
                        // square: the move-set never holds a square of the
                        // mover's own side, and the selected square does.
                        self.position.lemma_moves_no_own_capture(
                            square,
                            kind,
                            side,
                            sq.index() as u64,
                        );
                    }
                    let applied = self.position.apply_move(square, sq, &moves);
                    assert(applied);
                    self.selection = SelectionState::Empty;
                } else {
                    match self.position.piece_at(sq) {
                        Some((new_kind, new_side)) => {
                            if new_side == self.position.side_to_move() {
                                let new_moves = self.position.move_squares(sq);
                                self.selection = SelectionState::Active {
                                    square: sq,
                                    kind: new_kind,
                                    side: new_side,
                                    moves: new_moves,
                                };
                            }
                        },
                        None => {},
                    }
                }
            },
        }
    }

    /// The display projection of the current state, one category per
    /// square index.
    pub fn view_categories(&self) -> (r: Vec<SquareType>)
        requires
            self.inv(),
        ensures
            r@.len() == 64,
            forall|i: int|
                0 <= i < 64 ==> r@[i] == crate::projection::spec_category(
                    self.pos(),
                    self.sel(),
                    i,
                ),
    {
        project(&self.position, &self.selection)
    }
}

/// Clicking an empty square while nothing is selected changes nothing:
/// the position is kept and the selection stays Empty.
pub proof fn lemma_click_empty_square_no_op(pre: Game, sq: Square, post: Game)
    requires
        pre.inv(),
        sq.wf(),
        click_transition(pre, sq, post),
        pre.sel() is Empty,
        pre.pos().at(sq.index()) is None,
    ensures
        post.pos() == pre.pos(),
        post.sel() is Empty,
{
}

/// Clicking a move-set member while a piece is selected applies the move:
/// the selection empties, the selected square vacates, the clicked square
/// takes the selected piece, every other square is kept, and the side to
/// move flips.
pub proof fn lemma_click_applies_move(pre: Game, sq: Square, post: Game)
    requires
        pre.inv(),
        sq.wf(),
        click_transition(pre, sq, post),
        pre.sel() matches SelectionState::Active { moves, .. } && moves.has(sq.index()),
    ensures
        post.sel() is Empty,
        post.pos().at(pre.sel()->square.index()) is None,
        post.pos().at(sq.index()) == Some((pre.sel()->kind, pre.sel()->side)),
        forall|i: int|
            0 <= i < 64 && i != pre.sel()->square.index() && i != sq.index() ==> (#[trigger] post.pos().at(i)) == pre.pos().at(i),
        post.pos().turn() == pre.pos().turn().opposite(),
{
}

/// Re-targeting: while a piece is selected, clicking a friendly piece
/// outside the move-set replaces the selection with one freshly computed
/// for the clicked square - never a merge of the old and new move-sets.
pub proof fn lemma_click_retargets(pre: Game, sq: Square, post: Game)
    requires
        pre.inv(),
        sq.wf(),
        click_transition(pre, sq, post),
        pre.sel() matches SelectionState::Active { moves, .. } && !moves.has(sq.index()),
        pre.pos().holds_side(sq.index(), pre.pos().turn()),
    ensures
        post.pos() == pre.pos(),
        fresh_selection(pre.pos(), sq, post.sel()),
{
}

/// Clicking the already-selected square re-targets the selection to
/// itself: the selected square is never in its own move-set (it holds the
/// mover's piece), so the click recomputes the same selection, a no-op.
pub proof fn lemma_reclick_selected_is_idempotent(pre: Game, post: Game)
    requires
        pre.inv(),
        pre.sel() matches SelectionState::Active { square, .. } && square.wf(),
        click_transition(pre, pre.sel()->square, post),
    ensures
        post.pos() == pre.pos(),
        post.sel() == pre.sel(),
{
    let square = pre.sel()->square;
    let kind = pre.sel()->kind;
    let side = pre.sel()->side;
    let moves = pre.sel()->moves;
    if moves.has(square.index()) {
        pre.pos().lemma_moves_no_own_capture(square, kind, side, square.index() as u64);
    }
    assert(!moves.has(square.index()));
    assert(fresh_selection(pre.pos(), square, post.sel()));
    crate::bitset::lemma_squareset_eq(post.sel()->moves, moves);
}

/// The side to move alternates only as the result of an applied move:
/// whenever a click changes the turn, a selected piece just moved to the
/// clicked square and the selection emptied.
pub proof fn lemma_turn_flips_only_on_move(pre: Game, sq: Square, post: Game)
    requires
        pre.inv(),
        sq.wf(),
        click_transition(pre, sq, post),
        post.pos().turn() != pre.pos().turn(),
    ensures
        pre.sel() matches SelectionState::Active { square, moves, .. } && moves.has(sq.index())
            && moved_position(pre.pos(), post.pos(), square, sq),
        post.sel() is Empty,
{
}

/// Turn gating: while nothing is selected, clicking a piece of the side
/// not on move never starts a selection.
pub proof fn lemma_click_wrong_side_ignored(pre: Game, sq: Square, post: Game)
    requires
        pre.inv(),
        sq.wf(),
        click_transition(pre, sq, post),
        pre.sel() is Empty,
        pre.pos().holds_side(sq.index(), pre.pos().turn().opposite()),
    ensures
        post.pos() == pre.pos(),
        post.sel() is Empty,
{
    assert(pre.pos().turn().opposite() != pre.pos().turn());
}

} // verus!
