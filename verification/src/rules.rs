//! Trusted boundary to the rules engine.
//!
//! Pseudo-legal reachability is delegated to the `chess` crate. Each
//! generator is a pure function of its arguments (square, side, blocker
//! mask), so its result is given a name here, and a thin wrapper per
//! generator carries the call. Everything downstream is verified against
//! these names.

use vstd::prelude::*;
use crate::piece::Side;

verus! {

/// The knight destination mask for a square.
pub uninterp spec fn knight_moves_of(sq: u8) -> u64;

/// The king destination mask for a square (no castling).
pub uninterp spec fn king_moves_of(sq: u8) -> u64;

/// The rook destination mask for a square: rays stopped at the first
/// blocker, that blocker included.
pub uninterp spec fn rook_moves_of(sq: u8, blockers: u64) -> u64;

/// The bishop destination mask for a square: rays stopped at the first
/// blocker, that blocker included.
pub uninterp spec fn bishop_moves_of(sq: u8, blockers: u64) -> u64;

/// The pawn forward-push mask for a square and side: one step ahead, or
/// two from the pawn's starting rank, never onto or through a blocker.
pub uninterp spec fn pawn_quiets_of(sq: u8, side: Side, blockers: u64) -> u64;

/// The pawn diagonal-capture geometry for a square and side: the one or
/// two forward-diagonal squares, regardless of occupancy.
pub uninterp spec fn pawn_attack_geom(sq: u8, side: Side) -> u64;

/// Relies on chess::get_knight_moves: the knight destinations for a
/// square, a table lookup depending on the square alone.
#[verifier::external_body]
pub(crate) fn knight_moves(sq: u8) -> (r: u64)
    requires
        sq < 64,
    ensures
        r == knight_moves_of(sq),
{
    chess::get_knight_moves(chess::ALL_SQUARES[sq as usize]).0
}

/// Relies on chess::get_king_moves: the king destinations for a square
/// (castling excluded), a table lookup depending on the square alone.
#[verifier::external_body]
pub(crate) fn king_moves(sq: u8) -> (r: u64)
    requires
        sq < 64,
    ensures
        r == king_moves_of(sq),
{
    chess::get_king_moves(chess::ALL_SQUARES[sq as usize]).0
}

/// Relies on chess::get_rook_moves: rook rays under the given blocker
/// mask, a function of the square and the blockers alone.
#[verifier::external_body]
pub(crate) fn rook_moves(sq: u8, blockers: u64) -> (r: u64)
    requires
        sq < 64,
    ensures
        r == rook_moves_of(sq, blockers),
{
    chess::get_rook_moves(chess::ALL_SQUARES[sq as usize], chess::BitBoard(blockers)).0
}

/// Relies on chess::get_bishop_moves: bishop rays under the given blocker
/// mask, a function of the square and the blockers alone.
#[verifier::external_body]
pub(crate) fn bishop_moves(sq: u8, blockers: u64) -> (r: u64)
    requires
        sq < 64,
    ensures
        r == bishop_moves_of(sq, blockers),
{
    chess::get_bishop_moves(chess::ALL_SQUARES[sq as usize], chess::BitBoard(blockers)).0
}

/// Relies on chess::get_pawn_quiets: the pawn's forward pushes under the
/// given blocker mask. Its source masks the push table with the complement
/// of the blockers (or returns the empty mask when the square ahead is
/// blocked), so the result never meets the blockers; and the generated
/// push table stays on the pawn's own file while the attack table holds
/// only adjacent-file squares, so pushes and attack geometry are disjoint.
#[verifier::external_body]
pub(crate) fn pawn_quiets(sq: u8, side: Side, blockers: u64) -> (r: u64)
    requires
        sq < 64,
    ensures
        r == pawn_quiets_of(sq, side, blockers),
        r & blockers == 0u64,
        r & pawn_attack_geom(sq, side) == 0u64,
{
    let color = match side {
        Side::White => chess::Color::White,
        Side::Black => chess::Color::Black,
    };
    chess::get_pawn_quiets(chess::ALL_SQUARES[sq as usize], color, chess::BitBoard(blockers)).0
}

/// Relies on chess::get_pawn_attacks: its source intersects the pawn
/// attack table with the given victim mask, so the result is exactly the
/// attack geometry restricted to that mask.
#[verifier::external_body]
pub(crate) fn pawn_attacks(sq: u8, side: Side, victims: u64) -> (r: u64)
    requires
        sq < 64,
    ensures
        r == pawn_attack_geom(sq, side) & victims,
{
    let color = match side {
        Side::White => chess::Color::White,
        Side::Black => chess::Color::Black,
    };
    chess::get_pawn_attacks(chess::ALL_SQUARES[sq as usize], color, chess::BitBoard(victims)).0
}

} // verus!
