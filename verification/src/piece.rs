//! Piece kinds and sides: the two closed enumerations the board is built from.

use vstd::prelude::*;

verus! {

/// The six chess piece kinds.
#[derive(Clone, Copy, PartialEq, Eq, Structural, Debug)]
pub enum PieceKind {
    Pawn,
    Knight,
    Bishop,
    Rook,
    Queen,
    King,
}

/// The two sides; `White` moves first.
#[derive(Clone, Copy, PartialEq, Eq, Structural, Debug)]
pub enum Side {
    White,
    Black,
}

impl Side {
    /// The other side.
    pub open spec fn opposite(self) -> Side {
        match self {
            Side::White => Side::Black,
            Side::Black => Side::White,
        }
    }

    /// Returns the other side.
    pub fn flip(self) -> (r: Side)
        ensures
            r == self.opposite(),
    {
        match self {
            Side::White => Side::Black,
            Side::Black => Side::White,
        }
    }
}

/// The lower-case name of an optional piece kind, as used for icon
/// lookup by a presentation layer.
pub open spec fn spec_piece_name(p: Option<PieceKind>) -> Seq<char> {
    match p {
        Some(PieceKind::Pawn) => "pawn"@,
        Some(PieceKind::Rook) => "rook"@,
        Some(PieceKind::Knight) => "knight"@,
        Some(PieceKind::Bishop) => "bishop"@,
        Some(PieceKind::Queen) => "queen"@,
        Some(PieceKind::King) => "king"@,
        None => "none"@,
    }
}

/// Returns the lower-case name of an optional piece kind.
pub fn piece_name(p: Option<PieceKind>) -> (r: &'static str)
    ensures
        r@ == spec_piece_name(p),
{
    match p {
        Some(PieceKind::Pawn) => "pawn",
        Some(PieceKind::Rook) => "rook",
        Some(PieceKind::Knight) => "knight",
        Some(PieceKind::Bishop) => "bishop",
        Some(PieceKind::Queen) => "queen",
        Some(PieceKind::King) => "king",
        None => "none",
    }
}

/// The lower-case name of an optional side, as used for icon lookup by a
/// presentation layer.
pub open spec fn spec_side_name(c: Option<Side>) -> Seq<char> {
    match c {
        Some(Side::White) => "white"@,
        Some(Side::Black) => "black"@,
        None => "none"@,
    }
}

/// Returns the lower-case name of an optional side.
pub fn side_name(c: Option<Side>) -> (r: &'static str)
    ensures
        r@ == spec_side_name(c),
{
    match c {
        Some(Side::White) => "white",
        Some(Side::Black) => "black",
        None => "none",
    }
}

} // verus!
