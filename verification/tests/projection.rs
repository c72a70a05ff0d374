use chess_select::controller::Game;
use chess_select::piece::{PieceKind, Side};
use chess_select::position::Position;
use chess_select::projection::SquareType;
use chess_select::square::Square;

fn sq(file: u8, rank: u8) -> Square {
    Square::from_coords(file, rank)
}

#[test]
fn fresh_game_projects_pieces_and_plain_only() {
    let g = Game::new();
    let view = g.view_categories();
    assert_eq!(view.len(), 64);
    for i in 0..64usize {
        if i < 16 || i >= 48 {
            assert_eq!(view[i], SquareType::Piece);
        } else {
            assert_eq!(view[i], SquareType::Plain);
        }
    }
}

#[test]
fn selected_pawn_highlights_exactly_its_destinations() {
    // Active(e2, Pawn, White, {e3, e4}) on the initial position: e3 and
    // e4 are highlighted, every occupied square shows its piece, and
    // everything else stays plain.
    let mut g = Game::new();
    g.click(sq(4, 1)); // e2
    let view = g.view_categories();
    assert_eq!(view.len(), 64);
    for i in 0..64usize {
        if i == 20 || i == 28 {
            assert_eq!(view[i], SquareType::Moveable);
        } else if i < 16 || i >= 48 {
            assert_eq!(view[i], SquareType::Piece);
        } else {
            assert_eq!(view[i], SquareType::Plain);
        }
    }
}

#[test]
fn applied_move_clears_highlights() {
    let mut g = Game::new();
    g.click(sq(4, 1));
    g.click(sq(4, 3)); // 1.e4
    let view = g.view_categories();
    for i in 0..64usize {
        assert_ne!(view[i], SquareType::Moveable);
    }
    assert_eq!(view[28], SquareType::Piece); // e4 now occupied
    assert_eq!(view[12], SquareType::Plain); // e2 now empty
}

#[test]
fn occupied_destination_projects_as_piece_not_highlight() {
    // A capturable enemy on a destination square stays in the Piece
    // category; only empty destinations are highlighted.
    let mut v: Vec<Option<(PieceKind, Side)>> = Vec::new();
    for _ in 0..64 {
        v.push(None);
    }
    v[0] = Some((PieceKind::Rook, Side::White)); // a1
    v[48] = Some((PieceKind::Pawn, Side::Black)); // a7
    let mut g = Game::from_position(Position::from_arrangement(v, Side::White));
    g.click(sq(0, 0));
    let view = g.view_categories();
    assert_eq!(view[48], SquareType::Piece); // enemy pawn shows as a piece
    assert_eq!(view[8], SquareType::Moveable); // a2 is an empty destination
    assert_eq!(view[1], SquareType::Moveable); // b1 likewise
    assert_eq!(view[0], SquareType::Piece); // the selected rook itself
}
