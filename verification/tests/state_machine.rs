use chess_select::controller::{Game, SelectionState};
use chess_select::piece::{PieceKind, Side};
use chess_select::position::Position;
use chess_select::square::Square;

fn sq(file: u8, rank: u8) -> Square {
    Square::from_coords(file, rank)
}

fn empty_board() -> Vec<Option<(PieceKind, Side)>> {
    let mut v: Vec<Option<(PieceKind, Side)>> = Vec::new();
    for _ in 0..64 {
        v.push(None);
    }
    v
}

fn active_parts(g: &Game) -> (Square, PieceKind, Side, Vec<u8>) {
    match g.selection() {
        SelectionState::Active { square, kind, side, moves } => {
            let mut out: Vec<u8> = Vec::new();
            for i in 0..64u8 {
                if moves.member(Square::from_index(i)) {
                    out.push(i);
                }
            }
            (square, kind, side, out)
        },
        SelectionState::Empty => panic!("expected an active selection"),
    }
}

fn is_empty_selection(g: &Game) -> bool {
    matches!(g.selection(), SelectionState::Empty)
}

#[test]
fn click_on_empty_square_is_a_no_op() {
    let mut g = Game::new();
    g.click(sq(4, 3)); // e4 is empty
    assert!(is_empty_selection(&g));
    assert_eq!(g.side_to_move(), Side::White);
    assert_eq!(g.piece_at(sq(4, 1)), Some((PieceKind::Pawn, Side::White)));
    assert_eq!(g.piece_at(sq(4, 3)), None);
}

#[test]
fn clicking_opponent_piece_never_selects() {
    let mut g = Game::new();
    g.click(sq(4, 6)); // e7: Black pawn, but White to move
    assert!(is_empty_selection(&g));
    g.click(sq(3, 7)); // d8: Black queen
    assert!(is_empty_selection(&g));
    assert_eq!(g.side_to_move(), Side::White);
}

#[test]
fn opening_pawn_click_then_move() {
    // Click e2: active with exactly {e3, e4}. Click e4: the move applies.
    let mut g = Game::new();
    g.click(sq(4, 1));
    let (square, kind, side, moves) = active_parts(&g);
    assert_eq!(square, sq(4, 1));
    assert_eq!(kind, PieceKind::Pawn);
    assert_eq!(side, Side::White);
    assert_eq!(moves, vec![20, 28]); // e3, e4

    g.click(sq(4, 3));
    assert!(is_empty_selection(&g));
    assert_eq!(g.piece_at(sq(4, 1)), None);
    assert_eq!(g.piece_at(sq(4, 3)), Some((PieceKind::Pawn, Side::White)));
    assert_eq!(g.side_to_move(), Side::Black);
}

#[test]
fn stale_selection_is_kept_on_non_move_click() {
    // After 1.e4, select e7 and click d5: neither a move nor a friendly
    // piece, so the selection stays at e7 untouched.
    let mut g = Game::new();
    g.click(sq(4, 1));
    g.click(sq(4, 3)); // 1.e4
    assert_eq!(g.side_to_move(), Side::Black);

    g.click(sq(4, 6)); // e7: Black pawn
    let (square, kind, side, moves) = active_parts(&g);
    assert_eq!(square, sq(4, 6));
    assert_eq!(kind, PieceKind::Pawn);
    assert_eq!(side, Side::Black);
    assert_eq!(moves, vec![36, 44]); // e5, e6

    g.click(sq(3, 4)); // d5: empty and not a destination
    let (square2, kind2, side2, moves2) = active_parts(&g);
    assert_eq!(square2, sq(4, 6));
    assert_eq!(kind2, PieceKind::Pawn);
    assert_eq!(side2, Side::Black);
    assert_eq!(moves2, vec![36, 44]);
    assert_eq!(g.piece_at(sq(3, 4)), None);
    assert_eq!(g.side_to_move(), Side::Black);
}

#[test]
fn retarget_replaces_move_set_without_merging() {
    let mut g = Game::new();
    g.click(sq(1, 0)); // b1 knight
    let (_, _, _, first) = active_parts(&g);
    assert_eq!(first, vec![16, 18]); // a3, c3

    g.click(sq(6, 0)); // g1: friendly knight, not a destination
    let (square, kind, side, moves) = active_parts(&g);
    assert_eq!(square, sq(6, 0));
    assert_eq!(kind, PieceKind::Knight);
    assert_eq!(side, Side::White);
    assert_eq!(moves, vec![21, 23]); // f3, h3: fresh, never a merge
}

#[test]
fn reclicking_selected_square_recomputes_same_selection() {
    let mut g = Game::new();
    g.click(sq(1, 0)); // b1 knight
    g.click(sq(1, 0)); // same square again: friendly, not in move-set
    let (square, kind, side, moves) = active_parts(&g);
    assert_eq!(square, sq(1, 0));
    assert_eq!(kind, PieceKind::Knight);
    assert_eq!(side, Side::White);
    assert_eq!(moves, vec![16, 18]);
}

#[test]
fn capture_removes_the_enemy_piece() {
    let mut v = empty_board();
    v[0] = Some((PieceKind::Rook, Side::White)); // a1
    v[48] = Some((PieceKind::Pawn, Side::Black)); // a7
    let mut g = Game::from_position(Position::from_arrangement(v, Side::White));

    g.click(sq(0, 0));
    let (_, kind, _, moves) = active_parts(&g);
    assert_eq!(kind, PieceKind::Rook);
    assert!(moves.contains(&48));

    g.click(sq(0, 6)); // capture on a7
    assert!(is_empty_selection(&g));
    assert_eq!(g.piece_at(sq(0, 0)), None);
    assert_eq!(g.piece_at(sq(0, 6)), Some((PieceKind::Rook, Side::White)));
    assert_eq!(g.side_to_move(), Side::Black);
}

#[test]
fn turns_alternate_over_a_short_game() {
    let mut g = Game::new();
    assert_eq!(g.side_to_move(), Side::White);
    g.click(sq(4, 1));
    g.click(sq(4, 3)); // 1.e4
    assert_eq!(g.side_to_move(), Side::Black);
    g.click(sq(4, 6));
    g.click(sq(4, 4)); // 1...e5
    assert_eq!(g.side_to_move(), Side::White);
    g.click(sq(6, 0));
    g.click(sq(5, 2)); // 2.Nf3
    assert_eq!(g.side_to_move(), Side::Black);
    assert_eq!(g.piece_at(sq(5, 2)), Some((PieceKind::Knight, Side::White)));
}
