use the_checker_mater::game::board::Board;
use the_checker_mater::game::{Direction, GameAction, Move, PieceColor, PieceData};

fn man(color: PieceColor) -> PieceData {
    PieceData { color, is_king: false, is_active: true }
}

fn king(color: PieceColor) -> PieceData {
    PieceData { color, is_king: true, is_active: true }
}

fn step(index: usize, end: usize) -> Move {
    Move { index, end, promoted: false, captured: None }
}

fn jump(index: usize, end: usize, captured: Vec<usize>, promoted: bool) -> Move {
    Move { index, end, promoted, captured: Some(captured) }
}

#[test]
fn new_board_is_empty() {
    let board = Board::new();
    assert_eq!(board.get_empty_piece_count(), 32);
    assert_eq!(board.get_player_piece_count(), 0);
    assert_eq!(board.get_enemy_piece_count(), 0);
    assert_eq!(board.player_color(), PieceColor::White);
    for index in 0..32 {
        assert_eq!(board.piece(index), PieceData::const_default());
        assert!(!board.is_marked(index));
    }
    assert_eq!(board.get_legal_moves(), None);
    assert_eq!(board.get_legal_moves_piece(5), None);
}

#[test]
fn new_game_places_twelve_pieces_a_side() {
    let mut board = Board::new();
    board.start_new_game(PieceColor::White);
    assert_eq!(board.get_player_piece_count(), 12);
    assert_eq!(board.get_enemy_piece_count(), 12);
    assert_eq!(board.get_empty_piece_count(), 8);
    for index in 0..12 {
        assert_eq!(board.piece(index), man(PieceColor::Black));
        assert!(board.piece_is_enemy(index));
    }
    for index in 12..20 {
        assert!(board.piece_is_empty(index));
        assert!(!board.piece_is_player(index));
        assert!(!board.piece_is_enemy(index));
    }
    for index in 20..32 {
        assert_eq!(board.piece(index), man(PieceColor::White));
        assert!(board.piece_is_player(index));
    }
    assert_eq!(Board::default_setup(PieceColor::White), board.snapshot());
}

#[test]
fn new_game_for_black_swaps_the_colors() {
    let mut board = Board::new();
    board.start_new_game(PieceColor::Black);
    assert_eq!(board.player_color(), PieceColor::Black);
    assert_eq!(board.piece(0), man(PieceColor::White));
    assert_eq!(board.piece(31), man(PieceColor::Black));
    assert_eq!(board.get_player_piece_count(), 12);
}

#[test]
fn opening_moves_are_the_single_steps_of_the_front_row() {
    let mut board = Board::new();
    board.start_new_game(PieceColor::White);
    let moves = board.get_legal_moves().unwrap();
    assert_eq!(
        moves,
        vec![step(20, 17), step(20, 16), step(21, 18), step(21, 17), step(22, 19), step(22, 18), step(23, 19)]
    );
    assert_eq!(
        board.get_legal_moves_piece(20),
        Some((vec![step(20, 17), step(20, 16)], false))
    );
    // The rightmost piece of the front row has the board's edge to its right.
    assert_eq!(board.get_legal_moves_piece(23), Some((vec![step(23, 19)], false)));
    // Pieces behind the front row are blocked by their own side.
    for index in 24..32 {
        assert_eq!(board.get_legal_moves_piece(index), None);
    }
    for mov in &moves {
        assert!(mov.captured.is_none());
        assert!(!mov.promoted);
        assert!(board.piece_is_empty(mov.end));
        assert_eq!(mov.end / 4, 4);
    }
}

#[test]
fn opening_moves_of_the_opponent_go_down() {
    let mut board = Board::new();
    board.start_new_game(PieceColor::White);
    let moves = board.legal_moves_for_color(PieceColor::Black).unwrap();
    assert_eq!(
        moves,
        vec![step(8, 12), step(9, 12), step(9, 13), step(10, 13), step(10, 14), step(11, 14), step(11, 15)]
    );
}

#[test]
fn a_capture_excludes_every_plain_step() {
    let mut board = Board::new();
    board.set_piece(21, man(PieceColor::White));
    board.set_piece(30, man(PieceColor::White));
    board.set_piece(17, man(PieceColor::Black));
    // The piece on 30 could step, but the piece on 21 can take the one on 17.
    assert_eq!(board.get_legal_moves_piece(30), Some((vec![step(30, 27), step(30, 26)], false)));
    assert_eq!(board.get_legal_moves_piece(21), Some((vec![jump(21, 12, vec![17], false)], true)));
    assert_eq!(board.get_legal_moves(), Some(vec![jump(21, 12, vec![17], false)]));
}

#[test]
fn a_piece_with_a_capture_may_not_step() {
    let mut board = Board::new();
    board.set_piece(21, man(PieceColor::White));
    board.set_piece(17, man(PieceColor::Black));
    // Up-right towards 18 is free, up-left takes the piece on 17.
    let (moves, forced) = board.get_legal_moves_piece(21).unwrap();
    assert!(forced);
    assert_eq!(moves, vec![jump(21, 12, vec![17], false)]);
}

#[test]
fn a_blocked_capture_is_no_capture() {
    let mut board = Board::new();
    board.set_piece(21, man(PieceColor::White));
    board.set_piece(17, man(PieceColor::Black));
    board.set_piece(12, man(PieceColor::Black));
    assert_eq!(board.get_legal_moves_piece(21), Some((vec![step(21, 18)], false)));
}

#[test]
fn a_man_never_moves_backward() {
    let mut board = Board::new();
    board.set_piece(13, man(PieceColor::White));
    board.set_piece(18, man(PieceColor::Black));
    let (moves, forced) = board.get_legal_moves_piece(13).unwrap();
    assert!(!forced);
    assert_eq!(moves, vec![step(13, 10), step(13, 9)]);
    for mov in &moves {
        assert!(mov.end / 4 < 13 / 4);
    }
    // The opponent's man on 18 moves the other way, and takes the man on 13
    // only if the square behind it is free.
    let (moves, forced) = board.get_legal_moves_piece(18).unwrap();
    assert!(!forced);
    assert_eq!(moves, vec![step(18, 21), step(18, 22)]);
    for mov in &moves {
        assert!(mov.end / 4 > 18 / 4);
    }
}

#[test]
fn a_king_slides_in_all_directions() {
    let mut board = Board::new();
    board.set_piece(13, king(PieceColor::White));
    let (moves, forced) = board.get_legal_moves_piece(13).unwrap();
    assert!(!forced);
    // Furthest square first in each direction; directions in the order
    // up-right, up-left, down-left, down-right.
    assert_eq!(
        moves,
        vec![
            Move { index: 13, end: 3, promoted: true, captured: None },
            step(13, 6),
            step(13, 10),
            Move { index: 13, end: 0, promoted: true, captured: None },
            step(13, 4),
            step(13, 9),
            step(13, 24),
            step(13, 20),
            step(13, 17),
            step(13, 31),
            step(13, 27),
            step(13, 22),
            step(13, 18),
        ]
    );
}

#[test]
fn a_king_takes_a_chain_of_pieces_in_one_move() {
    let mut board = Board::new();
    board.set_piece(29, king(PieceColor::White));
    board.set_piece(25, man(PieceColor::Black));
    board.set_piece(17, man(PieceColor::Black));
    let (moves, forced) = board.get_legal_moves_piece(29).unwrap();
    assert!(forced);
    // Over 25 to 20, then over 17 to 13. The last piece taken is listed first.
    assert_eq!(moves, vec![jump(29, 13, vec![17, 25], false)]);
    assert_eq!(board.get_legal_moves(), Some(vec![jump(29, 13, vec![17, 25], false)]));
}

#[test]
fn a_king_takes_a_piece_at_a_distance() {
    let mut board = Board::new();
    board.set_piece(29, king(PieceColor::White));
    board.set_piece(17, man(PieceColor::Black));
    // The diagonals through 29 are 29, 25, 20, 16 and 29, 26, 22, 19, 15:
    // the piece on 17 stands on neither, so the king has no capture.
    let (_, forced) = board.get_legal_moves_piece(29).unwrap();
    assert!(!forced);
    let mut board = Board::new();
    board.set_piece(29, king(PieceColor::White));
    board.set_piece(20, man(PieceColor::Black));
    // 29, 25, 20, 16: the king slides over 25, takes 20 and lands on 16.
    let (moves, forced) = board.get_legal_moves_piece(29).unwrap();
    assert!(forced);
    assert_eq!(moves, vec![jump(29, 16, vec![20], false)]);
}

#[test]
fn a_man_crowned_in_a_chain_goes_on_as_a_king() {
    let mut board = Board::new();
    board.set_piece(10, man(PieceColor::White));
    board.set_piece(5, man(PieceColor::Black));
    board.set_piece(4, man(PieceColor::Black));
    let (moves, forced) = board.get_legal_moves_piece(10).unwrap();
    assert!(forced);
    // Over 5 to 1, where the man is crowned; then backwards over 4 to 8.
    assert_eq!(moves, vec![jump(10, 8, vec![4, 5], true)]);
}

#[test]
fn a_move_into_the_far_rank_promotes() {
    let mut board = Board::new();
    board.set_piece(5, man(PieceColor::White));
    let (moves, forced) = board.get_legal_moves_piece(5).unwrap();
    assert!(!forced);
    assert_eq!(
        moves,
        vec![
            Move { index: 5, end: 2, promoted: true, captured: None },
            Move { index: 5, end: 1, promoted: true, captured: None },
        ]
    );
    board.move_piece(&moves[0]);
    assert_eq!(board.piece(2), king(PieceColor::White));
    assert!(board.piece_is_empty(5));
    // The opponent is crowned in the last row, square 28 included.
    let mut board = Board::new();
    board.set_piece(24, man(PieceColor::Black));
    let (moves, _) = board.get_legal_moves_piece(24).unwrap();
    assert_eq!(moves, vec![Move { index: 24, end: 28, promoted: true, captured: None }]);
}

#[test]
fn a_piece_in_the_last_row_has_no_move_further_down() {
    let mut board = Board::new();
    board.set_piece(28, king(PieceColor::White));
    let (moves, forced) = board.get_legal_moves_piece(28).unwrap();
    assert!(!forced);
    assert_eq!(
        moves,
        vec![step(28, 7), step(28, 11), step(28, 14), step(28, 18), step(28, 21), step(28, 25), step(28, 24)]
    );
}

#[test]
fn move_piece_carries_out_a_jump() {
    let mut board = Board::new();
    board.set_piece(29, king(PieceColor::White));
    board.set_piece(25, man(PieceColor::Black));
    board.set_piece(17, man(PieceColor::Black));
    board.set_piece(0, man(PieceColor::Black));
    let moves = board.get_legal_moves().unwrap();
    board.move_piece(&moves[0]);
    assert_eq!(board.piece(13), king(PieceColor::White));
    assert!(board.piece_is_empty(29));
    assert!(board.piece_is_empty(25));
    assert!(board.piece_is_empty(17));
    assert_eq!(board.get_player_piece_count(), 1);
    assert_eq!(board.get_enemy_piece_count(), 1);
    assert_eq!(board.get_empty_piece_count(), 30);
}

#[test]
fn a_chain_may_end_on_a_square_that_it_emptied() {
    let mut board = Board::new();
    board.set_piece(4, king(PieceColor::White));
    for index in [5, 6, 9, 18, 19] {
        board.set_piece(index, man(PieceColor::Black));
    }
    // Over 9 to 13, over 18 to 22, over 19 to 15, over 6 to 2, and over 5 back
    // to 9, where the first piece taken stood.
    let chain = jump(4, 9, vec![5, 6, 19, 18, 9], true);
    let (moves, forced) = board.get_legal_moves_piece(4).unwrap();
    assert!(forced);
    assert!(moves.contains(&chain));
    board.move_piece(&chain);
    assert_eq!(board.piece(9), king(PieceColor::White));
    for index in [4, 5, 6, 18, 19] {
        assert!(board.piece_is_empty(index));
    }
    assert_eq!(board.get_player_piece_count(), 1);
    assert_eq!(board.get_enemy_piece_count(), 0);
}

#[test]
fn a_move_that_ends_where_it_starts_leaves_the_piece() {
    let mut board = Board::new();
    board.set_piece(13, man(PieceColor::White));
    board.move_piece(&step(13, 13));
    assert_eq!(board.piece(13), man(PieceColor::White));
    assert_eq!(board.get_player_piece_count(), 1);
}

#[test]
fn piece_counts_never_grow() {
    let mut board = Board::new();
    board.start_new_game(PieceColor::White);
    let own = board.get_player_piece_count();
    let other = board.get_enemy_piece_count();
    // Not a legal move: a piece lands on an occupied square.
    board.move_piece(&Move { index: 20, end: 3, promoted: false, captured: Some(vec![21, 4]) });
    assert!(board.get_player_piece_count() <= own);
    assert!(board.get_enemy_piece_count() <= other);
    assert_eq!(board.get_player_piece_count(), 11);
    assert_eq!(board.get_enemy_piece_count(), 10);
}

#[test]
fn marking_and_resetting_squares() {
    let mut board = Board::new();
    board.mark_squares(&[3, 17, 3]);
    for index in 0..32 {
        assert_eq!(board.is_marked(index), index == 3 || index == 17);
    }
    board.mark_squares(&[5]);
    assert!(board.is_marked(3) && board.is_marked(5) && board.is_marked(17));
    board.reset_squares();
    for index in 0..32 {
        assert!(!board.is_marked(index));
    }
}

#[test]
fn snapshot_and_restore() {
    let mut board = Board::new();
    board.start_new_game(PieceColor::Black);
    let snapshot = board.snapshot();
    assert_eq!(snapshot.len(), 32);
    let mut other = Board::new();
    assert!(!other.restore(&snapshot[..31].to_vec()));
    assert_eq!(other.get_empty_piece_count(), 32);
    assert!(other.restore(&snapshot));
    assert_eq!(other.snapshot(), snapshot);
}

#[test]
fn selecting_a_square() {
    let mut board = Board::new();
    assert_eq!(board.selected_square(), 0);
    board.select_square(21);
    assert_eq!(board.selected_square(), 21);
    assert_eq!(board.selected_square, 21);
}

#[test]
fn reversing_a_move_mirrors_every_square() {
    let mov = jump(10, 8, vec![4, 5], true);
    assert_eq!(mov.reverse(), jump(21, 23, vec![27, 26], true));
    assert_eq!(step(20, 16).reverse(), step(11, 15));
    assert_eq!(mov.reverse().reverse(), mov);
    assert_eq!(mov.clone(), mov);
}

#[test]
fn game_action_constructor() {
    assert_eq!(
        GameAction::move_piece(1, 2, Some(vec![3]), true),
        GameAction::MovePiece(Move { index: 1, end: 2, promoted: true, captured: Some(vec![3]) })
    );
    assert_eq!(GameAction::Surrender.clone(), GameAction::Surrender);
}

#[test]
fn directions() {
    assert_eq!(
        Direction::values(),
        [Direction::UpRight, Direction::UpLeft, Direction::DownLeft, Direction::DownRight]
    );
    // Even rows are shifted to the left, odd rows to the right.
    assert_eq!(Direction::UpLeft.get_value(9), -5);
    assert_eq!(Direction::UpRight.get_value(9), -4);
    assert_eq!(Direction::DownLeft.get_value(9), 3);
    assert_eq!(Direction::DownRight.get_value(9), 4);
    assert_eq!(Direction::UpLeft.get_value(13), -4);
    assert_eq!(Direction::UpRight.get_value(13), -3);
    assert_eq!(Direction::DownLeft.get_value(13), 4);
    assert_eq!(Direction::DownRight.get_value(13), 5);
    assert!(Direction::UpLeft.is_left() && Direction::UpLeft.is_up());
    assert!(Direction::DownRight.is_right() && Direction::DownRight.is_down());
    assert!(!Direction::UpRight.is_left() && !Direction::UpRight.is_down());
    assert!(!Direction::DownLeft.is_right() && !Direction::DownLeft.is_up());
    assert_eq!(PieceColor::White.get_opposite(), PieceColor::Black);
    assert_eq!(PieceColor::Black.get_opposite(), PieceColor::White);
}
