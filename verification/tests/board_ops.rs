use board_solver::board::Board;
use board_solver::lines::count_ones;
use board_solver::state::State;

fn board_from(cells: [u8; 25]) -> Board {
    let mut board = Board::new();
    for i in 0..25 {
        let player = match cells[i] {
            1 => State::P1,
            2 => State::P2,
            _ => State::Empty,
        };
        if player != State::Empty {
            board = board.set(i / 5, i % 5, player);
        }
    }
    board
}

#[test]
fn state_from_codes() {
    assert_eq!(State::from(0u64), State::Empty);
    assert_eq!(State::from(1u64), State::P1);
    assert_eq!(State::from(2u64), State::P2);
    assert_eq!(State::from(3u64), State::Draw);
    assert_eq!(State::from(7u64), State::Empty);
    assert_eq!(State::Draw.bits(), 3);
}

#[test]
fn new_board_is_empty() {
    let board = Board::new();
    assert_eq!(board.0, 0);
    for y in 0..5 {
        for x in 0..5 {
            assert!(board.is_available(y, x));
            assert_eq!(board.get(y, x), State::Empty);
        }
    }
}

#[test]
fn set_then_get() {
    let board = Board::new().set(1, 3, State::P2);
    assert_eq!(board.0, 2u64 << 16);
    assert_eq!(board.get(1, 3), State::P2);
    assert!(!board.is_available(1, 3));
    let board = board.set(4, 4, State::P1);
    assert_eq!(board.get(4, 4), State::P1);
    assert_eq!(board.get(1, 3), State::P2);
    assert_eq!(board.get(0, 0), State::Empty);
    assert!(board.is_available(3, 1));
}

#[test]
fn set_past_the_board() {
    let board = Board::new().set(6, 1, State::P2);
    assert_eq!(board.0, 2u64 << 62);
    assert_eq!(board.get(6, 1), State::P2);
}

#[test]
fn rotate_moves_stones() {
    let board = Board::new().set(0, 1, State::P1).set(2, 4, State::P2);
    let turned = board.rotate_90();
    assert_eq!(turned.get(3, 0), State::P1);
    assert_eq!(turned.get(0, 2), State::P2);
    assert_eq!(turned.get(0, 1), State::Empty);
    let full = board_from([1, 1, 0, 2, 2, 1, 1, 2, 1, 1, 2, 2, 2, 1, 2, 0, 1, 1, 2, 2, 0, 2, 0, 1, 0]);
    assert_eq!(full.0, 0x48a526a59685);
    assert_eq!(full.rotate_90().0, 0x2599468658a6);
    assert_eq!(full.rotate_90().rotate_90().rotate_90().rotate_90(), full);
}

#[test]
fn rotate_drops_cells_past_the_board() {
    let board = Board::new().set(0, 0, State::P1).set(6, 1, State::P2);
    let back = board.rotate_90().rotate_90().rotate_90().rotate_90();
    assert_eq!(back, Board::new().set(0, 0, State::P1));
}

#[test]
fn mirror_moves_rows() {
    let board = Board::new().set(0, 1, State::P1).set(3, 4, State::P2);
    let flipped = board.mirrored();
    assert_eq!(flipped.get(4, 1), State::P1);
    assert_eq!(flipped.get(1, 4), State::P2);
    let full = board_from([1, 1, 0, 2, 2, 1, 1, 2, 1, 1, 2, 2, 2, 1, 2, 0, 1, 1, 2, 2, 0, 2, 0, 1, 0]);
    assert_eq!(full.mirrored().0, 0x2855966aa5048);
    assert_eq!(full.mirrored().mirrored(), full);
}

#[test]
fn counting_bits() {
    assert_eq!(count_ones(0), 0);
    assert_eq!(count_ones(u64::MAX), 64);
    assert_eq!(count_ones(0x48a526a59685), 20);
    assert_eq!(count_ones(1 << 63), 1);
}

#[test]
fn settled_full_board_is_a_draw() {
    let board = board_from([1, 2, 1, 1, 1, 2, 2, 1, 2, 1, 1, 1, 2, 1, 2, 2, 1, 2, 1, 2, 2, 1, 2, 1, 2]);
    assert_eq!(board.settled(State::P1), State::Draw);
    assert_eq!(board.settled(State::Empty), State::Draw);
}

#[test]
fn settled_blocked_board_is_a_draw() {
    let board = board_from([2, 2, 1, 2, 0, 2, 2, 1, 1, 0, 2, 1, 2, 2, 1, 1, 2, 0, 1, 2, 2, 1, 2, 2, 1]);
    assert_eq!(board.settled(State::P1), State::Draw);
    assert_eq!(board.settled(State::P2), State::Draw);
}

#[test]
fn settled_open_and_half_open_threes() {
    let board = Board::new().set(2, 1, State::P2).set(2, 2, State::P2).set(2, 3, State::P2);
    assert_eq!(board.settled(State::P1), State::P2);
    assert_eq!(board.settled(State::P2), State::P2);
    let blocked = board.set(2, 0, State::P1);
    assert_eq!(blocked.settled(State::P1), State::Empty);
    assert_eq!(blocked.settled(State::P2), State::P2);
}

#[test]
fn settled_four_with_no_player_to_move() {
    let board = Board::new().set(0, 0, State::P2).set(0, 1, State::P2).set(0, 2, State::P2).set(0, 3, State::P2);
    assert_eq!(board.settled(State::Empty), State::P2);
}

#[test]
fn settled_is_unchanged_by_symmetries() {
    let board = Board::new().set(2, 1, State::P2).set(2, 2, State::P2).set(2, 3, State::P2).set(2, 0, State::P1);
    for cur in [State::P1, State::P2] {
        assert_eq!(board.rotate_90().settled(cur), board.settled(cur));
        assert_eq!(board.mirrored().settled(cur), board.settled(cur));
    }
}

#[test]
fn free_two_choice() {
    let board = Board::new().set(0, 1, State::P1).set(0, 2, State::P1);
    assert_eq!(board.has_free2(State::P1), Some(((0, 0), (0, 3))));
    assert_eq!(board.has_free2(State::P2), Some(((0, 0), (0, 3))));
    let both = board.set(4, 1, State::P2).set(4, 2, State::P2);
    assert_eq!(both.has_free2(State::P1), Some(((0, 0), (0, 3))));
    assert_eq!(both.has_free2(State::P2), Some(((4, 0), (4, 3))));
    let only_second = Board::new().set(4, 1, State::P2).set(4, 2, State::P2);
    assert_eq!(only_second.has_free2(State::P1), Some(((4, 0), (4, 3))));
    assert_eq!(Board::new().has_free2(State::P1), None);
}

#[test]
fn free_two_found_on_symmetric_boards() {
    let boards = [
        Board::new().set(0, 1, State::P1).set(0, 2, State::P1),
        Board::new().set(4, 1, State::P2).set(4, 2, State::P2).set(2, 2, State::P1),
        Board::new().set(1, 1, State::P1).set(2, 2, State::P1),
        Board::new().set(0, 0, State::P1).set(4, 4, State::P2),
    ];
    for board in boards {
        for cur in [State::P1, State::P2] {
            let found = board.has_free2(cur).is_some();
            assert_eq!(board.rotate_90().has_free2(cur).is_some(), found);
            assert_eq!(board.mirrored().has_free2(cur).is_some(), found);
        }
    }
    assert!(boards[0].rotate_90().has_free2(State::P1).is_some());
    assert!(boards[3].mirrored().has_free2(State::P1).is_none());
}
