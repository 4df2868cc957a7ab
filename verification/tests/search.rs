use board_solver::board::Board;
use board_solver::search::Eval;
use board_solver::state::State;
use rustc_hash::FxHashMap;

fn board_from(cells: [u8; 25]) -> Board {
    let mut board = Board::new();
    for i in 0..25 {
        let player = match cells[i] {
            1 => State::P1,
            2 => State::P2,
            _ => State::Empty,
        };
        if player != State::Empty {
            board = board.set(i / 5, i % 5, player);
        }
    }
    board
}

#[test]
fn eval_past_the_depth_limit() {
    let mut memo: FxHashMap<u64, Eval> = FxHashMap::default();
    let mut total: u64 = 0;
    let e = Board::new().eval(&mut memo, 12, &mut total);
    assert_eq!(e, Eval::new(0));
    assert_eq!(total, 0);
    assert!(memo.is_empty());
}

#[test]
fn eval_decided_positions() {
    let board = Board::new().set(1, 0, State::P1).set(1, 1, State::P1).set(1, 2, State::P1).set(1, 3, State::P1);
    let mut memo: FxHashMap<u64, Eval> = FxHashMap::default();
    let mut total: u64 = 0;
    assert_eq!(board.eval(&mut memo, 0, &mut total).value, 1);
    assert_eq!(board.eval(&mut memo, 1, &mut total).value, -1);
    assert_eq!(total, 2);
    assert!(memo.is_empty());
}

#[test]
fn eval_uses_stored_values_of_symmetric_views() {
    let board = Board::new().set(2, 2, State::P1).set(1, 1, State::P2);
    let mut memo: FxHashMap<u64, Eval> = FxHashMap::default();
    memo.insert(board.rotate_90().0, Eval::new(1));
    let mut total: u64 = 5;
    assert_eq!(board.eval(&mut memo, 0, &mut total).value, 1);
    assert_eq!(total, 6);
    assert_eq!(memo.len(), 1);
}

#[test]
fn eval_near_full_boards() {
    let board = board_from([2, 1, 0, 0, 1, 1, 1, 2, 0, 1, 0, 2, 2, 0, 2, 1, 2, 1, 2, 1, 0, 2, 1, 1, 1]);
    let mut memo: FxHashMap<u64, Eval> = FxHashMap::default();
    let mut total: u64 = 0;
    let e = board.eval(&mut memo, 0, &mut total);
    assert_eq!(e.value, 0);
    assert_eq!(total, 75);
    assert_eq!(memo.len(), 37);
    assert_eq!(memo.get(&board.0), Some(&Eval::new(0)));

    let board = board_from([0, 2, 2, 1, 2, 2, 0, 2, 0, 0, 1, 1, 1, 0, 2, 2, 1, 1, 0, 1, 1, 2, 2, 1, 2]);
    let mut memo: FxHashMap<u64, Eval> = FxHashMap::default();
    let mut total: u64 = 0;
    assert_eq!(board.eval(&mut memo, 1, &mut total).value, -1);
    assert_eq!(total, 86);
    assert_eq!(memo.len(), 46);

    let board = board_from([2, 2, 2, 1, 1, 2, 0, 0, 2, 0, 1, 1, 1, 2, 0, 1, 0, 1, 0, 1, 1, 1, 1, 2, 2]);
    let mut memo: FxHashMap<u64, Eval> = FxHashMap::default();
    let mut total: u64 = 0;
    assert_eq!(board.eval(&mut memo, 1, &mut total).value, 1);
    assert_eq!(total, 30);
    assert_eq!(memo.len(), 15);
}

#[test]
fn solve_near_full_board() {
    let board = board_from([1, 1, 0, 2, 2, 1, 1, 2, 1, 1, 2, 2, 2, 1, 2, 0, 1, 1, 2, 2, 0, 2, 0, 1, 0]);
    let (e, total) = board.solve(64);
    assert_eq!(e.value, 0);
    assert_eq!(total, 25);
    let (e, total) = board_from([2, 1, 0, 0, 1, 1, 1, 2, 0, 1, 0, 2, 2, 0, 2, 1, 2, 1, 2, 1, 0, 2, 1, 1, 1]).solve(0);
    assert_eq!(e.value, 0);
    assert_eq!(total, 75);
}

#[test]
fn eval_of_a_turned_board_may_differ() {
    let board = board_from([2, 2, 0, 1, 1, 0, 2, 1, 2, 0, 2, 2, 1, 2, 2, 2, 0, 0, 2, 1, 2, 0, 1, 1, 0]);
    assert_eq!(board.has_free2(State::P2), Some(((4, 1), (4, 4))));
    let mut memo: FxHashMap<u64, Eval> = FxHashMap::default();
    let mut total: u64 = 0;
    assert_eq!(board.eval(&mut memo, 5, &mut total).value, -1);
    assert_eq!(total, 9);
    assert_eq!(memo.len(), 5);
    let turned = board.rotate_90();
    let mut memo: FxHashMap<u64, Eval> = FxHashMap::default();
    let mut total: u64 = 0;
    assert_eq!(turned.eval(&mut memo, 5, &mut total).value, 1);
    assert_eq!(total, 33);
    assert_eq!(memo.len(), 20);
}

#[test]
fn eval_only_extends_the_memo() {
    let board = board_from([2, 1, 0, 0, 1, 1, 1, 2, 0, 1, 0, 2, 2, 0, 2, 1, 2, 1, 2, 1, 0, 2, 1, 1, 1]);
    let mut memo: FxHashMap<u64, Eval> = FxHashMap::default();
    memo.insert(3, Eval::new(-1));
    let mut total: u64 = 0;
    assert_eq!(board.eval(&mut memo, 0, &mut total).value, 0);
    assert_eq!(memo.get(&3), Some(&Eval::new(-1)));
    assert_eq!(memo.len(), 38);
    for key in memo.keys() {
        if *key != 3 {
            assert_eq!(*key & board.0, board.0);
        }
    }
}
