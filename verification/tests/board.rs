use board_solver::board::Board;
use board_solver::state::State;

#[test]
fn test_board() {
    let mut board = Board::new();
    board = board.set(0, 0, State::P1);
    board = board.set(1, 0, State::P1);
    board = board.set(2, 0, State::P1);
    assert_eq!(board.settled(State::P1), State::Empty);
    board = board.set(3, 0, State::P1);
    assert_eq!(board.settled(State::P1), State::P1);

    let mut board = Board::new();
    board = board.set(1, 0, State::P1);
    board = board.set(2, 0, State::P1);
    board = board.set(3, 0, State::P1);
    assert_eq!(board.settled(State::P1), State::Empty);
    board = board.set(4, 0, State::P1);
    assert_eq!(board.settled(State::P1), State::P1);

    let mut board = Board::new();
    board = board.set(0, 0, State::P1);
    board = board.set(0, 1, State::P1);
    board = board.set(0, 2, State::P1);
    assert_eq!(board.settled(State::P1), State::Empty);
    board = board.set(0, 3, State::P1);
    assert_eq!(board.settled(State::P1), State::P1);

    let mut board = Board::new();
    board = board.set(0, 1, State::P1);
    board = board.set(0, 2, State::P1);
    board = board.set(0, 3, State::P1);
    assert_eq!(board.settled(State::P1), State::Empty);
    board = board.set(0, 4, State::P1);
    assert_eq!(board.settled(State::P1), State::P1);

    let mut board = Board::new();
    board = board.set(0, 0, State::P1);
    board = board.set(1, 1, State::P1);
    board = board.set(2, 2, State::P1);
    assert_eq!(board.settled(State::P1), State::Empty);
    board = board.set(3, 3, State::P1);
    assert_eq!(board.settled(State::P1), State::P1);

    let mut board = Board::new();
    board = board.set(0, 0, State::P2);
    board = board.set(1, 1, State::P2);
    board = board.set(2, 2, State::P2);
    assert_eq!(board.settled(State::P1), State::Empty);
    board = board.set(3, 3, State::P2);
    assert_eq!(board.settled(State::P1), State::P2);

    let mut board = Board::new();
    board = board.set(1, 1, State::P1);
    board = board.set(2, 1, State::P1);
    board = board.set(3, 1, State::P1);
    assert_eq!(board.settled(State::P1), State::P1);
    assert_eq!(board.settled(State::P2), State::P1);
    board = board.set(1, 2, State::P2);
    board = board.set(2, 2, State::P2);
    board = board.set(3, 2, State::P2);
    assert_eq!(board.settled(State::P1), State::P1);
    assert_eq!(board.settled(State::P2), State::P2);
}
