//! The board, its moves and its symmetries.
use vstd::prelude::*;
use crate::state::{State, state_of, lemma_state_of_code};
use crate::cells::{cell, pack, lemma_zero_cell_ops, lemma_cell_bound, lemma_cell_pack, lemma_cell_zero, lemma_cell_or, lemma_cells_determine};

verus! {

/// A 5x5 board: 25 cells of two bits each, cell `y * 5 + x` at bit `2 * (y * 5 + x)`.
#[derive(Debug, Clone, Copy, PartialEq, Eq, Hash, Structural)]
pub struct Board(pub u64);

/// The cell that a quarter turn brings to cell `i`: the stone at row `y`,
/// column `x` goes to row `4 - x`, column `y`.
pub open spec fn turn_source(i: int) -> int {
    (i % 5) * 5 + (4 - i / 5)
}

/// The cell that the top-bottom reflection brings to cell `i`.
pub open spec fn flip_source(i: int) -> int {
    (4 - i / 5) * 5 + i % 5
}

/// The word whose cell `i` holds cell `src(i)` of `w` for the 25 board
/// cells, every cell past the board empty.
pub open spec fn moved_word(w: u64, src: spec_fn(int) -> int) -> u64 {
    pack(Seq::new(32, |i: int| if i < 25 { cell(w, src(i)) } else { 0 }))
}

/// [`turn_source`] as a function value.
pub open spec fn turn_map() -> spec_fn(int) -> int {
    |i: int| turn_source(i)
}

/// [`flip_source`] as a function value.
pub open spec fn flip_map() -> spec_fn(int) -> int {
    |i: int| flip_source(i)
}

/// The word of a board turned a quarter: the 25 board cells moved by
/// [`turn_source`], every cell past the board empty.
pub open spec fn turned_word(w: u64) -> u64 {
    moved_word(w, turn_map())
}

/// The word of a board reflected top to bottom, every cell past the board empty.
pub open spec fn flipped_word(w: u64) -> u64 {
    moved_word(w, flip_map())
}

/// The cells of a moved word.
pub proof fn lemma_moved_cells(w: u64, src: spec_fn(int) -> int, i: int)
    requires
        0 <= i < 32,
    ensures
        cell(moved_word(w, src), i) == (if i < 25 { cell(w, src(i)) } else { 0 }),
{
    let s = Seq::new(32, |j: int| if j < 25 { cell(w, src(j)) } else { 0 });
    assert forall|j: int| 0 <= j < s.len() implies s[j] < 4 by {
        lemma_cell_bound(w, src(j));
    }
    lemma_cell_pack(s, i);
}

/// The cells of a turned word.
pub proof fn lemma_turned_cells(w: u64, i: int)
    requires
        0 <= i < 32,
    ensures
        cell(turned_word(w), i) == (if i < 25 { cell(w, turn_source(i)) } else { 0 }),
{
    lemma_moved_cells(w, turn_map(), i);
}

/// The cells of a flipped word.
pub proof fn lemma_flipped_cells(w: u64, i: int)
    requires
        0 <= i < 32,
    ensures
        cell(flipped_word(w), i) == (if i < 25 { cell(w, flip_source(i)) } else { 0 }),
{
    lemma_moved_cells(w, flip_map(), i);
}

/// The board word has nothing past its 25 cells.
pub open spec fn on_board(w: u64) -> bool {
    w >> 50u64 == 0
}

proof fn lemma_off_board_cells_u64(w: u64, i: u64)
    requires
        w >> 50u64 == 0,
        25 <= i < 32,
    ensures
        (w >> (2 * i) as u64) & 3 == 0,
{
    assert((w >> (2 * i) as u64) & 3 == 0) by (bit_vector)
        requires
            w >> 50u64 == 0,
            25 <= i < 32,
    ;
}

proof fn lemma_on_board_from_cells_u64(w: u64)
    requires
        (w >> 50u64) & 3 == 0,
        (w >> 52u64) & 3 == 0,
        (w >> 54u64) & 3 == 0,
        (w >> 56u64) & 3 == 0,
        (w >> 58u64) & 3 == 0,
        (w >> 60u64) & 3 == 0,
        (w >> 62u64) & 3 == 0,
    ensures
        w >> 50u64 == 0,
{
    assert(w >> 50u64 == 0) by (bit_vector)
        requires
            (w >> 50u64) & 3 == 0,
            (w >> 52u64) & 3 == 0,
            (w >> 54u64) & 3 == 0,
            (w >> 56u64) & 3 == 0,
            (w >> 58u64) & 3 == 0,
            (w >> 60u64) & 3 == 0,
            (w >> 62u64) & 3 == 0,
    ;
}

/// A word is on the board exactly when its cells 25 to 31 are empty.
pub proof fn lemma_on_board_cells(w: u64)
    ensures
        on_board(w) <==> forall|i: int| 25 <= i < 32 ==> #[trigger] cell(w, i) == 0,
{
    if on_board(w) {
        assert forall|i: int| 25 <= i < 32 implies #[trigger] cell(w, i) == 0 by {
            lemma_off_board_cells_u64(w, i as u64);
        }
    }
    if forall|i: int| 25 <= i < 32 ==> #[trigger] cell(w, i) == 0 {
        assert(cell(w, 25) == 0 && cell(w, 26) == 0 && cell(w, 27) == 0 && cell(w, 28) == 0
            && cell(w, 29) == 0 && cell(w, 30) == 0 && cell(w, 31) == 0);
        lemma_on_board_from_cells_u64(w);
    }
}

/// The code 0 is the only one that reads as an empty cell.
proof fn lemma_empty_code(c: u64)
    requires
        c < 4,
    ensures
        (state_of(c) == State::Empty) == (c == 0),
        state_of(c).code() == c,
{
}

proof fn lemma_row_copy_u64(a: u64, w: u64, y: u64, j: u64)
    requires
        y < 5,
        j < 32,
    ensures
        ((a | (((w >> (10 * y) as u64) & 0x3ff) << (40 - 10 * y) as u64)) >> (2 * j) as u64) & 3
            == (if 20 - 5 * y <= j < 25 - 5 * y {
            ((a >> (2 * j) as u64) & 3) | ((w >> (2 * (j + 10 * y - 20)) as u64) & 3)
        } else {
            (a >> (2 * j) as u64) & 3
        }),
{
    assert(((a | (((w >> (10 * y) as u64) & 0x3ff) << (40 - 10 * y) as u64)) >> (2 * j) as u64) & 3
        == (if 20 - 5 * y <= j < 25 - 5 * y {
        ((a >> (2 * j) as u64) & 3) | ((w >> (2 * (j + 10 * y - 20)) as u64) & 3)
    } else {
        (a >> (2 * j) as u64) & 3
    })) by (bit_vector)
        requires
            y < 5,
            j < 32,
    ;
}

/// Or-ing row `y` of `w` into row `4 - y` of `a` fills exactly that row.
proof fn lemma_row_copy(a: u64, w: u64, y: int, j: int)
    requires
        0 <= y < 5,
        0 <= j < 32,
    ensures
        cell(a | (((w >> ((10 * y) as u64)) & 0x3ff) << ((40 - 10 * y) as u64)), j) == (if 20 - 5
            * y <= j < 25 - 5 * y {
            cell(a, j) | cell(w, j + 10 * y - 20)
        } else {
            cell(a, j)
        }),
{
    lemma_row_copy_u64(a, w, y as u64, j as u64);
}

impl Board {
    /// The state of cell `i`.
    pub open spec fn at(self, i: int) -> State {
        state_of(cell(self.0, i))
    }

    /// The board turned a quarter.
    pub open spec fn turned(self) -> Board {
        Board(turned_word(self.0))
    }

    /// The board reflected top to bottom.
    pub open spec fn flipped(self) -> Board {
        Board(flipped_word(self.0))
    }

    /// The board with `player`'s code written into cell `i`.
    pub open spec fn placed(self, i: int, player: State) -> Board {
        Board(self.0 | (player.code() << ((2 * i) as u64)))
    }

    /// The empty board.
    pub fn new() -> (b: Board)
        ensures
            b.0 == 0,
            forall|i: int| 0 <= i < 32 ==> #[trigger] cell(b.0, i) == 0,
            forall|i: int| 0 <= i < 32 ==> #[trigger] b.at(i) == State::Empty,
    {
        proof {
            assert forall|i: int| 0 <= i < 32 implies #[trigger] cell(0, i) == 0 by {
                lemma_cell_zero(i);
            }
        }
        Board(0)
    }

    /// Puts `player` on the empty cell in row `y`, column `x`.
    #[must_use]
    pub fn set(self, y: usize, x: usize, player: State) -> (b: Board)
        requires
            y * 5 + x < 32,
            self.at(y * 5 + x) == State::Empty,
        ensures
            b == self.placed(y * 5 + x, player),
            forall|i: int|
                0 <= i < 32 ==> #[trigger] cell(b.0, i) == (if i == y * 5 + x {
                    player.code()
                } else {
                    cell(self.0, i)
                }),
    {
        let k: usize = y * 5 + x;
        let sh: usize = k << 1;
        assert(sh == 2 * k) by (bit_vector)
            requires
                k < 32,
                sh == k << 1,
        ;
        proof {
            lemma_cell_bound(self.0, k as int);
            lemma_empty_code(cell(self.0, k as int));
            lemma_state_of_code(player);
            assert forall|i: int| 0 <= i < 32 implies #[trigger] cell(
                self.0 | (player.code() << ((2 * k) as u64)),
                i,
            ) == (if i == k {
                player.code()
            } else {
                cell(self.0, i)
            }) by {
                lemma_cell_or(self.0, player.code(), k as int, i);
                if i == k {
                    let c = player.code();
                    lemma_zero_cell_ops(c, 0);
                }
            }
        }
        Board(self.0 | (player.bits() << (sh as u64)))
    }

    /// The state of the cell in row `y`, column `x`.
    pub fn get(self, y: usize, x: usize) -> (s: State)
        requires
            y * 5 + x < 32,
        ensures
            s == self.at(y * 5 + x),
    {
        let k: usize = y * 5 + x;
        let sh: usize = k << 1;
        assert(sh == 2 * k) by (bit_vector)
            requires
                k < 32,
                sh == k << 1,
        ;
        State::from((self.0 >> (sh as u64)) & 0b11)
    }

    /// Whether the cell in row `y`, column `x` is empty.
    pub fn is_available(self, y: usize, x: usize) -> (r: bool)
        requires
            y * 5 + x < 32,
        ensures
            r == (self.at(y * 5 + x) == State::Empty),
    {
        self.get(y, x) == State::Empty
    }

    /// The board turned a quarter: the stone at row `y`, column `x` moves to
    /// row `4 - x`, column `y`; whatever lies past the 25 cells is dropped.
    #[must_use]
    pub fn rotate_90(self) -> (b: Board)
        ensures
            b == self.turned(),
    {
        let ghost w = self.0;
        let mut ans = Board::new();
        let mut y: usize = 0;
        while y < 5
            invariant
                y <= 5,
                w == self.0,
                forall|j: int|
                    0 <= j < 32 ==> #[trigger] cell(ans.0, j) == (if j < 25 && turn_source(j)
                        < 5 * y {
                        cell(w, turn_source(j))
                    } else {
                        0
                    }),
            decreases 5 - y,
        {
            let mut x: usize = 0;
            while x < 5
                invariant
                    y < 5,
                    x <= 5,
                    w == self.0,
                    forall|j: int|
                        0 <= j < 32 ==> #[trigger] cell(ans.0, j) == (if j < 25 && turn_source(j)
                            < 5 * y + x {
                            cell(w, turn_source(j))
                        } else {
                            0
                        }),
                decreases 5 - x,
            {
                let d: usize = (5 - x - 1) * 5 + y;
                assert(turn_source(d as int) == 5 * y + x);
                let s = self.get(y, x);
                proof {
                    lemma_cell_bound(w, (5 * y + x) as int);
                    lemma_empty_code(cell(w, (5 * y + x) as int));
                    lemma_empty_code(cell(ans.0, d as int));
                }
                let next = ans.set(5 - x - 1, y, s);
                assert forall|j: int|
                    0 <= j < 32 implies #[trigger] cell(next.0, j) == (if j < 25 && turn_source(j)
                    < 5 * y + x + 1 {
                    cell(w, turn_source(j))
                } else {
                    0
                }) by {
                    if j == d {
                    } else if j < 25 && turn_source(j) == 5 * y + x {
                        assert(j == d);
                    }
                }
                ans = next;
                x = x + 1;
            }
            y = y + 1;
        }
        proof {
            assert forall|j: int| 0 <= j < 32 implies cell(ans.0, j) == cell(turned_word(w), j) by {
                lemma_turned_cells(w, j);
            }
            lemma_cells_determine(ans.0, turned_word(w));
        }
        ans
    }
    /// The board reflected top to bottom: row `y` moves to row `4 - y`;
    /// whatever lies past the 25 cells is dropped.
    #[must_use]
    pub fn mirrored(self) -> (b: Board)
        ensures
            b == self.flipped(),
    {
        let ghost w = self.0;
        let mut ans = Board::new();
        let mut y: u64 = 0;
        while y < 5
            invariant
                y <= 5,
                w == self.0,
                forall|j: int|
                    0 <= j < 32 ==> #[trigger] cell(ans.0, j) == (if j < 25 && 25 - 5 * y <= j {
                        cell(w, flip_source(j))
                    } else {
                        0
                    }),
            decreases 5 - y,
        {
            let next: u64 = ans.0 | (((self.0 >> (10 * y)) & 0b_11_11_11_11_11) << (40 - 10 * y));
            assert forall|j: int|
                0 <= j < 32 implies #[trigger] cell(next, j) == (if j < 25 && 25 - 5 * (y + 1) <= j {
                cell(w, flip_source(j))
            } else {
                0
            }) by {
                lemma_row_copy(ans.0, w, y as int, j);
                if 20 - 5 * y <= j < 25 - 5 * y {
                    assert(flip_source(j) == j + 10 * y - 20);
                    let c = cell(w, j + 10 * y - 20);
                    lemma_zero_cell_ops(c, 0);
                }
            }
            ans = Board(next);
            y = y + 1;
        }
        proof {
            assert forall|j: int| 0 <= j < 32 implies cell(ans.0, j) == cell(flipped_word(w), j) by {
                lemma_flipped_cells(w, j);
            }
            lemma_cells_determine(ans.0, flipped_word(w));
        }
        ans
    }
}

} // verus!
