//! When a position is decided, and which two-stone line asks for an answer.
use vstd::prelude::*;
use crate::state::State;
use crate::board::Board;
use crate::lines::{LINE, LINE2, LINE3, popcount, count_ones, lemma_line2_ends_on_board};

verus! {

/// Player `p` (0 for the first, 1 for the second) holds all four cells of line `i`.
pub open spec fn four_at(w: u64, p: u64, i: int) -> bool {
    popcount((w >> p) & LINE[i]) >= 4
}

/// Player `p` holds all four cells of some line.
pub open spec fn has_four(w: u64, p: u64) -> bool {
    exists|i: int| 0 <= i < 28 && #[trigger] four_at(w, p, i)
}

/// The player to move, `cur`, holds the three middle cells of line `i` and
/// at most one of its two ends is taken by the other player.
pub open spec fn half_open_three_at(w: u64, cur: State, i: int) -> bool {
    &&& popcount((w >> ((cur.code() - 1) as u64)) & LINE3[i].0) == 3
    &&& popcount(w & (LINE3[i].1 << (cur.code() & 1))) <= 1
}

/// Player `p` holds the three middle cells of line `i` and both its ends are empty.
pub open spec fn open_three_at(w: u64, p: u64, i: int) -> bool {
    &&& popcount((w >> p) & LINE3[i].0) == 3
    &&& popcount(w & (LINE3[i].1 | (LINE3[i].1 << 1u64))) == 0
}

/// Player `p` has some open three.
pub open spec fn has_open_three(w: u64, p: u64) -> bool {
    exists|i: int| 0 <= i < 8 && #[trigger] open_three_at(w, p, i)
}

/// Line `i` holds no stone of one of the players, so that player may still fill it.
pub open spec fn line_open_at(w: u64, i: int) -> bool {
    popcount(w & LINE[i]) == 0 || popcount((w >> 1u64) & LINE[i]) == 0
}

/// The game is decided before the player to move is looked at.
pub open spec fn decided_early(w: u64) -> bool {
    has_four(w, 0) || has_four(w, 1) || popcount(w) == 25
}

/// The verdict on the board word `w` with `cur` to move: a player with four
/// in a line wins (the first player looked at first); a board with 25 bits
/// set is drawn; the player to move wins with a three that is open on at
/// least one side; then an open three wins (the player to move first); a
/// board where some line can still be filled by one player goes on
/// (`Empty`); any other board is drawn.
pub open spec fn verdict(w: u64, cur: State) -> State {
    if has_four(w, 0) {
        State::P1
    } else if has_four(w, 1) {
        State::P2
    } else if popcount(w) == 25 {
        State::Draw
    } else if exists|i: int| 0 <= i < 8 && #[trigger] half_open_three_at(w, cur, i) {
        cur
    } else if has_open_three(w, 0) && has_open_three(w, 1) {
        cur
    } else if has_open_three(w, 0) {
        State::P1
    } else if has_open_three(w, 1) {
        State::P2
    } else if exists|i: int| 0 <= i < 28 && #[trigger] line_open_at(w, i) {
        State::Empty
    } else {
        State::Draw
    }
}

/// Line `i` of [`LINE2`] holds two stones of player `p` with both ends and
/// both cells beyond them empty.
pub open spec fn open_two_at(w: u64, p: u64, i: int) -> bool {
    &&& popcount((w >> p) & LINE2[i].0) == 2
    &&& popcount(w & (LINE2[i].1 | (LINE2[i].1 << 1u64))) == 0
}

/// The ends of the first line from index `k` on where player `p` has an open two.
pub open spec fn first_open_two(w: u64, p: u64, k: nat) -> Option<((usize, usize), (usize, usize))>
    decreases 24 - k,
{
    if k >= 24 {
        None
    } else if open_two_at(w, p, k as int) {
        Some((LINE2[k as int].2, LINE2[k as int].3))
    } else {
        first_open_two(w, p, k + 1)
    }
}

/// The open two that the player to move should extend or block: the first
/// one of the player to move when both players have one, else the first one
/// of whichever player has one.
pub open spec fn open_two_choice(w: u64, cur: State) -> Option<((usize, usize), (usize, usize))> {
    let a = first_open_two(w, 0, 0);
    let b = first_open_two(w, 1, 0);
    if a is Some && b is Some {
        if cur == State::P1 {
            a
        } else {
            b
        }
    } else if a is Some {
        a
    } else {
        b
    }
}

/// The ends that [`first_open_two`] names lie on the board.
pub proof fn lemma_first_open_two_on_board(w: u64, p: u64, k: nat)
    ensures
        first_open_two(w, p, k) matches Some(ends) ==> ends.0.0 < 5 && ends.0.1 < 5 && ends.1.0
            < 5 && ends.1.1 < 5,
    decreases 24 - k,
{
    if k < 24 {
        lemma_line2_ends_on_board(k as int);
        lemma_first_open_two_on_board(w, p, k + 1);
    }
}

impl Board {
    /// Player `p` holds all four cells of some line.
    fn four_in_line(self, p: u64) -> (r: bool)
        requires
            p < 2,
        ensures
            r == has_four(self.0, p),
    {
        let mut i: usize = 0;
        while i < 28
            invariant
                i <= 28,
                p < 2,
                forall|j: int| 0 <= j < i ==> !#[trigger] four_at(self.0, p, j),
            decreases 28 - i,
        {
            let line = LINE[i];
            if count_ones((self.0 >> p) & line) >= 4 {
                assert(four_at(self.0, p, i as int));
                return true;
            }
            i = i + 1;
        }
        false
    }

    /// Player `p` has an open three.
    fn open_three(self, p: u64) -> (r: bool)
        requires
            p < 2,
        ensures
            r == has_open_three(self.0, p),
    {
        let mut i: usize = 0;
        while i < 8
            invariant
                i <= 8,
                p < 2,
                forall|j: int| 0 <= j < i ==> !#[trigger] open_three_at(self.0, p, j),
            decreases 8 - i,
        {
            let (line, line_end) = LINE3[i];
            if count_ones((self.0 >> p) & line) == 3 && count_ones(
                self.0 & (line_end | (line_end << 1)),
            ) == 0 {
                assert(open_three_at(self.0, p, i as int));
                return true;
            }
            i = i + 1;
        }
        false
    }

    /// Who has won, with `cur_player` to move: `Empty` while the game goes
    /// on, `Draw` when neither player can still win.
    pub fn settled(self, cur_player: State) -> (s: State)
        requires
            cur_player != State::Empty || decided_early(self.0),
        ensures
            s == verdict(self.0, cur_player),
    {
        // four in a line
        if self.four_in_line(0) {
            return State::P1;
        }
        if self.four_in_line(1) {
            return State::P2;
        }
        // every cell taken otherwise: a draw
        if count_ones(self.0) == 25 {
            return State::Draw;
        }
        // a three of the player to move, blocked on one side at most
        let mut i: usize = 0;
        while i < 8
            invariant
                i <= 8,
                cur_player != State::Empty,
                !has_four(self.0, 0),
                !has_four(self.0, 1),
                popcount(self.0) != 25,
                forall|j: int|
                    0 <= j < i ==> !#[trigger] half_open_three_at(self.0, cur_player, j),
            decreases 8 - i,
        {
            let (line, line_end) = LINE3[i];
            let code: u64 = cur_player.bits();
            assert(code & 1 <= 1) by (bit_vector);
            if count_ones((self.0 >> (code - 1)) & line) == 3 && count_ones(
                self.0 & (line_end << (code & 1)),
            ) <= 1 {
                assert(half_open_three_at(self.0, cur_player, i as int));
                return cur_player;
            }
            i = i + 1;
        }
        // open threes
        let first = self.open_three(0);
        let second = self.open_three(1);
        if first && second {
            return cur_player;
        } else if first {
            return State::P1;
        } else if second {
            return State::P2;
        }
        // some line can still be completed by one of the players
        let mut k: usize = 0;
        while k < 28
            invariant
                k <= 28,
                !has_four(self.0, 0),
                !has_four(self.0, 1),
                popcount(self.0) != 25,
                !(exists|i: int| 0 <= i < 8 && #[trigger] half_open_three_at(self.0, cur_player, i)),
                !has_open_three(self.0, 0),
                !has_open_three(self.0, 1),
                forall|j: int| 0 <= j < k ==> !#[trigger] line_open_at(self.0, j),
            decreases 28 - k,
        {
            let line = LINE[k];
            if count_ones(self.0 & line) == 0 || count_ones((self.0 >> 1) & line) == 0 {
                assert(line_open_at(self.0, k as int));
                return State::Empty;
            }
            k = k + 1;
        }
        // every line holds stones of both players
        State::Draw
    }

    /// The first open two of player `p` from [`LINE2`], by its two ends.
    fn first_two(self, p: u64) -> (r: Option<((usize, usize), (usize, usize))>)
        requires
            p < 2,
        ensures
            r == first_open_two(self.0, p, 0),
    {
        let mut i: usize = 0;
        while i < 24
            invariant
                i <= 24,
                p < 2,
                first_open_two(self.0, p, 0) == first_open_two(self.0, p, i as nat),
            decreases 24 - i,
        {
            let (line, line_end, start, end) = LINE2[i];
            if count_ones((self.0 >> p) & line) == 2 && count_ones(
                self.0 & (line_end | (line_end << 1)),
            ) == 0 {
                return Some((start, end));
            }
            i = i + 1;
        }
        None
    }

    /// The open two to answer, by its two ends: the first open two of the
    /// player to move if both players have one, else the first open two of
    /// whichever player has one. The choice is not exhaustive: a two on a
    /// line of only four cells is taken as well.
    pub fn has_free2(self, cur_player: State) -> (r: Option<((usize, usize), (usize, usize))>)
        requires
            first_open_two(self.0, 0, 0) is Some && first_open_two(self.0, 1, 0) is Some
                ==> cur_player == State::P1 || cur_player == State::P2,
        ensures
            r == open_two_choice(self.0, cur_player),
            r matches Some(ends) ==> ends.0.0 < 5 && ends.0.1 < 5 && ends.1.0 < 5 && ends.1.1 < 5,
    {
        let first = self.first_two(0);
        let second = self.first_two(1);
        proof {
            lemma_first_open_two_on_board(self.0, 0, 0);
            lemma_first_open_two_on_board(self.0, 1, 0);
        }
        if first.is_some() && second.is_some() {
            // both have one: extending one's own wins
            if cur_player == State::P1 {
                first
            } else {
                second
            }
        } else if first.is_some() {
            // only one player has one: both sides go for it
            first
        } else if second.is_some() {
            second
        } else {
            None
        }
    }
}

} // verus!
