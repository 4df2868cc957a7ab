//! Properties that hold across the board's operations and the search.
use vstd::prelude::*;
use crate::state::{State, lemma_state_of_code};
use crate::cells::{cell, lemma_cell_or, lemma_zero_cell_ops, lemma_cell_bound, lemma_cells_determine};
use crate::board::{
    Board,
    turn_source,
    flip_source,
    turned_word,
    flipped_word,
    lemma_turned_cells,
    lemma_flipped_cells,
    on_board,
    lemma_on_board_cells,
};
use crate::search::{Eval, search, reply, replies, lookup, memo_key, view_at};

verus! {

/// A quarter turn and a reflection leave nothing past the 25 cells.
pub proof fn law_symmetries_stay_on_board(w: u64)
    ensures
        on_board(turned_word(w)),
        on_board(flipped_word(w)),
{
    assert forall|i: int| 25 <= i < 32 implies #[trigger] cell(turned_word(w), i) == 0 by {
        lemma_turned_cells(w, i);
    }
    assert forall|i: int| 25 <= i < 32 implies #[trigger] cell(flipped_word(w), i) == 0 by {
        lemma_flipped_cells(w, i);
    }
    lemma_on_board_cells(turned_word(w));
    lemma_on_board_cells(flipped_word(w));
}

/// Four quarter turns give back a board that has nothing past its 25 cells.
pub proof fn law_four_turns(w: u64)
    requires
        on_board(w),
    ensures
        turned_word(turned_word(turned_word(turned_word(w)))) == w,
{
    let w1 = turned_word(w);
    let w2 = turned_word(w1);
    let w3 = turned_word(w2);
    let w4 = turned_word(w3);
    lemma_on_board_cells(w);
    assert forall|i: int| 0 <= i < 32 implies cell(w4, i) == cell(w, i) by {
        lemma_turned_cells(w3, i);
        if i < 25 {
            let a = i / 5;
            let b = i % 5;
            assert(i == 5 * a + b);
            let i1 = turn_source(i);
            assert(i1 == 5 * b + (4 - a));
            let i2 = turn_source(i1);
            assert(i2 == 5 * (4 - a) + (4 - b));
            let i3 = turn_source(i2);
            assert(i3 == 5 * (4 - b) + a);
            assert(turn_source(i3) == i);
            lemma_turned_cells(w2, i1);
            lemma_turned_cells(w1, i2);
            lemma_turned_cells(w, i3);
        }
    }
    lemma_cells_determine(w4, w);
}

/// Two reflections give back a board that has nothing past its 25 cells.
pub proof fn law_two_flips(w: u64)
    requires
        on_board(w),
    ensures
        flipped_word(flipped_word(w)) == w,
{
    let w1 = flipped_word(w);
    let w2 = flipped_word(w1);
    lemma_on_board_cells(w);
    assert forall|i: int| 0 <= i < 32 implies cell(w2, i) == cell(w, i) by {
        lemma_flipped_cells(w1, i);
        if i < 25 {
            let a = i / 5;
            let b = i % 5;
            assert(i == 5 * a + b);
            let i1 = flip_source(i);
            assert(i1 == 5 * (4 - a) + b);
            assert(flip_source(i1) == i);
            lemma_flipped_cells(w, i1);
        }
    }
    lemma_cells_determine(w2, w);
}

/// A board with nothing past its 25 cells is stored under itself: the eight
/// views looked up before storing come back round to the board.
pub proof fn law_memo_key_is_board(w: u64)
    requires
        on_board(w),
    ensures
        memo_key(w) == w,
{
    reveal_with_fuel(view_at, 8);
    law_four_turns(w);
    let f = flipped_word(w);
    law_symmetries_stay_on_board(w);
    law_four_turns(f);
    law_two_flips(w);
}

/// Placing a stone on an empty cell puts it there and leaves every other
/// cell as it was.
pub proof fn law_get_after_set(b: Board, i: int, p: State)
    requires
        0 <= i < 32,
        b.at(i) == State::Empty,
    ensures
        b.placed(i, p).at(i) == p,
        forall|j: int| 0 <= j < 32 && j != i ==> #[trigger] b.placed(i, p).at(j) == b.at(j),
{
    lemma_cell_bound(b.0, i);
    lemma_state_of_code(p);
    lemma_cell_or(b.0, p.code(), i, i);
    let c = p.code();
    lemma_zero_cell_ops(c, 0);
    assert forall|j: int| 0 <= j < 32 && j != i implies #[trigger] b.placed(i, p).at(j) == b.at(j) by {
        lemma_cell_or(b.0, p.code(), i, j);
    }
}

/// Every stored value is a win, a draw or a loss.
pub open spec fn unit_values(memo: Map<u64, Eval>) -> bool {
    forall|k: u64| memo.contains_key(k) ==> -1 <= #[trigger] memo[k].value <= 1
}

proof fn lemma_lookup_values(memo: Map<u64, Eval>, w: u64, k: nat)
    requires
        unit_values(memo),
    ensures
        lookup(memo, w, k) matches Some(e) ==> -1 <= e.value <= 1,
    decreases 8 - k,
{
    if k < 8 {
        lemma_lookup_values(memo, w, k + 1);
    }
}

/// From a memo table holding wins, draws and losses only, the search
/// returns a win, a draw or a loss, and the table holds only those after it.
pub proof fn law_search_values(w: u64, memo: Map<u64, Eval>, depth: nat)
    requires
        unit_values(memo),
    ensures
        -1 <= search(w, memo, depth).0 <= 1,
        unit_values(search(w, memo, depth).1),
    decreases 12 - depth, 30int,
{
    if depth <= 11 {
        lemma_lookup_values(memo, w, 0);
        let cur = crate::search::player_at(depth);
        if crate::rules::verdict(w, cur) == State::Empty && lookup(memo, w, 0) is None {
            let key = memo_key(w);
            match crate::rules::open_two_choice(key, cur) {
                Some(ends) => {
                    lemma_reply_values(key, depth, memo, -1i8, ends.0.0, ends.0.1);
                    let first = reply(key, depth, memo, -1i8, ends.0.0, ends.0.1);
                    lemma_reply_values(key, depth, first.2, first.1, ends.1.0, ends.1.1);
                },
                None => {
                    lemma_replies_values(key, depth, memo, -1i8, 0);
                },
            }
        }
    }
}

proof fn lemma_reply_values(key: u64, depth: nat, memo: Map<u64, Eval>, value: i8, y: usize, x: usize)
    requires
        unit_values(memo),
        -1 <= value <= 1,
    ensures
        -1 <= reply(key, depth, memo, value, y, x).1 <= 1,
        unit_values(reply(key, depth, memo, value, y, x).2),
    decreases 12 - depth, 1int,
{
    if !(depth > 11 || y * 5 + x >= 32 || Board(key).at(y * 5 + x) != State::Empty) {
        law_search_values(
            Board(key).placed(y * 5 + x, crate::search::player_at(depth)).0,
            memo,
            depth + 1,
        );
    }
}

proof fn lemma_replies_values(key: u64, depth: nat, memo: Map<u64, Eval>, value: i8, k: nat)
    requires
        unit_values(memo),
        -1 <= value <= 1,
    ensures
        -1 <= replies(key, depth, memo, value, k).0 <= 1,
        unit_values(replies(key, depth, memo, value, k).1),
    decreases 12 - depth, 27 - k,
{
    if k < 25 {
        lemma_reply_values(key, depth, memo, value, (k / 5) as usize, (k % 5) as usize);
        let r = reply(key, depth, memo, value, (k / 5) as usize, (k % 5) as usize);
        if !r.0 {
            lemma_replies_values(key, depth, r.2, r.1, k + 1);
        }
    }
}

/// The search only adds entries to the memo table: every key stored before
/// is stored after.
pub proof fn law_search_keeps_keys(w: u64, memo: Map<u64, Eval>, depth: nat)
    ensures
        memo.dom().subset_of(search(w, memo, depth).1.dom()),
    decreases 12 - depth, 30int,
{
    if depth <= 11 {
        let cur = crate::search::player_at(depth);
        if crate::rules::verdict(w, cur) == State::Empty && lookup(memo, w, 0) is None {
            let key = memo_key(w);
            match crate::rules::open_two_choice(key, cur) {
                Some(ends) => {
                    lemma_reply_keeps_keys(key, depth, memo, -1i8, ends.0.0, ends.0.1);
                    let first = reply(key, depth, memo, -1i8, ends.0.0, ends.0.1);
                    lemma_reply_keeps_keys(key, depth, first.2, first.1, ends.1.0, ends.1.1);
                },
                None => {
                    lemma_replies_keeps_keys(key, depth, memo, -1i8, 0);
                },
            }
        }
    }
}

proof fn lemma_reply_keeps_keys(key: u64, depth: nat, memo: Map<u64, Eval>, value: i8, y: usize, x: usize)
    ensures
        memo.dom().subset_of(reply(key, depth, memo, value, y, x).2.dom()),
    decreases 12 - depth, 1int,
{
    if !(depth > 11 || y * 5 + x >= 32 || Board(key).at(y * 5 + x) != State::Empty) {
        law_search_keeps_keys(
            Board(key).placed(y * 5 + x, crate::search::player_at(depth)).0,
            memo,
            depth + 1,
        );
    }
}

proof fn lemma_replies_keeps_keys(key: u64, depth: nat, memo: Map<u64, Eval>, value: i8, k: nat)
    ensures
        memo.dom().subset_of(replies(key, depth, memo, value, k).1.dom()),
    decreases 12 - depth, 27 - k,
{
    if k < 25 {
        lemma_reply_keeps_keys(key, depth, memo, value, (k / 5) as usize, (k % 5) as usize);
        let r = reply(key, depth, memo, value, (k / 5) as usize, (k % 5) as usize);
        if !r.0 {
            lemma_replies_keeps_keys(key, depth, r.2, r.1, k + 1);
        }
    }
}

/// A search that neither finds the position decided nor finds one of its
/// views stored leaves the returned value stored under the board itself,
/// when the board has nothing past its 25 cells.
pub proof fn law_search_stores_result(w: u64, memo: Map<u64, Eval>, depth: nat)
    requires
        on_board(w),
        depth <= 11,
        crate::rules::verdict(w, crate::search::player_at(depth)) == State::Empty,
        lookup(memo, w, 0) is None,
    ensures
        search(w, memo, depth).1.contains_key(w),
        search(w, memo, depth).1[w] == (Eval { value: search(w, memo, depth).0 }),
{
    law_memo_key_is_board(w);
}

/// The table `new` keeps every entry of `old` unchanged, and every key it
/// adds holds all the stones of `w`.
pub open spec fn extends_table(old: Map<u64, Eval>, new: Map<u64, Eval>, w: u64) -> bool {
    &&& forall|k: u64| #[trigger] old.contains_key(k) ==> new.contains_key(k) && new[k] == old[k]
    &&& forall|k: u64| #[trigger] new.contains_key(k) && !old.contains_key(k) ==> k & w == w
}

proof fn lemma_stone_facts(k: u64, c: u64, w: u64, x: u64)
    ensures
        (w | x) & w == w,
        w & w == w,
        (k & c == c && c & w == w) ==> k & w == w,
{
    assert((w | x) & w == w && w & w == w && ((k & c == c && c & w == w) ==> k & w == w))
        by (bit_vector);
}

proof fn lemma_extends_table_trans(m0: Map<u64, Eval>, m1: Map<u64, Eval>, m2: Map<u64, Eval>, w: u64)
    requires
        extends_table(m0, m1, w),
        extends_table(m1, m2, w),
    ensures
        extends_table(m0, m2, w),
{
    assert forall|k: u64| #[trigger] m2.contains_key(k) && !m0.contains_key(k) implies k & w == w by {
        if m1.contains_key(k) {
        } else {
        }
    }
}

proof fn lemma_extends_table_weaken(m0: Map<u64, Eval>, m1: Map<u64, Eval>, c: u64, w: u64)
    requires
        extends_table(m0, m1, c),
        c & w == w,
    ensures
        extends_table(m0, m1, w),
{
    assert forall|k: u64| #[trigger] m1.contains_key(k) && !m0.contains_key(k) implies k & w == w by {
        lemma_stone_facts(k, c, w, 0);
    }
}

/// The search never removes or overwrites a stored entry, and every entry it
/// adds is for the board itself or a position that extends it, when the
/// board has nothing past its 25 cells.
pub proof fn law_search_extends_memo(w: u64, memo: Map<u64, Eval>, depth: nat)
    requires
        on_board(w),
    ensures
        extends_table(memo, search(w, memo, depth).1, w),
    decreases 12 - depth, 30int,
{
    if depth <= 11 {
        let cur = crate::search::player_at(depth);
        if crate::rules::verdict(w, cur) == State::Empty && lookup(memo, w, 0) is None {
            law_memo_key_is_board(w);
            let key = memo_key(w);
            assert(view_at(w, 0) == w);
            assert(!memo.contains_key(w));
            let r = match crate::rules::open_two_choice(key, cur) {
                Some(ends) => {
                    crate::rules::lemma_first_open_two_on_board(key, 0, 0);
                    crate::rules::lemma_first_open_two_on_board(key, 1, 0);
                    lemma_reply_extends(key, depth, memo, -1i8, ends.0.0, ends.0.1);
                    let first = reply(key, depth, memo, -1i8, ends.0.0, ends.0.1);
                    if first.0 {
                        (first.1, first.2, first.3)
                    } else {
                        lemma_reply_extends(key, depth, first.2, first.1, ends.1.0, ends.1.1);
                        let second = reply(key, depth, first.2, first.1, ends.1.0, ends.1.1);
                        lemma_extends_table_trans(memo, first.2, second.2, w);
                        (second.1, second.2, first.3 + second.3)
                    }
                },
                None => {
                    lemma_replies_extends(key, depth, memo, -1i8, 0);
                    replies(key, depth, memo, -1i8, 0)
                },
            };
            assert(extends_table(memo, r.1, w));
            lemma_stone_facts(w, w, w, 0);
            let fin = r.1.insert(key, Eval { value: r.0 });
            assert(fin == search(w, memo, depth).1);
            assert forall|k: u64| #[trigger] fin.contains_key(k) && !memo.contains_key(k) implies k
                & w == w by {
                if k != w {
                    assert(r.1.contains_key(k));
                }
            }
        }
    }
}

proof fn lemma_reply_extends(key: u64, depth: nat, memo: Map<u64, Eval>, value: i8, y: usize, x: usize)
    requires
        on_board(key),
        y < 5,
        x < 5,
    ensures
        extends_table(memo, reply(key, depth, memo, value, y, x).2, key),
    decreases 12 - depth, 1int,
{
    if !(depth > 11 || y * 5 + x >= 32 || Board(key).at(y * 5 + x) != State::Empty) {
        let i = (y * 5 + x) as int;
        let code = crate::search::player_at(depth).code();
        let c = Board(key).placed(i, crate::search::player_at(depth)).0;
        lemma_state_of_code(crate::search::player_at(depth));
        lemma_on_board_cells(key);
        assert forall|j: int| 25 <= j < 32 implies #[trigger] cell(c, j) == 0 by {
            lemma_cell_or(key, code, i, j);
        }
        lemma_on_board_cells(c);
        law_search_extends_memo(c, memo, depth + 1);
        lemma_stone_facts(0, 0, key, code << ((2 * i) as u64));
        lemma_extends_table_weaken(memo, reply(key, depth, memo, value, y, x).2, c, key);
    }
}

proof fn lemma_replies_extends(key: u64, depth: nat, memo: Map<u64, Eval>, value: i8, k: nat)
    requires
        on_board(key),
    ensures
        extends_table(memo, replies(key, depth, memo, value, k).1, key),
    decreases 12 - depth, 27 - k,
{
    if k < 25 {
        lemma_reply_extends(key, depth, memo, value, (k / 5) as usize, (k % 5) as usize);
        let r = reply(key, depth, memo, value, (k / 5) as usize, (k % 5) as usize);
        if !r.0 {
            lemma_replies_extends(key, depth, r.2, r.1, k + 1);
            lemma_extends_table_trans(memo, r.2, replies(key, depth, r.2, r.1, k + 1).1, key);
        }
    }
}

/// The player to move wins a position in which it holds the three middle
/// cells of a line of [`LINE3`] with at most one end taken by the other
/// player, when nobody has four and the board is not full, whatever threes
/// the other player has.
pub proof fn law_settled_mover_three_wins(w: u64, cur: State, i: int)
    requires
        cur == State::P1 || cur == State::P2,
        0 <= i < 8,
        !crate::rules::has_four(w, 0),
        !crate::rules::has_four(w, 1),
        crate::lines::popcount(w) != 25,
        crate::rules::half_open_three_at(w, cur, i),
    ensures
        crate::rules::verdict(w, cur) == cur,
{
}

/// When both players have an open two, the search answers the first open
/// two of the player to move: if playing on one of its (empty) ends makes a
/// position the player to move has won, the position is a win (1) for the
/// player to move.
pub proof fn law_search_extends_own_open_two(w: u64, memo: Map<u64, Eval>, depth: nat, end: (usize, usize))
    requires
        on_board(w),
        depth <= 10,
        unit_values(memo),
        crate::rules::verdict(w, crate::search::player_at(depth)) == State::Empty,
        lookup(memo, w, 0) is None,
        crate::rules::first_open_two(w, 0, 0) is Some,
        crate::rules::first_open_two(w, 1, 0) is Some,
        ({
            let own = crate::rules::first_open_two(w, (depth % 2) as u64, 0)->Some_0;
            end == own.0 || end == own.1
        }),
        Board(w).at(end.0 * 5 + end.1) == State::Empty,
        crate::rules::verdict(
            Board(w).placed(end.0 * 5 + end.1, crate::search::player_at(depth)).0,
            crate::search::player_at(depth + 1),
        ) == crate::search::player_at(depth),
    ensures
        search(w, memo, depth).0 == 1,
{
    let cur = crate::search::player_at(depth);
    let own = crate::rules::first_open_two(w, (depth % 2) as u64, 0)->Some_0;
    law_memo_key_is_board(w);
    crate::rules::lemma_first_open_two_on_board(w, 0, 0);
    crate::rules::lemma_first_open_two_on_board(w, 1, 0);
    assert(crate::rules::open_two_choice(w, cur) == Some(own));
    let first = reply(w, depth, memo, -1i8, own.0.0, own.0.1);
    lemma_reply_values(w, depth, memo, -1i8, own.0.0, own.0.1);
    if end == own.0 {
        assert(first.0 && first.1 == 1);
    } else if !first.0 {
        let second = reply(w, depth, first.2, first.1, own.1.0, own.1.1);
        assert(second.1 == 1);
    }
}

} // verus!
