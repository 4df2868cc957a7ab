//! The verdict stated over the cells of the board.
use vstd::prelude::*;
use crate::state::{State, state_of};
use crate::cells::{cell, lemma_cell_select, lemma_cell_bitwise, lemma_cell_shl1, lemma_cells_determine, lemma_cell_bound, low_cells};
use crate::board::Board;
use crate::lines::{LINE3, popcount, code_bits, cell_sum, lemma_popcount_cells};
use crate::rules::{has_four, half_open_three_at, verdict};

verus! {

/// The three middle cells of line `i` of [`LINE3`].
pub open spec fn three_cells(i: int) -> Seq<int> {
    seq![seq![6int, 7int, 8int], seq![11int, 12int, 13int], seq![16int, 17int, 18int], seq![6int, 11int, 16int], seq![7int, 12int, 17int], seq![8int, 13int, 18int], seq![6int, 12int, 18int], seq![8int, 12int, 16int]][i]
}

/// The two end cells of line `i` of [`LINE3`].
pub open spec fn end_cells(i: int) -> Seq<int> {
    seq![seq![5int, 9int], seq![10int, 14int], seq![15int, 19int], seq![1int, 21int], seq![2int, 22int], seq![3int, 23int], seq![0int, 24int], seq![4int, 20int]][i]
}

proof fn lemma_line3_masks_u64(c: u64)
    requires
        c < 32,
    ensures
        ((0b00_00_00_00_00_00_00_00_00_00_00_00_00_00_00_00_01_01_01_00_00_00_00_00_00u64 >> (2 * c) as u64) & 3 == (if c == 6 || c == 7 || c == 8 { 1u64 } else { 0u64 }))
            && ((0b00_00_00_00_00_00_00_00_00_00_00_00_00_00_00_01_00_00_00_01_00_00_00_00_00u64 >> (2 * c) as u64) & 3 == (if c == 5 || c == 9 { 1u64 } else { 0u64 }))
            && ((0b00_00_00_00_00_00_00_00_00_00_00_01_01_01_00_00_00_00_00_00_00_00_00_00_00u64 >> (2 * c) as u64) & 3 == (if c == 11 || c == 12 || c == 13 { 1u64 } else { 0u64 }))
            && ((0b00_00_00_00_00_00_00_00_00_00_01_00_00_00_01_00_00_00_00_00_00_00_00_00_00u64 >> (2 * c) as u64) & 3 == (if c == 10 || c == 14 { 1u64 } else { 0u64 }))
            && ((0b00_00_00_00_00_00_01_01_01_00_00_00_00_00_00_00_00_00_00_00_00_00_00_00_00u64 >> (2 * c) as u64) & 3 == (if c == 16 || c == 17 || c == 18 { 1u64 } else { 0u64 }))
            && ((0b00_00_00_00_00_01_00_00_00_01_00_00_00_00_00_00_00_00_00_00_00_00_00_00_00u64 >> (2 * c) as u64) & 3 == (if c == 15 || c == 19 { 1u64 } else { 0u64 }))
            && ((0b00_00_00_00_00_00_00_00_01_00_00_00_00_01_00_00_00_00_01_00_00_00_00_00_00u64 >> (2 * c) as u64) & 3 == (if c == 6 || c == 11 || c == 16 { 1u64 } else { 0u64 }))
            && ((0b00_00_00_01_00_00_00_00_00_00_00_00_00_00_00_00_00_00_00_00_00_00_00_01_00u64 >> (2 * c) as u64) & 3 == (if c == 1 || c == 21 { 1u64 } else { 0u64 }))
            && ((0b00_00_00_00_00_00_00_01_00_00_00_00_01_00_00_00_00_01_00_00_00_00_00_00_00u64 >> (2 * c) as u64) & 3 == (if c == 7 || c == 12 || c == 17 { 1u64 } else { 0u64 }))
            && ((0b00_00_01_00_00_00_00_00_00_00_00_00_00_00_00_00_00_00_00_00_00_00_01_00_00u64 >> (2 * c) as u64) & 3 == (if c == 2 || c == 22 { 1u64 } else { 0u64 }))
            && ((0b00_00_00_00_00_00_01_00_00_00_00_01_00_00_00_00_01_00_00_00_00_00_00_00_00u64 >> (2 * c) as u64) & 3 == (if c == 8 || c == 13 || c == 18 { 1u64 } else { 0u64 }))
            && ((0b00_01_00_00_00_00_00_00_00_00_00_00_00_00_00_00_00_00_00_00_00_01_00_00_00u64 >> (2 * c) as u64) & 3 == (if c == 3 || c == 23 { 1u64 } else { 0u64 }))
            && ((0b00_00_00_00_00_00_01_00_00_00_00_00_01_00_00_00_00_00_01_00_00_00_00_00_00u64 >> (2 * c) as u64) & 3 == (if c == 6 || c == 12 || c == 18 { 1u64 } else { 0u64 }))
            && ((0b01_00_00_00_00_00_00_00_00_00_00_00_00_00_00_00_00_00_00_00_00_00_00_00_01u64 >> (2 * c) as u64) & 3 == (if c == 0 || c == 24 { 1u64 } else { 0u64 }))
            && ((0b00_00_00_00_00_00_00_00_01_00_00_00_01_00_00_00_01_00_00_00_00_00_00_00_00u64 >> (2 * c) as u64) & 3 == (if c == 8 || c == 12 || c == 16 { 1u64 } else { 0u64 }))
            && ((0b00_00_00_00_01_00_00_00_00_00_00_00_00_00_00_00_00_00_00_00_01_00_00_00_00u64 >> (2 * c) as u64) & 3 == (if c == 4 || c == 20 { 1u64 } else { 0u64 })),
{
    assert(((0b00_00_00_00_00_00_00_00_00_00_00_00_00_00_00_00_01_01_01_00_00_00_00_00_00u64 >> (2 * c) as u64) & 3 == (if c == 6 || c == 7 || c == 8 { 1u64 } else { 0u64 }))
        && ((0b00_00_00_00_00_00_00_00_00_00_00_00_00_00_00_01_00_00_00_01_00_00_00_00_00u64 >> (2 * c) as u64) & 3 == (if c == 5 || c == 9 { 1u64 } else { 0u64 }))
        && ((0b00_00_00_00_00_00_00_00_00_00_00_01_01_01_00_00_00_00_00_00_00_00_00_00_00u64 >> (2 * c) as u64) & 3 == (if c == 11 || c == 12 || c == 13 { 1u64 } else { 0u64 }))
        && ((0b00_00_00_00_00_00_00_00_00_00_01_00_00_00_01_00_00_00_00_00_00_00_00_00_00u64 >> (2 * c) as u64) & 3 == (if c == 10 || c == 14 { 1u64 } else { 0u64 }))
        && ((0b00_00_00_00_00_00_01_01_01_00_00_00_00_00_00_00_00_00_00_00_00_00_00_00_00u64 >> (2 * c) as u64) & 3 == (if c == 16 || c == 17 || c == 18 { 1u64 } else { 0u64 }))
        && ((0b00_00_00_00_00_01_00_00_00_01_00_00_00_00_00_00_00_00_00_00_00_00_00_00_00u64 >> (2 * c) as u64) & 3 == (if c == 15 || c == 19 { 1u64 } else { 0u64 }))
        && ((0b00_00_00_00_00_00_00_00_01_00_00_00_00_01_00_00_00_00_01_00_00_00_00_00_00u64 >> (2 * c) as u64) & 3 == (if c == 6 || c == 11 || c == 16 { 1u64 } else { 0u64 }))
        && ((0b00_00_00_01_00_00_00_00_00_00_00_00_00_00_00_00_00_00_00_00_00_00_00_01_00u64 >> (2 * c) as u64) & 3 == (if c == 1 || c == 21 { 1u64 } else { 0u64 }))
        && ((0b00_00_00_00_00_00_00_01_00_00_00_00_01_00_00_00_00_01_00_00_00_00_00_00_00u64 >> (2 * c) as u64) & 3 == (if c == 7 || c == 12 || c == 17 { 1u64 } else { 0u64 }))
        && ((0b00_00_01_00_00_00_00_00_00_00_00_00_00_00_00_00_00_00_00_00_00_00_01_00_00u64 >> (2 * c) as u64) & 3 == (if c == 2 || c == 22 { 1u64 } else { 0u64 }))
        && ((0b00_00_00_00_00_00_01_00_00_00_00_01_00_00_00_00_01_00_00_00_00_00_00_00_00u64 >> (2 * c) as u64) & 3 == (if c == 8 || c == 13 || c == 18 { 1u64 } else { 0u64 }))
        && ((0b00_01_00_00_00_00_00_00_00_00_00_00_00_00_00_00_00_00_00_00_00_01_00_00_00u64 >> (2 * c) as u64) & 3 == (if c == 3 || c == 23 { 1u64 } else { 0u64 }))
        && ((0b00_00_00_00_00_00_01_00_00_00_00_00_01_00_00_00_00_00_01_00_00_00_00_00_00u64 >> (2 * c) as u64) & 3 == (if c == 6 || c == 12 || c == 18 { 1u64 } else { 0u64 }))
        && ((0b01_00_00_00_00_00_00_00_00_00_00_00_00_00_00_00_00_00_00_00_00_00_00_00_01u64 >> (2 * c) as u64) & 3 == (if c == 0 || c == 24 { 1u64 } else { 0u64 }))
        && ((0b00_00_00_00_00_00_00_00_01_00_00_00_01_00_00_00_01_00_00_00_00_00_00_00_00u64 >> (2 * c) as u64) & 3 == (if c == 8 || c == 12 || c == 16 { 1u64 } else { 0u64 }))
        && ((0b00_00_00_00_01_00_00_00_00_00_00_00_00_00_00_00_00_00_00_00_01_00_00_00_00u64 >> (2 * c) as u64) & 3 == (if c == 4 || c == 20 { 1u64 } else { 0u64 }))) by (bit_vector)
        requires
            c < 32,
    ;
}

/// The cells that the masks of line `i` of [`LINE3`] mark.
pub proof fn lemma_line3_mask_cells(i: int, c: int)
    requires
        0 <= i < 8,
        0 <= c < 32,
    ensures
        cell(LINE3[i].0, c) == (if c == three_cells(i)[0] || c == three_cells(i)[1] || c
            == three_cells(i)[2] {
            1u64
        } else {
            0u64
        }),
        cell(LINE3[i].1, c) == (if c == end_cells(i)[0] || c == end_cells(i)[1] {
            1u64
        } else {
            0u64
        }),
{
    lemma_line3_masks_u64(c as u64);
    if i == 0 {
        assert(LINE3[0].0 == 0b00_00_00_00_00_00_00_00_00_00_00_00_00_00_00_00_01_01_01_00_00_00_00_00_00 && LINE3[0].1 == 0b00_00_00_00_00_00_00_00_00_00_00_00_00_00_00_01_00_00_00_01_00_00_00_00_00);
    } else if i == 1 {
        assert(LINE3[1].0 == 0b00_00_00_00_00_00_00_00_00_00_00_01_01_01_00_00_00_00_00_00_00_00_00_00_00 && LINE3[1].1 == 0b00_00_00_00_00_00_00_00_00_00_01_00_00_00_01_00_00_00_00_00_00_00_00_00_00);
    } else if i == 2 {
        assert(LINE3[2].0 == 0b00_00_00_00_00_00_01_01_01_00_00_00_00_00_00_00_00_00_00_00_00_00_00_00_00 && LINE3[2].1 == 0b00_00_00_00_00_01_00_00_00_01_00_00_00_00_00_00_00_00_00_00_00_00_00_00_00);
    } else if i == 3 {
        assert(LINE3[3].0 == 0b00_00_00_00_00_00_00_00_01_00_00_00_00_01_00_00_00_00_01_00_00_00_00_00_00 && LINE3[3].1 == 0b00_00_00_01_00_00_00_00_00_00_00_00_00_00_00_00_00_00_00_00_00_00_00_01_00);
    } else if i == 4 {
        assert(LINE3[4].0 == 0b00_00_00_00_00_00_00_01_00_00_00_00_01_00_00_00_00_01_00_00_00_00_00_00_00 && LINE3[4].1 == 0b00_00_01_00_00_00_00_00_00_00_00_00_00_00_00_00_00_00_00_00_00_00_01_00_00);
    } else if i == 5 {
        assert(LINE3[5].0 == 0b00_00_00_00_00_00_01_00_00_00_00_01_00_00_00_00_01_00_00_00_00_00_00_00_00 && LINE3[5].1 == 0b00_01_00_00_00_00_00_00_00_00_00_00_00_00_00_00_00_00_00_00_00_01_00_00_00);
    } else if i == 6 {
        assert(LINE3[6].0 == 0b00_00_00_00_00_00_01_00_00_00_00_00_01_00_00_00_00_00_01_00_00_00_00_00_00 && LINE3[6].1 == 0b01_00_00_00_00_00_00_00_00_00_00_00_00_00_00_00_00_00_00_00_00_00_00_00_01);
    } else if i == 7 {
        assert(LINE3[7].0 == 0b00_00_00_00_00_00_00_00_01_00_00_00_01_00_00_00_01_00_00_00_00_00_00_00_00 && LINE3[7].1 == 0b00_00_00_00_01_00_00_00_00_00_00_00_00_00_00_00_00_00_00_00_01_00_00_00_00);
    }
}

proof fn lemma_small_bits(x: u64)
    ensures
        x << 0u64 == x,
        1u64 >> 0u64 == 1,
        2u64 >> 1u64 == 1,
        1u64 & 1 == 1,
        2u64 & 1 == 0,
        0u64 & x == 0,
        (0u64 << 1u64) == 0,
        (1u64 << 1u64) == 2,
        1u64 & 2 == 0,
        (x & 0) == 0,
        ((x & 1) & 1) + (((x & 1) >> 1u64) & 1) <= 1,
        ((x & 2) & 1) + (((x & 2) >> 1u64) & 1) <= 1,
        (0u64 & 1) + ((0u64 >> 1u64) & 1) == 0,
        (1u64 & 1) + ((1u64 >> 1u64) & 1) == 1,
{
    assert(x << 0u64 == x && 1u64 >> 0u64 == 1 && 2u64 >> 1u64 == 1 && 1u64 & 1 == 1 && 2u64 & 1 == 0
        && 0u64 & x == 0 && (0u64 << 1u64) == 0 && (1u64 << 1u64) == 2 && 1u64 & 2 == 0 && (x & 0)
        == 0 && ((x & 1) & 1) + (((x & 1) >> 1u64) & 1) <= 1 && ((x & 2) & 1) + (((x & 2) >> 1u64)
        & 1) <= 1 && (0u64 & 1) + ((0u64 >> 1u64) & 1) == 0 && (1u64 & 1) + ((1u64 >> 1u64) & 1)
        == 1) by (bit_vector);
}

/// A cell code that reads as the state `s` is the code of `s`.
proof fn lemma_code_of_state(x: u64, s: State)
    requires
        x < 4,
        state_of(x) == s,
    ensures
        x == s.code(),
{
}

/// Counting the bits of a word whose cells are 1 at three distinct marked
/// cells and 0 elsewhere, from cell `k` on.
proof fn lemma_count_three_marks(x: u64, a: int, b: int, c: int, k: nat)
    requires
        a != b && b != c && a != c,
        k <= 32,
        forall|j: int|
            0 <= j < 32 ==> #[trigger] cell(x, j) == (if j == a || j == b || j == c {
                1u64
            } else {
                0u64
            }),
    ensures
        cell_sum(x, k) == (if a >= k && a < 32 { 1int } else { 0 }) + (if b >= k && b < 32 {
            1int
        } else {
            0
        }) + (if c >= k && c < 32 { 1int } else { 0 }),
    decreases 32 - k,
{
    lemma_small_bits(0);
    if k < 32 {
        lemma_count_three_marks(x, a, b, c, k + 1);
        assert(cell(x, k as int) == 1 || cell(x, k as int) == 0);
    }
}

/// Counting the bits of a word whose cells have at most one bit set at cell
/// `d` and none elsewhere, from cell `k` on.
proof fn lemma_count_one_mark(z: u64, d: int, k: nat)
    requires
        k <= 32,
        forall|j: int|
            0 <= j < 32 ==> #[trigger] code_bits(cell(z, j)) <= (if j == d { 1nat } else { 0nat }),
    ensures
        cell_sum(z, k) <= (if d >= k && d < 32 { 1nat } else { 0nat }),
    decreases 32 - k,
{
    if k < 32 {
        lemma_count_one_mark(z, d, k + 1);
        assert(code_bits(cell(z, k as int)) <= (if k == d { 1nat } else { 0nat }));
    }
}

/// The player to move holds the three middle cells of line `i`, and one of
/// the line's two end cells is empty or holds the player to move: that is a
/// three blocked on one side at most.
pub proof fn lemma_held_three_is_half_open(w: u64, cur: State, i: int)
    requires
        cur == State::P1 || cur == State::P2,
        0 <= i < 8,
        forall|c: int|
            0 <= c < 32 && #[trigger] cell(LINE3[i].0, c) == 1 ==> Board(w).at(c) == cur,
        exists|c: int|
            0 <= c < 32 && #[trigger] cell(LINE3[i].1, c) == 1 && (Board(w).at(c) == State::Empty
                || Board(w).at(c) == cur),
    ensures
        half_open_three_at(w, cur, i),
{
    let m = LINE3[i].0;
    let e = LINE3[i].1;
    let s = (cur.code() - 1) as u64;
    let t = cur.code() & 1;
    let ms = three_cells(i);
    let es = end_cells(i);
    lemma_small_bits(0);
    assert(ms[0] != ms[1] && ms[1] != ms[2] && ms[0] != ms[2] && es[0] != es[1]) by {
        if i == 0 {} else if i == 1 {} else if i == 2 {} else if i == 3 {} else if i == 4 {} else if i
            == 5 {} else if i == 6 {} else {}
    }
    assert(0 <= ms[0] < 32 && 0 <= ms[1] < 32 && 0 <= ms[2] < 32 && 0 <= es[0] < 32 && 0 <= es[1]
        < 32) by {
        if i == 0 {} else if i == 1 {} else if i == 2 {} else if i == 3 {} else if i == 4 {} else if i
            == 5 {} else if i == 6 {} else {}
    }
    assert forall|c: int| 0 <= c < 32 implies #[trigger] cell(m, c) == (if c == ms[0] || c == ms[1]
        || c == ms[2] {
        1u64
    } else {
        0u64
    }) by {
        lemma_line3_mask_cells(i, c);
    }
    assert forall|c: int| 0 <= c < 32 implies #[trigger] cell(e, c) == (if c == es[0] || c == es[1] {
        1u64
    } else {
        0u64
    }) by {
        lemma_line3_mask_cells(i, c);
    }
    // the middle cells
    let z1 = (w >> s) & m;
    assert forall|c: int| 0 <= c < 32 implies cell(z1, c) == cell(m, c) by {
        lemma_cell_select(w, m, s, c);
        lemma_cell_bound(w, c);
        lemma_small_bits(cell(w, c) >> s);
        if cell(m, c) == 1 {
            lemma_code_of_state(cell(w, c), cur);
        }
    }
    lemma_cells_determine(z1, m);
    lemma_popcount_cells(m);
    lemma_count_three_marks(m, ms[0], ms[1], ms[2], 0);
    // the ends
    let z2 = w & (e << t);
    let c0 = choose|c: int|
        0 <= c < 32 && #[trigger] cell(LINE3[i].1, c) == 1 && (Board(w).at(c) == State::Empty
            || Board(w).at(c) == cur);
    let d = if c0 == es[0] { es[1] } else { es[0] };
    assert(low_cells(e));
    assert forall|c: int| 0 <= c < 32 implies #[trigger] code_bits(cell(z2, c)) <= (if c == d {
        1nat
    } else {
        0nat
    }) by {
        lemma_cell_bitwise(w, e << t, c);
        lemma_cell_bound(w, c);
        lemma_small_bits(cell(w, c));
        lemma_small_bits(e);
        lemma_small_bits(1);
        lemma_small_bits(2);
        if cur == State::P1 {
            lemma_cell_shl1(e, c);
        }
        if c == c0 {
            lemma_code_of_state(cell(w, c), Board(w).at(c));
        }
    }
    lemma_popcount_cells(z2);
    lemma_count_one_mark(z2, d, 0);
}

/// The player to move wins a position in which it holds the three middle
/// cells of a line of [`LINE3`] and one of the line's two end cells is empty
/// or its own, when nobody has four and the board is not full, whatever
/// threes the other player has.
pub proof fn law_settled_held_three_wins(w: u64, cur: State, i: int)
    requires
        cur == State::P1 || cur == State::P2,
        0 <= i < 8,
        !has_four(w, 0),
        !has_four(w, 1),
        popcount(w) != 25,
        forall|c: int|
            0 <= c < 32 && #[trigger] cell(LINE3[i].0, c) == 1 ==> Board(w).at(c) == cur,
        exists|c: int|
            0 <= c < 32 && #[trigger] cell(LINE3[i].1, c) == 1 && (Board(w).at(c) == State::Empty
                || Board(w).at(c) == cur),
    ensures
        verdict(w, cur) == cur,
{
    lemma_held_three_is_half_open(w, cur, i);
    crate::laws::law_settled_mover_three_wins(w, cur, i);
}

} // verus!
