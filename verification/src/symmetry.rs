//! The verdict on a position does not change when the board is turned or
//! reflected.
use vstd::prelude::*;
use crate::cells::{
    cell,
    low_cells,
    lemma_cell_bitwise,
    lemma_cell_shl1,
    lemma_cell_select,
    lemma_cells_determine,
    lemma_zero_cell_ops,
};
use crate::board::{
    moved_word,
    turned_word,
    flipped_word,
    turn_source,
    flip_source,
    turn_map,
    flip_map,
    on_board,
    lemma_moved_cells,
    lemma_on_board_cells,
};
use crate::state::State;
use crate::laws::{law_symmetries_stay_on_board, law_four_turns, law_two_flips};
use crate::rules::{
    four_at,
    has_four,
    half_open_three_at,
    open_three_at,
    has_open_three,
    line_open_at,
    verdict,
    open_two_at,
    first_open_two,
    open_two_choice,
};
use crate::lines::{LINE, LINE2, LINE3, popcount, code_bits, cell_sum, lemma_popcount_cells};

verus! {

/// `src` sends the 25 board cells to board cells.
pub open spec fn board_map(src: spec_fn(int) -> int) -> bool {
    forall|i: int| 0 <= i < 25 ==> 0 <= #[trigger] src(i) < 25
}

proof fn lemma_moved_bitwise(x: u64, y: u64, src: spec_fn(int) -> int)
    requires
        board_map(src),
    ensures
        moved_word(x & y, src) == moved_word(x, src) & moved_word(y, src),
        moved_word(x | y, src) == moved_word(x, src) | moved_word(y, src),
{
    let mx = moved_word(x, src);
    let my = moved_word(y, src);
    assert forall|i: int| 0 <= i < 32 implies cell(moved_word(x & y, src), i) == cell(mx & my, i)
        && cell(moved_word(x | y, src), i) == cell(mx | my, i) by {
        lemma_moved_cells(x & y, src, i);
        lemma_moved_cells(x | y, src, i);
        lemma_moved_cells(x, src, i);
        lemma_moved_cells(y, src, i);
        lemma_cell_bitwise(mx, my, i);
        lemma_zero_cell_ops(0, 0);
        if i < 25 {
            lemma_cell_bitwise(x, y, src(i));
        }
    }
    lemma_cells_determine(moved_word(x & y, src), mx & my);
    lemma_cells_determine(moved_word(x | y, src), mx | my);
}

proof fn lemma_moved_low_cells(e: u64, src: spec_fn(int) -> int)
    requires
        board_map(src),
        low_cells(e),
    ensures
        low_cells(moved_word(e, src)),
{
    assert forall|i: int| 0 <= i < 32 implies #[trigger] cell(moved_word(e, src), i) <= 1 by {
        lemma_moved_cells(e, src, i);
        if i < 25 {
            assert(cell(e, src(i)) <= 1);
        }
    }
}

proof fn lemma_moved_shl1(e: u64, src: spec_fn(int) -> int)
    requires
        board_map(src),
        low_cells(e),
    ensures
        moved_word(e << 1u64, src) == moved_word(e, src) << 1u64,
{
    let me = moved_word(e, src);
    lemma_moved_low_cells(e, src);
    assert forall|i: int| 0 <= i < 32 implies cell(moved_word(e << 1u64, src), i) == cell(
        me << 1u64,
        i,
    ) by {
        lemma_moved_cells(e << 1u64, src, i);
        lemma_moved_cells(e, src, i);
        lemma_cell_shl1(me, i);
        lemma_zero_cell_ops(0, 0);
        if i < 25 {
            lemma_cell_shl1(e, src(i));
        }
    }
    lemma_cells_determine(moved_word(e << 1u64, src), me << 1u64);
}

proof fn lemma_moved_select(x: u64, m: u64, s: u64, src: spec_fn(int) -> int)
    requires
        board_map(src),
        low_cells(m),
        s <= 1,
    ensures
        moved_word((x >> s) & m, src) == (moved_word(x, src) >> s) & moved_word(m, src),
{
    let mx = moved_word(x, src);
    let mm = moved_word(m, src);
    lemma_moved_low_cells(m, src);
    assert forall|i: int| 0 <= i < 32 implies cell(moved_word((x >> s) & m, src), i) == cell(
        (mx >> s) & mm,
        i,
    ) by {
        lemma_moved_cells((x >> s) & m, src, i);
        lemma_moved_cells(x, src, i);
        lemma_moved_cells(m, src, i);
        lemma_cell_select(mx, mm, s, i);
        lemma_zero_cell_ops(0, s);
        if i < 25 {
            lemma_cell_select(x, m, s, src(i));
        }
    }
    lemma_cells_determine(moved_word((x >> s) & m, src), (mx >> s) & mm);
}

proof fn lemma_code_bits_zero()
    ensures
        code_bits(0) == 0,
{
    assert((0u64 & 1) + ((0u64 >> 1u64) & 1) == 0) by (bit_vector);
}

/// A quarter turn keeps the number of bits set in a board word.
pub proof fn lemma_turn_popcount(z: u64)
    requires
        on_board(z),
    ensures
        popcount(turned_word(z)) == popcount(z),
{
    let t = turned_word(z);
    lemma_popcount_cells(z);
    lemma_popcount_cells(t);
    lemma_on_board_cells(z);
    lemma_code_bits_zero();
    assert forall|i: int| 0 <= i < 32 implies #[trigger] cell(t, i) == (if i < 25 {
        cell(z, turn_source(i))
    } else {
        0
    }) by {
        lemma_moved_cells(z, turn_map(), i);
    }
    reveal_with_fuel(cell_sum, 33);
}

/// A reflection keeps the number of bits set in a board word.
pub proof fn lemma_flip_popcount(z: u64)
    requires
        on_board(z),
    ensures
        popcount(flipped_word(z)) == popcount(z),
{
    let t = flipped_word(z);
    lemma_popcount_cells(z);
    lemma_popcount_cells(t);
    lemma_on_board_cells(z);
    lemma_code_bits_zero();
    assert forall|i: int| 0 <= i < 32 implies #[trigger] cell(t, i) == (if i < 25 {
        cell(z, flip_source(i))
    } else {
        0
    }) by {
        lemma_moved_cells(z, flip_map(), i);
    }
    reveal_with_fuel(cell_sum, 33);
}

/// The quarter turn written out cell by cell.
pub open spec fn turn_expr(w: u64) -> u64 {
    (((w >> 8u64) & 3) << 0u64) | (((w >> 18u64) & 3) << 2u64) | (((w >> 28u64) & 3) << 4u64) | (((w >> 38u64) & 3) << 6u64) | (((w >> 48u64) & 3) << 8u64) | (((w >> 6u64) & 3) << 10u64) | (((w >> 16u64) & 3) << 12u64) | (((w >> 26u64) & 3) << 14u64) | (((w >> 36u64) & 3) << 16u64) | (((w >> 46u64) & 3) << 18u64) | (((w >> 4u64) & 3) << 20u64) | (((w >> 14u64) & 3) << 22u64) | (((w >> 24u64) & 3) << 24u64) | (((w >> 34u64) & 3) << 26u64) | (((w >> 44u64) & 3) << 28u64) | (((w >> 2u64) & 3) << 30u64) | (((w >> 12u64) & 3) << 32u64) | (((w >> 22u64) & 3) << 34u64) | (((w >> 32u64) & 3) << 36u64) | (((w >> 42u64) & 3) << 38u64) | (((w >> 0u64) & 3) << 40u64) | (((w >> 10u64) & 3) << 42u64) | (((w >> 20u64) & 3) << 44u64) | (((w >> 30u64) & 3) << 46u64) | (((w >> 40u64) & 3) << 48u64)
}

proof fn lemma_turn_expr_cells_u64(w: u64, i: u64)
    requires
        i < 32,
    ensures
        (turn_expr(w) >> (2 * i) as u64) & 3 == (if i < 25 {
            (w >> (2 * ((i % 5) * 5 + 4 - i / 5)) as u64) & 3
        } else {
            0
        }),
{
    assert((turn_expr(w) >> (2 * i) as u64) & 3 == (if i < 25 {
        (w >> (2 * ((i % 5) * 5 + 4 - i / 5)) as u64) & 3
    } else {
        0
    })) by (bit_vector)
        requires
            i < 32,
    ;
}

/// The reflection written out row by row.
pub open spec fn flip_expr(w: u64) -> u64 {
    (((w >> 0u64) & 0x3ff) << 40u64) | (((w >> 10u64) & 0x3ff) << 30u64) | (((w >> 20u64) & 0x3ff) << 20u64) | (((w >> 30u64) & 0x3ff) << 10u64) | (((w >> 40u64) & 0x3ff) << 0u64)
}

proof fn lemma_flip_expr_cells_u64(w: u64, i: u64)
    requires
        i < 32,
    ensures
        (flip_expr(w) >> (2 * i) as u64) & 3 == (if i < 25 {
            (w >> (2 * ((4 - i / 5) * 5 + i % 5)) as u64) & 3
        } else {
            0
        }),
{
    assert((flip_expr(w) >> (2 * i) as u64) & 3 == (if i < 25 {
        (w >> (2 * ((4 - i / 5) * 5 + i % 5)) as u64) & 3
    } else {
        0
    })) by (bit_vector)
        requires
            i < 32,
    ;
}

/// The quarter turn of a word is its written-out form.
proof fn lemma_turned_is_expr(w: u64)
    ensures
        turned_word(w) == turn_expr(w),
{
    assert forall|i: int| 0 <= i < 32 implies cell(turned_word(w), i) == cell(turn_expr(w), i) by {
        lemma_moved_cells(w, turn_map(), i);
        lemma_turn_expr_cells_u64(w, i as u64);
    }
    lemma_cells_determine(turned_word(w), turn_expr(w));
}

/// The reflection of a word is its written-out form.
proof fn lemma_flipped_is_expr(w: u64)
    ensures
        flipped_word(w) == flip_expr(w),
{
    assert forall|i: int| 0 <= i < 32 implies cell(flipped_word(w), i) == cell(flip_expr(w), i) by {
        lemma_moved_cells(w, flip_map(), i);
        lemma_flip_expr_cells_u64(w, i as u64);
    }
    lemma_cells_determine(flipped_word(w), flip_expr(w));
}

proof fn lemma_low_cells_u64(m: u64, i: u64)
    requires
        m & 0xaaaa_aaaa_aaaa_aaaa == 0,
        i < 32,
    ensures
        (m >> (2 * i) as u64) & 3 <= 1,
{
    assert((m >> (2 * i) as u64) & 3 <= 1) by (bit_vector)
        requires
            m & 0xaaaa_aaaa_aaaa_aaaa == 0,
            i < 32,
    ;
}

/// A word with no high bit of a cell set has cells holding 0 or 1.
proof fn lemma_low_cells_from_bits(m: u64)
    requires
        m & 0xaaaa_aaaa_aaaa_aaaa == 0,
    ensures
        low_cells(m),
{
    assert forall|i: int| 0 <= i < 32 implies #[trigger] cell(m, i) <= 1 by {
        lemma_low_cells_u64(m, i as u64);
    }
}

proof fn lemma_line_turn_words()
    ensures
        (turn_expr(0b00_00_00_00_00_00_00_00_00_00_00_00_00_00_00_00_00_00_00_00_00_01_01_01_01) == 0b00_00_00_00_01_00_00_00_00_01_00_00_00_00_01_00_00_00_00_01_00_00_00_00_00)
            && (0b00_00_00_00_00_00_00_00_00_00_00_00_00_00_00_00_00_00_00_00_00_01_01_01_01u64 & 0xaaaa_aaaa_aaaa_aaaau64 == 0)
            && (0b00_00_00_00_00_00_00_00_00_00_00_00_00_00_00_00_00_00_00_00_00_01_01_01_01u64 >> 50u64 == 0)
            && (turn_expr(0b00_00_00_00_00_00_00_00_00_00_00_00_00_00_00_00_00_00_00_00_01_01_01_01_00) == 0b00_00_00_00_00_00_00_00_00_01_00_00_00_00_01_00_00_00_00_01_00_00_00_00_01)
            && (0b00_00_00_00_00_00_00_00_00_00_00_00_00_00_00_00_00_00_00_00_01_01_01_01_00u64 & 0xaaaa_aaaa_aaaa_aaaau64 == 0)
            && (0b00_00_00_00_00_00_00_00_00_00_00_00_00_00_00_00_00_00_00_00_01_01_01_01_00u64 >> 50u64 == 0)
            && (turn_expr(0b00_00_00_00_00_00_00_00_00_00_00_00_00_00_00_00_01_01_01_01_00_00_00_00_00) == 0b00_00_00_01_00_00_00_00_01_00_00_00_00_01_00_00_00_00_01_00_00_00_00_00_00)
            && (0b00_00_00_00_00_00_00_00_00_00_00_00_00_00_00_00_01_01_01_01_00_00_00_00_00u64 & 0xaaaa_aaaa_aaaa_aaaau64 == 0)
            && (0b00_00_00_00_00_00_00_00_00_00_00_00_00_00_00_00_01_01_01_01_00_00_00_00_00u64 >> 50u64 == 0)
            && (turn_expr(0b00_00_00_00_00_00_00_00_00_00_00_00_00_00_00_01_01_01_01_00_00_00_00_00_00) == 0b00_00_00_00_00_00_00_00_01_00_00_00_00_01_00_00_00_00_01_00_00_00_00_01_00)
            && (0b00_00_00_00_00_00_00_00_00_00_00_00_00_00_00_01_01_01_01_00_00_00_00_00_00u64 & 0xaaaa_aaaa_aaaa_aaaau64 == 0)
            && (0b00_00_00_00_00_00_00_00_00_00_00_00_00_00_00_01_01_01_01_00_00_00_00_00_00u64 >> 50u64 == 0)
            && (turn_expr(0b00_00_00_00_00_00_00_00_00_00_00_01_01_01_01_00_00_00_00_00_00_00_00_00_00) == 0b00_00_01_00_00_00_00_01_00_00_00_00_01_00_00_00_00_01_00_00_00_00_00_00_00)
            && (0b00_00_00_00_00_00_00_00_00_00_00_01_01_01_01_00_00_00_00_00_00_00_00_00_00u64 & 0xaaaa_aaaa_aaaa_aaaau64 == 0)
            && (0b00_00_00_00_00_00_00_00_00_00_00_01_01_01_01_00_00_00_00_00_00_00_00_00_00u64 >> 50u64 == 0)
            && (turn_expr(0b00_00_00_00_00_00_00_00_00_00_01_01_01_01_00_00_00_00_00_00_00_00_00_00_00) == 0b00_00_00_00_00_00_00_01_00_00_00_00_01_00_00_00_00_01_00_00_00_00_01_00_00)
            && (0b00_00_00_00_00_00_00_00_00_00_01_01_01_01_00_00_00_00_00_00_00_00_00_00_00u64 & 0xaaaa_aaaa_aaaa_aaaau64 == 0)
            && (0b00_00_00_00_00_00_00_00_00_00_01_01_01_01_00_00_00_00_00_00_00_00_00_00_00u64 >> 50u64 == 0)
            && (turn_expr(0b00_00_00_00_00_00_01_01_01_01_00_00_00_00_00_00_00_00_00_00_00_00_00_00_00) == 0b00_01_00_00_00_00_01_00_00_00_00_01_00_00_00_00_01_00_00_00_00_00_00_00_00)
            && (0b00_00_00_00_00_00_01_01_01_01_00_00_00_00_00_00_00_00_00_00_00_00_00_00_00u64 & 0xaaaa_aaaa_aaaa_aaaau64 == 0)
            && (0b00_00_00_00_00_00_01_01_01_01_00_00_00_00_00_00_00_00_00_00_00_00_00_00_00u64 >> 50u64 == 0)
            && (turn_expr(0b00_00_00_00_00_01_01_01_01_00_00_00_00_00_00_00_00_00_00_00_00_00_00_00_00) == 0b00_00_00_00_00_00_01_00_00_00_00_01_00_00_00_00_01_00_00_00_00_01_00_00_00)
            && (0b00_00_00_00_00_01_01_01_01_00_00_00_00_00_00_00_00_00_00_00_00_00_00_00_00u64 & 0xaaaa_aaaa_aaaa_aaaau64 == 0)
            && (0b00_00_00_00_00_01_01_01_01_00_00_00_00_00_00_00_00_00_00_00_00_00_00_00_00u64 >> 50u64 == 0)
            && (turn_expr(0b00_01_01_01_01_00_00_00_00_00_00_00_00_00_00_00_00_00_00_00_00_00_00_00_00) == 0b01_00_00_00_00_01_00_00_00_00_01_00_00_00_00_01_00_00_00_00_00_00_00_00_00)
            && (0b00_01_01_01_01_00_00_00_00_00_00_00_00_00_00_00_00_00_00_00_00_00_00_00_00u64 & 0xaaaa_aaaa_aaaa_aaaau64 == 0)
            && (0b00_01_01_01_01_00_00_00_00_00_00_00_00_00_00_00_00_00_00_00_00_00_00_00_00u64 >> 50u64 == 0)
            && (turn_expr(0b01_01_01_01_00_00_00_00_00_00_00_00_00_00_00_00_00_00_00_00_00_00_00_00_00) == 0b00_00_00_00_00_01_00_00_00_00_01_00_00_00_00_01_00_00_00_00_01_00_00_00_00)
            && (0b01_01_01_01_00_00_00_00_00_00_00_00_00_00_00_00_00_00_00_00_00_00_00_00_00u64 & 0xaaaa_aaaa_aaaa_aaaau64 == 0)
            && (0b01_01_01_01_00_00_00_00_00_00_00_00_00_00_00_00_00_00_00_00_00_00_00_00_00u64 >> 50u64 == 0)
            && (turn_expr(0b00_00_00_00_00_00_00_00_00_01_00_00_00_00_01_00_00_00_00_01_00_00_00_00_01) == 0b00_01_01_01_01_00_00_00_00_00_00_00_00_00_00_00_00_00_00_00_00_00_00_00_00)
            && (0b00_00_00_00_00_00_00_00_00_01_00_00_00_00_01_00_00_00_00_01_00_00_00_00_01u64 & 0xaaaa_aaaa_aaaa_aaaau64 == 0)
            && (0b00_00_00_00_00_00_00_00_00_01_00_00_00_00_01_00_00_00_00_01_00_00_00_00_01u64 >> 50u64 == 0)
            && (turn_expr(0b00_00_00_00_01_00_00_00_00_01_00_00_00_00_01_00_00_00_00_01_00_00_00_00_00) == 0b01_01_01_01_00_00_00_00_00_00_00_00_00_00_00_00_00_00_00_00_00_00_00_00_00)
            && (0b00_00_00_00_01_00_00_00_00_01_00_00_00_00_01_00_00_00_00_01_00_00_00_00_00u64 & 0xaaaa_aaaa_aaaa_aaaau64 == 0)
            && (0b00_00_00_00_01_00_00_00_00_01_00_00_00_00_01_00_00_00_00_01_00_00_00_00_00u64 >> 50u64 == 0)
            && (turn_expr(0b00_00_00_00_00_00_00_00_01_00_00_00_00_01_00_00_00_00_01_00_00_00_00_01_00) == 0b00_00_00_00_00_00_01_01_01_01_00_00_00_00_00_00_00_00_00_00_00_00_00_00_00)
            && (0b00_00_00_00_00_00_00_00_01_00_00_00_00_01_00_00_00_00_01_00_00_00_00_01_00u64 & 0xaaaa_aaaa_aaaa_aaaau64 == 0)
            && (0b00_00_00_00_00_00_00_00_01_00_00_00_00_01_00_00_00_00_01_00_00_00_00_01_00u64 >> 50u64 == 0)
            && (turn_expr(0b00_00_00_01_00_00_00_00_01_00_00_00_00_01_00_00_00_00_01_00_00_00_00_00_00) == 0b00_00_00_00_00_01_01_01_01_00_00_00_00_00_00_00_00_00_00_00_00_00_00_00_00)
            && (0b00_00_00_01_00_00_00_00_01_00_00_00_00_01_00_00_00_00_01_00_00_00_00_00_00u64 & 0xaaaa_aaaa_aaaa_aaaau64 == 0)
            && (0b00_00_00_01_00_00_00_00_01_00_00_00_00_01_00_00_00_00_01_00_00_00_00_00_00u64 >> 50u64 == 0)
            && (turn_expr(0b00_00_00_00_00_00_00_01_00_00_00_00_01_00_00_00_00_01_00_00_00_00_01_00_00) == 0b00_00_00_00_00_00_00_00_00_00_00_01_01_01_01_00_00_00_00_00_00_00_00_00_00)
            && (0b00_00_00_00_00_00_00_01_00_00_00_00_01_00_00_00_00_01_00_00_00_00_01_00_00u64 & 0xaaaa_aaaa_aaaa_aaaau64 == 0)
            && (0b00_00_00_00_00_00_00_01_00_00_00_00_01_00_00_00_00_01_00_00_00_00_01_00_00u64 >> 50u64 == 0)
            && (turn_expr(0b00_00_01_00_00_00_00_01_00_00_00_00_01_00_00_00_00_01_00_00_00_00_00_00_00) == 0b00_00_00_00_00_00_00_00_00_00_01_01_01_01_00_00_00_00_00_00_00_00_00_00_00)
            && (0b00_00_01_00_00_00_00_01_00_00_00_00_01_00_00_00_00_01_00_00_00_00_00_00_00u64 & 0xaaaa_aaaa_aaaa_aaaau64 == 0)
            && (0b00_00_01_00_00_00_00_01_00_00_00_00_01_00_00_00_00_01_00_00_00_00_00_00_00u64 >> 50u64 == 0)
            && (turn_expr(0b00_00_00_00_00_00_01_00_00_00_00_01_00_00_00_00_01_00_00_00_00_01_00_00_00) == 0b00_00_00_00_00_00_00_00_00_00_00_00_00_00_00_00_01_01_01_01_00_00_00_00_00)
            && (0b00_00_00_00_00_00_01_00_00_00_00_01_00_00_00_00_01_00_00_00_00_01_00_00_00u64 & 0xaaaa_aaaa_aaaa_aaaau64 == 0)
            && (0b00_00_00_00_00_00_01_00_00_00_00_01_00_00_00_00_01_00_00_00_00_01_00_00_00u64 >> 50u64 == 0)
            && (turn_expr(0b00_01_00_00_00_00_01_00_00_00_00_01_00_00_00_00_01_00_00_00_00_00_00_00_00) == 0b00_00_00_00_00_00_00_00_00_00_00_00_00_00_00_01_01_01_01_00_00_00_00_00_00)
            && (0b00_01_00_00_00_00_01_00_00_00_00_01_00_00_00_00_01_00_00_00_00_00_00_00_00u64 & 0xaaaa_aaaa_aaaa_aaaau64 == 0)
            && (0b00_01_00_00_00_00_01_00_00_00_00_01_00_00_00_00_01_00_00_00_00_00_00_00_00u64 >> 50u64 == 0)
            && (turn_expr(0b00_00_00_00_00_01_00_00_00_00_01_00_00_00_00_01_00_00_00_00_01_00_00_00_00) == 0b00_00_00_00_00_00_00_00_00_00_00_00_00_00_00_00_00_00_00_00_00_01_01_01_01)
            && (0b00_00_00_00_00_01_00_00_00_00_01_00_00_00_00_01_00_00_00_00_01_00_00_00_00u64 & 0xaaaa_aaaa_aaaa_aaaau64 == 0)
            && (0b00_00_00_00_00_01_00_00_00_00_01_00_00_00_00_01_00_00_00_00_01_00_00_00_00u64 >> 50u64 == 0)
            && (turn_expr(0b01_00_00_00_00_01_00_00_00_00_01_00_00_00_00_01_00_00_00_00_00_00_00_00_00) == 0b00_00_00_00_00_00_00_00_00_00_00_00_00_00_00_00_00_00_00_00_01_01_01_01_00)
            && (0b01_00_00_00_00_01_00_00_00_00_01_00_00_00_00_01_00_00_00_00_00_00_00_00_00u64 & 0xaaaa_aaaa_aaaa_aaaau64 == 0)
            && (0b01_00_00_00_00_01_00_00_00_00_01_00_00_00_00_01_00_00_00_00_00_00_00_00_00u64 >> 50u64 == 0)
            && (turn_expr(0b00_01_00_00_00_00_00_01_00_00_00_00_00_01_00_00_00_00_00_01_00_00_00_00_00) == 0b00_00_00_01_00_00_00_01_00_00_00_01_00_00_00_01_00_00_00_00_00_00_00_00_00)
            && (0b00_01_00_00_00_00_00_01_00_00_00_00_00_01_00_00_00_00_00_01_00_00_00_00_00u64 & 0xaaaa_aaaa_aaaa_aaaau64 == 0)
            && (0b00_01_00_00_00_00_00_01_00_00_00_00_00_01_00_00_00_00_00_01_00_00_00_00_00u64 >> 50u64 == 0)
            && (turn_expr(0b00_00_00_00_00_00_01_00_00_00_00_00_01_00_00_00_00_00_01_00_00_00_00_00_01) == 0b00_00_00_00_01_00_00_00_01_00_00_00_01_00_00_00_01_00_00_00_00_00_00_00_00)
            && (0b00_00_00_00_00_00_01_00_00_00_00_00_01_00_00_00_00_00_01_00_00_00_00_00_01u64 & 0xaaaa_aaaa_aaaa_aaaau64 == 0)
            && (0b00_00_00_00_00_00_01_00_00_00_00_00_01_00_00_00_00_00_01_00_00_00_00_00_01u64 >> 50u64 == 0)
            && (turn_expr(0b01_00_00_00_00_00_01_00_00_00_00_00_01_00_00_00_00_00_01_00_00_00_00_00_00) == 0b00_00_00_00_00_00_00_00_01_00_00_00_01_00_00_00_01_00_00_00_01_00_00_00_00)
            && (0b01_00_00_00_00_00_01_00_00_00_00_00_01_00_00_00_00_00_01_00_00_00_00_00_00u64 & 0xaaaa_aaaa_aaaa_aaaau64 == 0)
            && (0b01_00_00_00_00_00_01_00_00_00_00_00_01_00_00_00_00_00_01_00_00_00_00_00_00u64 >> 50u64 == 0)
            && (turn_expr(0b00_00_00_00_00_01_00_00_00_00_00_01_00_00_00_00_00_01_00_00_00_00_00_01_00) == 0b00_00_00_00_00_00_00_00_00_01_00_00_00_01_00_00_00_01_00_00_00_01_00_00_00)
            && (0b00_00_00_00_00_01_00_00_00_00_00_01_00_00_00_00_00_01_00_00_00_00_00_01_00u64 & 0xaaaa_aaaa_aaaa_aaaau64 == 0)
            && (0b00_00_00_00_00_01_00_00_00_00_00_01_00_00_00_00_00_01_00_00_00_00_00_01_00u64 >> 50u64 == 0)
            && (turn_expr(0b00_00_00_01_00_00_00_01_00_00_00_01_00_00_00_01_00_00_00_00_00_00_00_00_00) == 0b00_00_00_00_00_01_00_00_00_00_00_01_00_00_00_00_00_01_00_00_00_00_00_01_00)
            && (0b00_00_00_01_00_00_00_01_00_00_00_01_00_00_00_01_00_00_00_00_00_00_00_00_00u64 & 0xaaaa_aaaa_aaaa_aaaau64 == 0)
            && (0b00_00_00_01_00_00_00_01_00_00_00_01_00_00_00_01_00_00_00_00_00_00_00_00_00u64 >> 50u64 == 0)
            && (turn_expr(0b00_00_00_00_00_00_00_00_01_00_00_00_01_00_00_00_01_00_00_00_01_00_00_00_00) == 0b00_00_00_00_00_00_01_00_00_00_00_00_01_00_00_00_00_00_01_00_00_00_00_00_01)
            && (0b00_00_00_00_00_00_00_00_01_00_00_00_01_00_00_00_01_00_00_00_01_00_00_00_00u64 & 0xaaaa_aaaa_aaaa_aaaau64 == 0)
            && (0b00_00_00_00_00_00_00_00_01_00_00_00_01_00_00_00_01_00_00_00_01_00_00_00_00u64 >> 50u64 == 0)
            && (turn_expr(0b00_00_00_00_01_00_00_00_01_00_00_00_01_00_00_00_01_00_00_00_00_00_00_00_00) == 0b01_00_00_00_00_00_01_00_00_00_00_00_01_00_00_00_00_00_01_00_00_00_00_00_00)
            && (0b00_00_00_00_01_00_00_00_01_00_00_00_01_00_00_00_01_00_00_00_00_00_00_00_00u64 & 0xaaaa_aaaa_aaaa_aaaau64 == 0)
            && (0b00_00_00_00_01_00_00_00_01_00_00_00_01_00_00_00_01_00_00_00_00_00_00_00_00u64 >> 50u64 == 0)
            && (turn_expr(0b00_00_00_00_00_00_00_00_00_01_00_00_00_01_00_00_00_01_00_00_00_01_00_00_00) == 0b00_01_00_00_00_00_00_01_00_00_00_00_00_01_00_00_00_00_00_01_00_00_00_00_00)
            && (0b00_00_00_00_00_00_00_00_00_01_00_00_00_01_00_00_00_01_00_00_00_01_00_00_00u64 & 0xaaaa_aaaa_aaaa_aaaau64 == 0)
            && (0b00_00_00_00_00_00_00_00_00_01_00_00_00_01_00_00_00_01_00_00_00_01_00_00_00u64 >> 50u64 == 0),
{
    assert((turn_expr(0b00_00_00_00_00_00_00_00_00_00_00_00_00_00_00_00_00_00_00_00_00_01_01_01_01) == 0b00_00_00_00_01_00_00_00_00_01_00_00_00_00_01_00_00_00_00_01_00_00_00_00_00)
        && (0b00_00_00_00_00_00_00_00_00_00_00_00_00_00_00_00_00_00_00_00_00_01_01_01_01u64 & 0xaaaa_aaaa_aaaa_aaaau64 == 0)
        && (0b00_00_00_00_00_00_00_00_00_00_00_00_00_00_00_00_00_00_00_00_00_01_01_01_01u64 >> 50u64 == 0)
        && (turn_expr(0b00_00_00_00_00_00_00_00_00_00_00_00_00_00_00_00_00_00_00_00_01_01_01_01_00) == 0b00_00_00_00_00_00_00_00_00_01_00_00_00_00_01_00_00_00_00_01_00_00_00_00_01)
        && (0b00_00_00_00_00_00_00_00_00_00_00_00_00_00_00_00_00_00_00_00_01_01_01_01_00u64 & 0xaaaa_aaaa_aaaa_aaaau64 == 0)
        && (0b00_00_00_00_00_00_00_00_00_00_00_00_00_00_00_00_00_00_00_00_01_01_01_01_00u64 >> 50u64 == 0)
        && (turn_expr(0b00_00_00_00_00_00_00_00_00_00_00_00_00_00_00_00_01_01_01_01_00_00_00_00_00) == 0b00_00_00_01_00_00_00_00_01_00_00_00_00_01_00_00_00_00_01_00_00_00_00_00_00)
        && (0b00_00_00_00_00_00_00_00_00_00_00_00_00_00_00_00_01_01_01_01_00_00_00_00_00u64 & 0xaaaa_aaaa_aaaa_aaaau64 == 0)
        && (0b00_00_00_00_00_00_00_00_00_00_00_00_00_00_00_00_01_01_01_01_00_00_00_00_00u64 >> 50u64 == 0)
        && (turn_expr(0b00_00_00_00_00_00_00_00_00_00_00_00_00_00_00_01_01_01_01_00_00_00_00_00_00) == 0b00_00_00_00_00_00_00_00_01_00_00_00_00_01_00_00_00_00_01_00_00_00_00_01_00)
        && (0b00_00_00_00_00_00_00_00_00_00_00_00_00_00_00_01_01_01_01_00_00_00_00_00_00u64 & 0xaaaa_aaaa_aaaa_aaaau64 == 0)
        && (0b00_00_00_00_00_00_00_00_00_00_00_00_00_00_00_01_01_01_01_00_00_00_00_00_00u64 >> 50u64 == 0)
        && (turn_expr(0b00_00_00_00_00_00_00_00_00_00_00_01_01_01_01_00_00_00_00_00_00_00_00_00_00) == 0b00_00_01_00_00_00_00_01_00_00_00_00_01_00_00_00_00_01_00_00_00_00_00_00_00)
        && (0b00_00_00_00_00_00_00_00_00_00_00_01_01_01_01_00_00_00_00_00_00_00_00_00_00u64 & 0xaaaa_aaaa_aaaa_aaaau64 == 0)
        && (0b00_00_00_00_00_00_00_00_00_00_00_01_01_01_01_00_00_00_00_00_00_00_00_00_00u64 >> 50u64 == 0)
        && (turn_expr(0b00_00_00_00_00_00_00_00_00_00_01_01_01_01_00_00_00_00_00_00_00_00_00_00_00) == 0b00_00_00_00_00_00_00_01_00_00_00_00_01_00_00_00_00_01_00_00_00_00_01_00_00)
        && (0b00_00_00_00_00_00_00_00_00_00_01_01_01_01_00_00_00_00_00_00_00_00_00_00_00u64 & 0xaaaa_aaaa_aaaa_aaaau64 == 0)
        && (0b00_00_00_00_00_00_00_00_00_00_01_01_01_01_00_00_00_00_00_00_00_00_00_00_00u64 >> 50u64 == 0)
        && (turn_expr(0b00_00_00_00_00_00_01_01_01_01_00_00_00_00_00_00_00_00_00_00_00_00_00_00_00) == 0b00_01_00_00_00_00_01_00_00_00_00_01_00_00_00_00_01_00_00_00_00_00_00_00_00)
        && (0b00_00_00_00_00_00_01_01_01_01_00_00_00_00_00_00_00_00_00_00_00_00_00_00_00u64 & 0xaaaa_aaaa_aaaa_aaaau64 == 0)
        && (0b00_00_00_00_00_00_01_01_01_01_00_00_00_00_00_00_00_00_00_00_00_00_00_00_00u64 >> 50u64 == 0)
        && (turn_expr(0b00_00_00_00_00_01_01_01_01_00_00_00_00_00_00_00_00_00_00_00_00_00_00_00_00) == 0b00_00_00_00_00_00_01_00_00_00_00_01_00_00_00_00_01_00_00_00_00_01_00_00_00)
        && (0b00_00_00_00_00_01_01_01_01_00_00_00_00_00_00_00_00_00_00_00_00_00_00_00_00u64 & 0xaaaa_aaaa_aaaa_aaaau64 == 0)
        && (0b00_00_00_00_00_01_01_01_01_00_00_00_00_00_00_00_00_00_00_00_00_00_00_00_00u64 >> 50u64 == 0)
        && (turn_expr(0b00_01_01_01_01_00_00_00_00_00_00_00_00_00_00_00_00_00_00_00_00_00_00_00_00) == 0b01_00_00_00_00_01_00_00_00_00_01_00_00_00_00_01_00_00_00_00_00_00_00_00_00)
        && (0b00_01_01_01_01_00_00_00_00_00_00_00_00_00_00_00_00_00_00_00_00_00_00_00_00u64 & 0xaaaa_aaaa_aaaa_aaaau64 == 0)
        && (0b00_01_01_01_01_00_00_00_00_00_00_00_00_00_00_00_00_00_00_00_00_00_00_00_00u64 >> 50u64 == 0)
        && (turn_expr(0b01_01_01_01_00_00_00_00_00_00_00_00_00_00_00_00_00_00_00_00_00_00_00_00_00) == 0b00_00_00_00_00_01_00_00_00_00_01_00_00_00_00_01_00_00_00_00_01_00_00_00_00)
        && (0b01_01_01_01_00_00_00_00_00_00_00_00_00_00_00_00_00_00_00_00_00_00_00_00_00u64 & 0xaaaa_aaaa_aaaa_aaaau64 == 0)
        && (0b01_01_01_01_00_00_00_00_00_00_00_00_00_00_00_00_00_00_00_00_00_00_00_00_00u64 >> 50u64 == 0)
        && (turn_expr(0b00_00_00_00_00_00_00_00_00_01_00_00_00_00_01_00_00_00_00_01_00_00_00_00_01) == 0b00_01_01_01_01_00_00_00_00_00_00_00_00_00_00_00_00_00_00_00_00_00_00_00_00)
        && (0b00_00_00_00_00_00_00_00_00_01_00_00_00_00_01_00_00_00_00_01_00_00_00_00_01u64 & 0xaaaa_aaaa_aaaa_aaaau64 == 0)
        && (0b00_00_00_00_00_00_00_00_00_01_00_00_00_00_01_00_00_00_00_01_00_00_00_00_01u64 >> 50u64 == 0)
        && (turn_expr(0b00_00_00_00_01_00_00_00_00_01_00_00_00_00_01_00_00_00_00_01_00_00_00_00_00) == 0b01_01_01_01_00_00_00_00_00_00_00_00_00_00_00_00_00_00_00_00_00_00_00_00_00)
        && (0b00_00_00_00_01_00_00_00_00_01_00_00_00_00_01_00_00_00_00_01_00_00_00_00_00u64 & 0xaaaa_aaaa_aaaa_aaaau64 == 0)
        && (0b00_00_00_00_01_00_00_00_00_01_00_00_00_00_01_00_00_00_00_01_00_00_00_00_00u64 >> 50u64 == 0)
        && (turn_expr(0b00_00_00_00_00_00_00_00_01_00_00_00_00_01_00_00_00_00_01_00_00_00_00_01_00) == 0b00_00_00_00_00_00_01_01_01_01_00_00_00_00_00_00_00_00_00_00_00_00_00_00_00)
        && (0b00_00_00_00_00_00_00_00_01_00_00_00_00_01_00_00_00_00_01_00_00_00_00_01_00u64 & 0xaaaa_aaaa_aaaa_aaaau64 == 0)
        && (0b00_00_00_00_00_00_00_00_01_00_00_00_00_01_00_00_00_00_01_00_00_00_00_01_00u64 >> 50u64 == 0)
        && (turn_expr(0b00_00_00_01_00_00_00_00_01_00_00_00_00_01_00_00_00_00_01_00_00_00_00_00_00) == 0b00_00_00_00_00_01_01_01_01_00_00_00_00_00_00_00_00_00_00_00_00_00_00_00_00)
        && (0b00_00_00_01_00_00_00_00_01_00_00_00_00_01_00_00_00_00_01_00_00_00_00_00_00u64 & 0xaaaa_aaaa_aaaa_aaaau64 == 0)
        && (0b00_00_00_01_00_00_00_00_01_00_00_00_00_01_00_00_00_00_01_00_00_00_00_00_00u64 >> 50u64 == 0)
        && (turn_expr(0b00_00_00_00_00_00_00_01_00_00_00_00_01_00_00_00_00_01_00_00_00_00_01_00_00) == 0b00_00_00_00_00_00_00_00_00_00_00_01_01_01_01_00_00_00_00_00_00_00_00_00_00)
        && (0b00_00_00_00_00_00_00_01_00_00_00_00_01_00_00_00_00_01_00_00_00_00_01_00_00u64 & 0xaaaa_aaaa_aaaa_aaaau64 == 0)
        && (0b00_00_00_00_00_00_00_01_00_00_00_00_01_00_00_00_00_01_00_00_00_00_01_00_00u64 >> 50u64 == 0)
        && (turn_expr(0b00_00_01_00_00_00_00_01_00_00_00_00_01_00_00_00_00_01_00_00_00_00_00_00_00) == 0b00_00_00_00_00_00_00_00_00_00_01_01_01_01_00_00_00_00_00_00_00_00_00_00_00)
        && (0b00_00_01_00_00_00_00_01_00_00_00_00_01_00_00_00_00_01_00_00_00_00_00_00_00u64 & 0xaaaa_aaaa_aaaa_aaaau64 == 0)
        && (0b00_00_01_00_00_00_00_01_00_00_00_00_01_00_00_00_00_01_00_00_00_00_00_00_00u64 >> 50u64 == 0)
        && (turn_expr(0b00_00_00_00_00_00_01_00_00_00_00_01_00_00_00_00_01_00_00_00_00_01_00_00_00) == 0b00_00_00_00_00_00_00_00_00_00_00_00_00_00_00_00_01_01_01_01_00_00_00_00_00)
        && (0b00_00_00_00_00_00_01_00_00_00_00_01_00_00_00_00_01_00_00_00_00_01_00_00_00u64 & 0xaaaa_aaaa_aaaa_aaaau64 == 0)
        && (0b00_00_00_00_00_00_01_00_00_00_00_01_00_00_00_00_01_00_00_00_00_01_00_00_00u64 >> 50u64 == 0)
        && (turn_expr(0b00_01_00_00_00_00_01_00_00_00_00_01_00_00_00_00_01_00_00_00_00_00_00_00_00) == 0b00_00_00_00_00_00_00_00_00_00_00_00_00_00_00_01_01_01_01_00_00_00_00_00_00)
        && (0b00_01_00_00_00_00_01_00_00_00_00_01_00_00_00_00_01_00_00_00_00_00_00_00_00u64 & 0xaaaa_aaaa_aaaa_aaaau64 == 0)
        && (0b00_01_00_00_00_00_01_00_00_00_00_01_00_00_00_00_01_00_00_00_00_00_00_00_00u64 >> 50u64 == 0)
        && (turn_expr(0b00_00_00_00_00_01_00_00_00_00_01_00_00_00_00_01_00_00_00_00_01_00_00_00_00) == 0b00_00_00_00_00_00_00_00_00_00_00_00_00_00_00_00_00_00_00_00_00_01_01_01_01)
        && (0b00_00_00_00_00_01_00_00_00_00_01_00_00_00_00_01_00_00_00_00_01_00_00_00_00u64 & 0xaaaa_aaaa_aaaa_aaaau64 == 0)
        && (0b00_00_00_00_00_01_00_00_00_00_01_00_00_00_00_01_00_00_00_00_01_00_00_00_00u64 >> 50u64 == 0)
        && (turn_expr(0b01_00_00_00_00_01_00_00_00_00_01_00_00_00_00_01_00_00_00_00_00_00_00_00_00) == 0b00_00_00_00_00_00_00_00_00_00_00_00_00_00_00_00_00_00_00_00_01_01_01_01_00)
        && (0b01_00_00_00_00_01_00_00_00_00_01_00_00_00_00_01_00_00_00_00_00_00_00_00_00u64 & 0xaaaa_aaaa_aaaa_aaaau64 == 0)
        && (0b01_00_00_00_00_01_00_00_00_00_01_00_00_00_00_01_00_00_00_00_00_00_00_00_00u64 >> 50u64 == 0)
        && (turn_expr(0b00_01_00_00_00_00_00_01_00_00_00_00_00_01_00_00_00_00_00_01_00_00_00_00_00) == 0b00_00_00_01_00_00_00_01_00_00_00_01_00_00_00_01_00_00_00_00_00_00_00_00_00)
        && (0b00_01_00_00_00_00_00_01_00_00_00_00_00_01_00_00_00_00_00_01_00_00_00_00_00u64 & 0xaaaa_aaaa_aaaa_aaaau64 == 0)
        && (0b00_01_00_00_00_00_00_01_00_00_00_00_00_01_00_00_00_00_00_01_00_00_00_00_00u64 >> 50u64 == 0)
        && (turn_expr(0b00_00_00_00_00_00_01_00_00_00_00_00_01_00_00_00_00_00_01_00_00_00_00_00_01) == 0b00_00_00_00_01_00_00_00_01_00_00_00_01_00_00_00_01_00_00_00_00_00_00_00_00)
        && (0b00_00_00_00_00_00_01_00_00_00_00_00_01_00_00_00_00_00_01_00_00_00_00_00_01u64 & 0xaaaa_aaaa_aaaa_aaaau64 == 0)
        && (0b00_00_00_00_00_00_01_00_00_00_00_00_01_00_00_00_00_00_01_00_00_00_00_00_01u64 >> 50u64 == 0)
        && (turn_expr(0b01_00_00_00_00_00_01_00_00_00_00_00_01_00_00_00_00_00_01_00_00_00_00_00_00) == 0b00_00_00_00_00_00_00_00_01_00_00_00_01_00_00_00_01_00_00_00_01_00_00_00_00)
        && (0b01_00_00_00_00_00_01_00_00_00_00_00_01_00_00_00_00_00_01_00_00_00_00_00_00u64 & 0xaaaa_aaaa_aaaa_aaaau64 == 0)
        && (0b01_00_00_00_00_00_01_00_00_00_00_00_01_00_00_00_00_00_01_00_00_00_00_00_00u64 >> 50u64 == 0)
        && (turn_expr(0b00_00_00_00_00_01_00_00_00_00_00_01_00_00_00_00_00_01_00_00_00_00_00_01_00) == 0b00_00_00_00_00_00_00_00_00_01_00_00_00_01_00_00_00_01_00_00_00_01_00_00_00)
        && (0b00_00_00_00_00_01_00_00_00_00_00_01_00_00_00_00_00_01_00_00_00_00_00_01_00u64 & 0xaaaa_aaaa_aaaa_aaaau64 == 0)
        && (0b00_00_00_00_00_01_00_00_00_00_00_01_00_00_00_00_00_01_00_00_00_00_00_01_00u64 >> 50u64 == 0)
        && (turn_expr(0b00_00_00_01_00_00_00_01_00_00_00_01_00_00_00_01_00_00_00_00_00_00_00_00_00) == 0b00_00_00_00_00_01_00_00_00_00_00_01_00_00_00_00_00_01_00_00_00_00_00_01_00)
        && (0b00_00_00_01_00_00_00_01_00_00_00_01_00_00_00_01_00_00_00_00_00_00_00_00_00u64 & 0xaaaa_aaaa_aaaa_aaaau64 == 0)
        && (0b00_00_00_01_00_00_00_01_00_00_00_01_00_00_00_01_00_00_00_00_00_00_00_00_00u64 >> 50u64 == 0)
        && (turn_expr(0b00_00_00_00_00_00_00_00_01_00_00_00_01_00_00_00_01_00_00_00_01_00_00_00_00) == 0b00_00_00_00_00_00_01_00_00_00_00_00_01_00_00_00_00_00_01_00_00_00_00_00_01)
        && (0b00_00_00_00_00_00_00_00_01_00_00_00_01_00_00_00_01_00_00_00_01_00_00_00_00u64 & 0xaaaa_aaaa_aaaa_aaaau64 == 0)
        && (0b00_00_00_00_00_00_00_00_01_00_00_00_01_00_00_00_01_00_00_00_01_00_00_00_00u64 >> 50u64 == 0)
        && (turn_expr(0b00_00_00_00_01_00_00_00_01_00_00_00_01_00_00_00_01_00_00_00_00_00_00_00_00) == 0b01_00_00_00_00_00_01_00_00_00_00_00_01_00_00_00_00_00_01_00_00_00_00_00_00)
        && (0b00_00_00_00_01_00_00_00_01_00_00_00_01_00_00_00_01_00_00_00_00_00_00_00_00u64 & 0xaaaa_aaaa_aaaa_aaaau64 == 0)
        && (0b00_00_00_00_01_00_00_00_01_00_00_00_01_00_00_00_01_00_00_00_00_00_00_00_00u64 >> 50u64 == 0)
        && (turn_expr(0b00_00_00_00_00_00_00_00_00_01_00_00_00_01_00_00_00_01_00_00_00_01_00_00_00) == 0b00_01_00_00_00_00_00_01_00_00_00_00_00_01_00_00_00_00_00_01_00_00_00_00_00)
        && (0b00_00_00_00_00_00_00_00_00_01_00_00_00_01_00_00_00_01_00_00_00_01_00_00_00u64 & 0xaaaa_aaaa_aaaa_aaaau64 == 0)
        && (0b00_00_00_00_00_00_00_00_00_01_00_00_00_01_00_00_00_01_00_00_00_01_00_00_00u64 >> 50u64 == 0)) by (bit_vector);
}

proof fn lemma_line_flip_words()
    ensures
        (flip_expr(0b00_00_00_00_00_00_00_00_00_00_00_00_00_00_00_00_00_00_00_00_00_01_01_01_01) == 0b00_01_01_01_01_00_00_00_00_00_00_00_00_00_00_00_00_00_00_00_00_00_00_00_00)
            && (0b00_00_00_00_00_00_00_00_00_00_00_00_00_00_00_00_00_00_00_00_00_01_01_01_01u64 & 0xaaaa_aaaa_aaaa_aaaau64 == 0)
            && (0b00_00_00_00_00_00_00_00_00_00_00_00_00_00_00_00_00_00_00_00_00_01_01_01_01u64 >> 50u64 == 0)
            && (flip_expr(0b00_00_00_00_00_00_00_00_00_00_00_00_00_00_00_00_00_00_00_00_01_01_01_01_00) == 0b01_01_01_01_00_00_00_00_00_00_00_00_00_00_00_00_00_00_00_00_00_00_00_00_00)
            && (0b00_00_00_00_00_00_00_00_00_00_00_00_00_00_00_00_00_00_00_00_01_01_01_01_00u64 & 0xaaaa_aaaa_aaaa_aaaau64 == 0)
            && (0b00_00_00_00_00_00_00_00_00_00_00_00_00_00_00_00_00_00_00_00_01_01_01_01_00u64 >> 50u64 == 0)
            && (flip_expr(0b00_00_00_00_00_00_00_00_00_00_00_00_00_00_00_00_01_01_01_01_00_00_00_00_00) == 0b00_00_00_00_00_00_01_01_01_01_00_00_00_00_00_00_00_00_00_00_00_00_00_00_00)
            && (0b00_00_00_00_00_00_00_00_00_00_00_00_00_00_00_00_01_01_01_01_00_00_00_00_00u64 & 0xaaaa_aaaa_aaaa_aaaau64 == 0)
            && (0b00_00_00_00_00_00_00_00_00_00_00_00_00_00_00_00_01_01_01_01_00_00_00_00_00u64 >> 50u64 == 0)
            && (flip_expr(0b00_00_00_00_00_00_00_00_00_00_00_00_00_00_00_01_01_01_01_00_00_00_00_00_00) == 0b00_00_00_00_00_01_01_01_01_00_00_00_00_00_00_00_00_00_00_00_00_00_00_00_00)
            && (0b00_00_00_00_00_00_00_00_00_00_00_00_00_00_00_01_01_01_01_00_00_00_00_00_00u64 & 0xaaaa_aaaa_aaaa_aaaau64 == 0)
            && (0b00_00_00_00_00_00_00_00_00_00_00_00_00_00_00_01_01_01_01_00_00_00_00_00_00u64 >> 50u64 == 0)
            && (flip_expr(0b00_00_00_00_00_00_00_00_00_00_00_01_01_01_01_00_00_00_00_00_00_00_00_00_00) == 0b00_00_00_00_00_00_00_00_00_00_00_01_01_01_01_00_00_00_00_00_00_00_00_00_00)
            && (0b00_00_00_00_00_00_00_00_00_00_00_01_01_01_01_00_00_00_00_00_00_00_00_00_00u64 & 0xaaaa_aaaa_aaaa_aaaau64 == 0)
            && (0b00_00_00_00_00_00_00_00_00_00_00_01_01_01_01_00_00_00_00_00_00_00_00_00_00u64 >> 50u64 == 0)
            && (flip_expr(0b00_00_00_00_00_00_00_00_00_00_01_01_01_01_00_00_00_00_00_00_00_00_00_00_00) == 0b00_00_00_00_00_00_00_00_00_00_01_01_01_01_00_00_00_00_00_00_00_00_00_00_00)
            && (0b00_00_00_00_00_00_00_00_00_00_01_01_01_01_00_00_00_00_00_00_00_00_00_00_00u64 & 0xaaaa_aaaa_aaaa_aaaau64 == 0)
            && (0b00_00_00_00_00_00_00_00_00_00_01_01_01_01_00_00_00_00_00_00_00_00_00_00_00u64 >> 50u64 == 0)
            && (flip_expr(0b00_00_00_00_00_00_01_01_01_01_00_00_00_00_00_00_00_00_00_00_00_00_00_00_00) == 0b00_00_00_00_00_00_00_00_00_00_00_00_00_00_00_00_01_01_01_01_00_00_00_00_00)
            && (0b00_00_00_00_00_00_01_01_01_01_00_00_00_00_00_00_00_00_00_00_00_00_00_00_00u64 & 0xaaaa_aaaa_aaaa_aaaau64 == 0)
            && (0b00_00_00_00_00_00_01_01_01_01_00_00_00_00_00_00_00_00_00_00_00_00_00_00_00u64 >> 50u64 == 0)
            && (flip_expr(0b00_00_00_00_00_01_01_01_01_00_00_00_00_00_00_00_00_00_00_00_00_00_00_00_00) == 0b00_00_00_00_00_00_00_00_00_00_00_00_00_00_00_01_01_01_01_00_00_00_00_00_00)
            && (0b00_00_00_00_00_01_01_01_01_00_00_00_00_00_00_00_00_00_00_00_00_00_00_00_00u64 & 0xaaaa_aaaa_aaaa_aaaau64 == 0)
            && (0b00_00_00_00_00_01_01_01_01_00_00_00_00_00_00_00_00_00_00_00_00_00_00_00_00u64 >> 50u64 == 0)
            && (flip_expr(0b00_01_01_01_01_00_00_00_00_00_00_00_00_00_00_00_00_00_00_00_00_00_00_00_00) == 0b00_00_00_00_00_00_00_00_00_00_00_00_00_00_00_00_00_00_00_00_00_01_01_01_01)
            && (0b00_01_01_01_01_00_00_00_00_00_00_00_00_00_00_00_00_00_00_00_00_00_00_00_00u64 & 0xaaaa_aaaa_aaaa_aaaau64 == 0)
            && (0b00_01_01_01_01_00_00_00_00_00_00_00_00_00_00_00_00_00_00_00_00_00_00_00_00u64 >> 50u64 == 0)
            && (flip_expr(0b01_01_01_01_00_00_00_00_00_00_00_00_00_00_00_00_00_00_00_00_00_00_00_00_00) == 0b00_00_00_00_00_00_00_00_00_00_00_00_00_00_00_00_00_00_00_00_01_01_01_01_00)
            && (0b01_01_01_01_00_00_00_00_00_00_00_00_00_00_00_00_00_00_00_00_00_00_00_00_00u64 & 0xaaaa_aaaa_aaaa_aaaau64 == 0)
            && (0b01_01_01_01_00_00_00_00_00_00_00_00_00_00_00_00_00_00_00_00_00_00_00_00_00u64 >> 50u64 == 0)
            && (flip_expr(0b00_00_00_00_00_00_00_00_00_01_00_00_00_00_01_00_00_00_00_01_00_00_00_00_01) == 0b00_00_00_00_01_00_00_00_00_01_00_00_00_00_01_00_00_00_00_01_00_00_00_00_00)
            && (0b00_00_00_00_00_00_00_00_00_01_00_00_00_00_01_00_00_00_00_01_00_00_00_00_01u64 & 0xaaaa_aaaa_aaaa_aaaau64 == 0)
            && (0b00_00_00_00_00_00_00_00_00_01_00_00_00_00_01_00_00_00_00_01_00_00_00_00_01u64 >> 50u64 == 0)
            && (flip_expr(0b00_00_00_00_01_00_00_00_00_01_00_00_00_00_01_00_00_00_00_01_00_00_00_00_00) == 0b00_00_00_00_00_00_00_00_00_01_00_00_00_00_01_00_00_00_00_01_00_00_00_00_01)
            && (0b00_00_00_00_01_00_00_00_00_01_00_00_00_00_01_00_00_00_00_01_00_00_00_00_00u64 & 0xaaaa_aaaa_aaaa_aaaau64 == 0)
            && (0b00_00_00_00_01_00_00_00_00_01_00_00_00_00_01_00_00_00_00_01_00_00_00_00_00u64 >> 50u64 == 0)
            && (flip_expr(0b00_00_00_00_00_00_00_00_01_00_00_00_00_01_00_00_00_00_01_00_00_00_00_01_00) == 0b00_00_00_01_00_00_00_00_01_00_00_00_00_01_00_00_00_00_01_00_00_00_00_00_00)
            && (0b00_00_00_00_00_00_00_00_01_00_00_00_00_01_00_00_00_00_01_00_00_00_00_01_00u64 & 0xaaaa_aaaa_aaaa_aaaau64 == 0)
            && (0b00_00_00_00_00_00_00_00_01_00_00_00_00_01_00_00_00_00_01_00_00_00_00_01_00u64 >> 50u64 == 0)
            && (flip_expr(0b00_00_00_01_00_00_00_00_01_00_00_00_00_01_00_00_00_00_01_00_00_00_00_00_00) == 0b00_00_00_00_00_00_00_00_01_00_00_00_00_01_00_00_00_00_01_00_00_00_00_01_00)
            && (0b00_00_00_01_00_00_00_00_01_00_00_00_00_01_00_00_00_00_01_00_00_00_00_00_00u64 & 0xaaaa_aaaa_aaaa_aaaau64 == 0)
            && (0b00_00_00_01_00_00_00_00_01_00_00_00_00_01_00_00_00_00_01_00_00_00_00_00_00u64 >> 50u64 == 0)
            && (flip_expr(0b00_00_00_00_00_00_00_01_00_00_00_00_01_00_00_00_00_01_00_00_00_00_01_00_00) == 0b00_00_01_00_00_00_00_01_00_00_00_00_01_00_00_00_00_01_00_00_00_00_00_00_00)
            && (0b00_00_00_00_00_00_00_01_00_00_00_00_01_00_00_00_00_01_00_00_00_00_01_00_00u64 & 0xaaaa_aaaa_aaaa_aaaau64 == 0)
            && (0b00_00_00_00_00_00_00_01_00_00_00_00_01_00_00_00_00_01_00_00_00_00_01_00_00u64 >> 50u64 == 0)
            && (flip_expr(0b00_00_01_00_00_00_00_01_00_00_00_00_01_00_00_00_00_01_00_00_00_00_00_00_00) == 0b00_00_00_00_00_00_00_01_00_00_00_00_01_00_00_00_00_01_00_00_00_00_01_00_00)
            && (0b00_00_01_00_00_00_00_01_00_00_00_00_01_00_00_00_00_01_00_00_00_00_00_00_00u64 & 0xaaaa_aaaa_aaaa_aaaau64 == 0)
            && (0b00_00_01_00_00_00_00_01_00_00_00_00_01_00_00_00_00_01_00_00_00_00_00_00_00u64 >> 50u64 == 0)
            && (flip_expr(0b00_00_00_00_00_00_01_00_00_00_00_01_00_00_00_00_01_00_00_00_00_01_00_00_00) == 0b00_01_00_00_00_00_01_00_00_00_00_01_00_00_00_00_01_00_00_00_00_00_00_00_00)
            && (0b00_00_00_00_00_00_01_00_00_00_00_01_00_00_00_00_01_00_00_00_00_01_00_00_00u64 & 0xaaaa_aaaa_aaaa_aaaau64 == 0)
            && (0b00_00_00_00_00_00_01_00_00_00_00_01_00_00_00_00_01_00_00_00_00_01_00_00_00u64 >> 50u64 == 0)
            && (flip_expr(0b00_01_00_00_00_00_01_00_00_00_00_01_00_00_00_00_01_00_00_00_00_00_00_00_00) == 0b00_00_00_00_00_00_01_00_00_00_00_01_00_00_00_00_01_00_00_00_00_01_00_00_00)
            && (0b00_01_00_00_00_00_01_00_00_00_00_01_00_00_00_00_01_00_00_00_00_00_00_00_00u64 & 0xaaaa_aaaa_aaaa_aaaau64 == 0)
            && (0b00_01_00_00_00_00_01_00_00_00_00_01_00_00_00_00_01_00_00_00_00_00_00_00_00u64 >> 50u64 == 0)
            && (flip_expr(0b00_00_00_00_00_01_00_00_00_00_01_00_00_00_00_01_00_00_00_00_01_00_00_00_00) == 0b01_00_00_00_00_01_00_00_00_00_01_00_00_00_00_01_00_00_00_00_00_00_00_00_00)
            && (0b00_00_00_00_00_01_00_00_00_00_01_00_00_00_00_01_00_00_00_00_01_00_00_00_00u64 & 0xaaaa_aaaa_aaaa_aaaau64 == 0)
            && (0b00_00_00_00_00_01_00_00_00_00_01_00_00_00_00_01_00_00_00_00_01_00_00_00_00u64 >> 50u64 == 0)
            && (flip_expr(0b01_00_00_00_00_01_00_00_00_00_01_00_00_00_00_01_00_00_00_00_00_00_00_00_00) == 0b00_00_00_00_00_01_00_00_00_00_01_00_00_00_00_01_00_00_00_00_01_00_00_00_00)
            && (0b01_00_00_00_00_01_00_00_00_00_01_00_00_00_00_01_00_00_00_00_00_00_00_00_00u64 & 0xaaaa_aaaa_aaaa_aaaau64 == 0)
            && (0b01_00_00_00_00_01_00_00_00_00_01_00_00_00_00_01_00_00_00_00_00_00_00_00_00u64 >> 50u64 == 0)
            && (flip_expr(0b00_01_00_00_00_00_00_01_00_00_00_00_00_01_00_00_00_00_00_01_00_00_00_00_00) == 0b00_00_00_00_00_00_00_00_00_01_00_00_00_01_00_00_00_01_00_00_00_01_00_00_00)
            && (0b00_01_00_00_00_00_00_01_00_00_00_00_00_01_00_00_00_00_00_01_00_00_00_00_00u64 & 0xaaaa_aaaa_aaaa_aaaau64 == 0)
            && (0b00_01_00_00_00_00_00_01_00_00_00_00_00_01_00_00_00_00_00_01_00_00_00_00_00u64 >> 50u64 == 0)
            && (flip_expr(0b00_00_00_00_00_00_01_00_00_00_00_00_01_00_00_00_00_00_01_00_00_00_00_00_01) == 0b00_00_00_00_01_00_00_00_01_00_00_00_01_00_00_00_01_00_00_00_00_00_00_00_00)
            && (0b00_00_00_00_00_00_01_00_00_00_00_00_01_00_00_00_00_00_01_00_00_00_00_00_01u64 & 0xaaaa_aaaa_aaaa_aaaau64 == 0)
            && (0b00_00_00_00_00_00_01_00_00_00_00_00_01_00_00_00_00_00_01_00_00_00_00_00_01u64 >> 50u64 == 0)
            && (flip_expr(0b01_00_00_00_00_00_01_00_00_00_00_00_01_00_00_00_00_00_01_00_00_00_00_00_00) == 0b00_00_00_00_00_00_00_00_01_00_00_00_01_00_00_00_01_00_00_00_01_00_00_00_00)
            && (0b01_00_00_00_00_00_01_00_00_00_00_00_01_00_00_00_00_00_01_00_00_00_00_00_00u64 & 0xaaaa_aaaa_aaaa_aaaau64 == 0)
            && (0b01_00_00_00_00_00_01_00_00_00_00_00_01_00_00_00_00_00_01_00_00_00_00_00_00u64 >> 50u64 == 0)
            && (flip_expr(0b00_00_00_00_00_01_00_00_00_00_00_01_00_00_00_00_00_01_00_00_00_00_00_01_00) == 0b00_00_00_01_00_00_00_01_00_00_00_01_00_00_00_01_00_00_00_00_00_00_00_00_00)
            && (0b00_00_00_00_00_01_00_00_00_00_00_01_00_00_00_00_00_01_00_00_00_00_00_01_00u64 & 0xaaaa_aaaa_aaaa_aaaau64 == 0)
            && (0b00_00_00_00_00_01_00_00_00_00_00_01_00_00_00_00_00_01_00_00_00_00_00_01_00u64 >> 50u64 == 0)
            && (flip_expr(0b00_00_00_01_00_00_00_01_00_00_00_01_00_00_00_01_00_00_00_00_00_00_00_00_00) == 0b00_00_00_00_00_01_00_00_00_00_00_01_00_00_00_00_00_01_00_00_00_00_00_01_00)
            && (0b00_00_00_01_00_00_00_01_00_00_00_01_00_00_00_01_00_00_00_00_00_00_00_00_00u64 & 0xaaaa_aaaa_aaaa_aaaau64 == 0)
            && (0b00_00_00_01_00_00_00_01_00_00_00_01_00_00_00_01_00_00_00_00_00_00_00_00_00u64 >> 50u64 == 0)
            && (flip_expr(0b00_00_00_00_00_00_00_00_01_00_00_00_01_00_00_00_01_00_00_00_01_00_00_00_00) == 0b01_00_00_00_00_00_01_00_00_00_00_00_01_00_00_00_00_00_01_00_00_00_00_00_00)
            && (0b00_00_00_00_00_00_00_00_01_00_00_00_01_00_00_00_01_00_00_00_01_00_00_00_00u64 & 0xaaaa_aaaa_aaaa_aaaau64 == 0)
            && (0b00_00_00_00_00_00_00_00_01_00_00_00_01_00_00_00_01_00_00_00_01_00_00_00_00u64 >> 50u64 == 0)
            && (flip_expr(0b00_00_00_00_01_00_00_00_01_00_00_00_01_00_00_00_01_00_00_00_00_00_00_00_00) == 0b00_00_00_00_00_00_01_00_00_00_00_00_01_00_00_00_00_00_01_00_00_00_00_00_01)
            && (0b00_00_00_00_01_00_00_00_01_00_00_00_01_00_00_00_01_00_00_00_00_00_00_00_00u64 & 0xaaaa_aaaa_aaaa_aaaau64 == 0)
            && (0b00_00_00_00_01_00_00_00_01_00_00_00_01_00_00_00_01_00_00_00_00_00_00_00_00u64 >> 50u64 == 0)
            && (flip_expr(0b00_00_00_00_00_00_00_00_00_01_00_00_00_01_00_00_00_01_00_00_00_01_00_00_00) == 0b00_01_00_00_00_00_00_01_00_00_00_00_00_01_00_00_00_00_00_01_00_00_00_00_00)
            && (0b00_00_00_00_00_00_00_00_00_01_00_00_00_01_00_00_00_01_00_00_00_01_00_00_00u64 & 0xaaaa_aaaa_aaaa_aaaau64 == 0)
            && (0b00_00_00_00_00_00_00_00_00_01_00_00_00_01_00_00_00_01_00_00_00_01_00_00_00u64 >> 50u64 == 0),
{
    assert((flip_expr(0b00_00_00_00_00_00_00_00_00_00_00_00_00_00_00_00_00_00_00_00_00_01_01_01_01) == 0b00_01_01_01_01_00_00_00_00_00_00_00_00_00_00_00_00_00_00_00_00_00_00_00_00)
        && (0b00_00_00_00_00_00_00_00_00_00_00_00_00_00_00_00_00_00_00_00_00_01_01_01_01u64 & 0xaaaa_aaaa_aaaa_aaaau64 == 0)
        && (0b00_00_00_00_00_00_00_00_00_00_00_00_00_00_00_00_00_00_00_00_00_01_01_01_01u64 >> 50u64 == 0)
        && (flip_expr(0b00_00_00_00_00_00_00_00_00_00_00_00_00_00_00_00_00_00_00_00_01_01_01_01_00) == 0b01_01_01_01_00_00_00_00_00_00_00_00_00_00_00_00_00_00_00_00_00_00_00_00_00)
        && (0b00_00_00_00_00_00_00_00_00_00_00_00_00_00_00_00_00_00_00_00_01_01_01_01_00u64 & 0xaaaa_aaaa_aaaa_aaaau64 == 0)
        && (0b00_00_00_00_00_00_00_00_00_00_00_00_00_00_00_00_00_00_00_00_01_01_01_01_00u64 >> 50u64 == 0)
        && (flip_expr(0b00_00_00_00_00_00_00_00_00_00_00_00_00_00_00_00_01_01_01_01_00_00_00_00_00) == 0b00_00_00_00_00_00_01_01_01_01_00_00_00_00_00_00_00_00_00_00_00_00_00_00_00)
        && (0b00_00_00_00_00_00_00_00_00_00_00_00_00_00_00_00_01_01_01_01_00_00_00_00_00u64 & 0xaaaa_aaaa_aaaa_aaaau64 == 0)
        && (0b00_00_00_00_00_00_00_00_00_00_00_00_00_00_00_00_01_01_01_01_00_00_00_00_00u64 >> 50u64 == 0)
        && (flip_expr(0b00_00_00_00_00_00_00_00_00_00_00_00_00_00_00_01_01_01_01_00_00_00_00_00_00) == 0b00_00_00_00_00_01_01_01_01_00_00_00_00_00_00_00_00_00_00_00_00_00_00_00_00)
        && (0b00_00_00_00_00_00_00_00_00_00_00_00_00_00_00_01_01_01_01_00_00_00_00_00_00u64 & 0xaaaa_aaaa_aaaa_aaaau64 == 0)
        && (0b00_00_00_00_00_00_00_00_00_00_00_00_00_00_00_01_01_01_01_00_00_00_00_00_00u64 >> 50u64 == 0)
        && (flip_expr(0b00_00_00_00_00_00_00_00_00_00_00_01_01_01_01_00_00_00_00_00_00_00_00_00_00) == 0b00_00_00_00_00_00_00_00_00_00_00_01_01_01_01_00_00_00_00_00_00_00_00_00_00)
        && (0b00_00_00_00_00_00_00_00_00_00_00_01_01_01_01_00_00_00_00_00_00_00_00_00_00u64 & 0xaaaa_aaaa_aaaa_aaaau64 == 0)
        && (0b00_00_00_00_00_00_00_00_00_00_00_01_01_01_01_00_00_00_00_00_00_00_00_00_00u64 >> 50u64 == 0)
        && (flip_expr(0b00_00_00_00_00_00_00_00_00_00_01_01_01_01_00_00_00_00_00_00_00_00_00_00_00) == 0b00_00_00_00_00_00_00_00_00_00_01_01_01_01_00_00_00_00_00_00_00_00_00_00_00)
        && (0b00_00_00_00_00_00_00_00_00_00_01_01_01_01_00_00_00_00_00_00_00_00_00_00_00u64 & 0xaaaa_aaaa_aaaa_aaaau64 == 0)
        && (0b00_00_00_00_00_00_00_00_00_00_01_01_01_01_00_00_00_00_00_00_00_00_00_00_00u64 >> 50u64 == 0)
        && (flip_expr(0b00_00_00_00_00_00_01_01_01_01_00_00_00_00_00_00_00_00_00_00_00_00_00_00_00) == 0b00_00_00_00_00_00_00_00_00_00_00_00_00_00_00_00_01_01_01_01_00_00_00_00_00)
        && (0b00_00_00_00_00_00_01_01_01_01_00_00_00_00_00_00_00_00_00_00_00_00_00_00_00u64 & 0xaaaa_aaaa_aaaa_aaaau64 == 0)
        && (0b00_00_00_00_00_00_01_01_01_01_00_00_00_00_00_00_00_00_00_00_00_00_00_00_00u64 >> 50u64 == 0)
        && (flip_expr(0b00_00_00_00_00_01_01_01_01_00_00_00_00_00_00_00_00_00_00_00_00_00_00_00_00) == 0b00_00_00_00_00_00_00_00_00_00_00_00_00_00_00_01_01_01_01_00_00_00_00_00_00)
        && (0b00_00_00_00_00_01_01_01_01_00_00_00_00_00_00_00_00_00_00_00_00_00_00_00_00u64 & 0xaaaa_aaaa_aaaa_aaaau64 == 0)
        && (0b00_00_00_00_00_01_01_01_01_00_00_00_00_00_00_00_00_00_00_00_00_00_00_00_00u64 >> 50u64 == 0)
        && (flip_expr(0b00_01_01_01_01_00_00_00_00_00_00_00_00_00_00_00_00_00_00_00_00_00_00_00_00) == 0b00_00_00_00_00_00_00_00_00_00_00_00_00_00_00_00_00_00_00_00_00_01_01_01_01)
        && (0b00_01_01_01_01_00_00_00_00_00_00_00_00_00_00_00_00_00_00_00_00_00_00_00_00u64 & 0xaaaa_aaaa_aaaa_aaaau64 == 0)
        && (0b00_01_01_01_01_00_00_00_00_00_00_00_00_00_00_00_00_00_00_00_00_00_00_00_00u64 >> 50u64 == 0)
        && (flip_expr(0b01_01_01_01_00_00_00_00_00_00_00_00_00_00_00_00_00_00_00_00_00_00_00_00_00) == 0b00_00_00_00_00_00_00_00_00_00_00_00_00_00_00_00_00_00_00_00_01_01_01_01_00)
        && (0b01_01_01_01_00_00_00_00_00_00_00_00_00_00_00_00_00_00_00_00_00_00_00_00_00u64 & 0xaaaa_aaaa_aaaa_aaaau64 == 0)
        && (0b01_01_01_01_00_00_00_00_00_00_00_00_00_00_00_00_00_00_00_00_00_00_00_00_00u64 >> 50u64 == 0)
        && (flip_expr(0b00_00_00_00_00_00_00_00_00_01_00_00_00_00_01_00_00_00_00_01_00_00_00_00_01) == 0b00_00_00_00_01_00_00_00_00_01_00_00_00_00_01_00_00_00_00_01_00_00_00_00_00)
        && (0b00_00_00_00_00_00_00_00_00_01_00_00_00_00_01_00_00_00_00_01_00_00_00_00_01u64 & 0xaaaa_aaaa_aaaa_aaaau64 == 0)
        && (0b00_00_00_00_00_00_00_00_00_01_00_00_00_00_01_00_00_00_00_01_00_00_00_00_01u64 >> 50u64 == 0)
        && (flip_expr(0b00_00_00_00_01_00_00_00_00_01_00_00_00_00_01_00_00_00_00_01_00_00_00_00_00) == 0b00_00_00_00_00_00_00_00_00_01_00_00_00_00_01_00_00_00_00_01_00_00_00_00_01)
        && (0b00_00_00_00_01_00_00_00_00_01_00_00_00_00_01_00_00_00_00_01_00_00_00_00_00u64 & 0xaaaa_aaaa_aaaa_aaaau64 == 0)
        && (0b00_00_00_00_01_00_00_00_00_01_00_00_00_00_01_00_00_00_00_01_00_00_00_00_00u64 >> 50u64 == 0)
        && (flip_expr(0b00_00_00_00_00_00_00_00_01_00_00_00_00_01_00_00_00_00_01_00_00_00_00_01_00) == 0b00_00_00_01_00_00_00_00_01_00_00_00_00_01_00_00_00_00_01_00_00_00_00_00_00)
        && (0b00_00_00_00_00_00_00_00_01_00_00_00_00_01_00_00_00_00_01_00_00_00_00_01_00u64 & 0xaaaa_aaaa_aaaa_aaaau64 == 0)
        && (0b00_00_00_00_00_00_00_00_01_00_00_00_00_01_00_00_00_00_01_00_00_00_00_01_00u64 >> 50u64 == 0)
        && (flip_expr(0b00_00_00_01_00_00_00_00_01_00_00_00_00_01_00_00_00_00_01_00_00_00_00_00_00) == 0b00_00_00_00_00_00_00_00_01_00_00_00_00_01_00_00_00_00_01_00_00_00_00_01_00)
        && (0b00_00_00_01_00_00_00_00_01_00_00_00_00_01_00_00_00_00_01_00_00_00_00_00_00u64 & 0xaaaa_aaaa_aaaa_aaaau64 == 0)
        && (0b00_00_00_01_00_00_00_00_01_00_00_00_00_01_00_00_00_00_01_00_00_00_00_00_00u64 >> 50u64 == 0)
        && (flip_expr(0b00_00_00_00_00_00_00_01_00_00_00_00_01_00_00_00_00_01_00_00_00_00_01_00_00) == 0b00_00_01_00_00_00_00_01_00_00_00_00_01_00_00_00_00_01_00_00_00_00_00_00_00)
        && (0b00_00_00_00_00_00_00_01_00_00_00_00_01_00_00_00_00_01_00_00_00_00_01_00_00u64 & 0xaaaa_aaaa_aaaa_aaaau64 == 0)
        && (0b00_00_00_00_00_00_00_01_00_00_00_00_01_00_00_00_00_01_00_00_00_00_01_00_00u64 >> 50u64 == 0)
        && (flip_expr(0b00_00_01_00_00_00_00_01_00_00_00_00_01_00_00_00_00_01_00_00_00_00_00_00_00) == 0b00_00_00_00_00_00_00_01_00_00_00_00_01_00_00_00_00_01_00_00_00_00_01_00_00)
        && (0b00_00_01_00_00_00_00_01_00_00_00_00_01_00_00_00_00_01_00_00_00_00_00_00_00u64 & 0xaaaa_aaaa_aaaa_aaaau64 == 0)
        && (0b00_00_01_00_00_00_00_01_00_00_00_00_01_00_00_00_00_01_00_00_00_00_00_00_00u64 >> 50u64 == 0)
        && (flip_expr(0b00_00_00_00_00_00_01_00_00_00_00_01_00_00_00_00_01_00_00_00_00_01_00_00_00) == 0b00_01_00_00_00_00_01_00_00_00_00_01_00_00_00_00_01_00_00_00_00_00_00_00_00)
        && (0b00_00_00_00_00_00_01_00_00_00_00_01_00_00_00_00_01_00_00_00_00_01_00_00_00u64 & 0xaaaa_aaaa_aaaa_aaaau64 == 0)
        && (0b00_00_00_00_00_00_01_00_00_00_00_01_00_00_00_00_01_00_00_00_00_01_00_00_00u64 >> 50u64 == 0)
        && (flip_expr(0b00_01_00_00_00_00_01_00_00_00_00_01_00_00_00_00_01_00_00_00_00_00_00_00_00) == 0b00_00_00_00_00_00_01_00_00_00_00_01_00_00_00_00_01_00_00_00_00_01_00_00_00)
        && (0b00_01_00_00_00_00_01_00_00_00_00_01_00_00_00_00_01_00_00_00_00_00_00_00_00u64 & 0xaaaa_aaaa_aaaa_aaaau64 == 0)
        && (0b00_01_00_00_00_00_01_00_00_00_00_01_00_00_00_00_01_00_00_00_00_00_00_00_00u64 >> 50u64 == 0)
        && (flip_expr(0b00_00_00_00_00_01_00_00_00_00_01_00_00_00_00_01_00_00_00_00_01_00_00_00_00) == 0b01_00_00_00_00_01_00_00_00_00_01_00_00_00_00_01_00_00_00_00_00_00_00_00_00)
        && (0b00_00_00_00_00_01_00_00_00_00_01_00_00_00_00_01_00_00_00_00_01_00_00_00_00u64 & 0xaaaa_aaaa_aaaa_aaaau64 == 0)
        && (0b00_00_00_00_00_01_00_00_00_00_01_00_00_00_00_01_00_00_00_00_01_00_00_00_00u64 >> 50u64 == 0)
        && (flip_expr(0b01_00_00_00_00_01_00_00_00_00_01_00_00_00_00_01_00_00_00_00_00_00_00_00_00) == 0b00_00_00_00_00_01_00_00_00_00_01_00_00_00_00_01_00_00_00_00_01_00_00_00_00)
        && (0b01_00_00_00_00_01_00_00_00_00_01_00_00_00_00_01_00_00_00_00_00_00_00_00_00u64 & 0xaaaa_aaaa_aaaa_aaaau64 == 0)
        && (0b01_00_00_00_00_01_00_00_00_00_01_00_00_00_00_01_00_00_00_00_00_00_00_00_00u64 >> 50u64 == 0)
        && (flip_expr(0b00_01_00_00_00_00_00_01_00_00_00_00_00_01_00_00_00_00_00_01_00_00_00_00_00) == 0b00_00_00_00_00_00_00_00_00_01_00_00_00_01_00_00_00_01_00_00_00_01_00_00_00)
        && (0b00_01_00_00_00_00_00_01_00_00_00_00_00_01_00_00_00_00_00_01_00_00_00_00_00u64 & 0xaaaa_aaaa_aaaa_aaaau64 == 0)
        && (0b00_01_00_00_00_00_00_01_00_00_00_00_00_01_00_00_00_00_00_01_00_00_00_00_00u64 >> 50u64 == 0)
        && (flip_expr(0b00_00_00_00_00_00_01_00_00_00_00_00_01_00_00_00_00_00_01_00_00_00_00_00_01) == 0b00_00_00_00_01_00_00_00_01_00_00_00_01_00_00_00_01_00_00_00_00_00_00_00_00)
        && (0b00_00_00_00_00_00_01_00_00_00_00_00_01_00_00_00_00_00_01_00_00_00_00_00_01u64 & 0xaaaa_aaaa_aaaa_aaaau64 == 0)
        && (0b00_00_00_00_00_00_01_00_00_00_00_00_01_00_00_00_00_00_01_00_00_00_00_00_01u64 >> 50u64 == 0)
        && (flip_expr(0b01_00_00_00_00_00_01_00_00_00_00_00_01_00_00_00_00_00_01_00_00_00_00_00_00) == 0b00_00_00_00_00_00_00_00_01_00_00_00_01_00_00_00_01_00_00_00_01_00_00_00_00)
        && (0b01_00_00_00_00_00_01_00_00_00_00_00_01_00_00_00_00_00_01_00_00_00_00_00_00u64 & 0xaaaa_aaaa_aaaa_aaaau64 == 0)
        && (0b01_00_00_00_00_00_01_00_00_00_00_00_01_00_00_00_00_00_01_00_00_00_00_00_00u64 >> 50u64 == 0)
        && (flip_expr(0b00_00_00_00_00_01_00_00_00_00_00_01_00_00_00_00_00_01_00_00_00_00_00_01_00) == 0b00_00_00_01_00_00_00_01_00_00_00_01_00_00_00_01_00_00_00_00_00_00_00_00_00)
        && (0b00_00_00_00_00_01_00_00_00_00_00_01_00_00_00_00_00_01_00_00_00_00_00_01_00u64 & 0xaaaa_aaaa_aaaa_aaaau64 == 0)
        && (0b00_00_00_00_00_01_00_00_00_00_00_01_00_00_00_00_00_01_00_00_00_00_00_01_00u64 >> 50u64 == 0)
        && (flip_expr(0b00_00_00_01_00_00_00_01_00_00_00_01_00_00_00_01_00_00_00_00_00_00_00_00_00) == 0b00_00_00_00_00_01_00_00_00_00_00_01_00_00_00_00_00_01_00_00_00_00_00_01_00)
        && (0b00_00_00_01_00_00_00_01_00_00_00_01_00_00_00_01_00_00_00_00_00_00_00_00_00u64 & 0xaaaa_aaaa_aaaa_aaaau64 == 0)
        && (0b00_00_00_01_00_00_00_01_00_00_00_01_00_00_00_01_00_00_00_00_00_00_00_00_00u64 >> 50u64 == 0)
        && (flip_expr(0b00_00_00_00_00_00_00_00_01_00_00_00_01_00_00_00_01_00_00_00_01_00_00_00_00) == 0b01_00_00_00_00_00_01_00_00_00_00_00_01_00_00_00_00_00_01_00_00_00_00_00_00)
        && (0b00_00_00_00_00_00_00_00_01_00_00_00_01_00_00_00_01_00_00_00_01_00_00_00_00u64 & 0xaaaa_aaaa_aaaa_aaaau64 == 0)
        && (0b00_00_00_00_00_00_00_00_01_00_00_00_01_00_00_00_01_00_00_00_01_00_00_00_00u64 >> 50u64 == 0)
        && (flip_expr(0b00_00_00_00_01_00_00_00_01_00_00_00_01_00_00_00_01_00_00_00_00_00_00_00_00) == 0b00_00_00_00_00_00_01_00_00_00_00_00_01_00_00_00_00_00_01_00_00_00_00_00_01)
        && (0b00_00_00_00_01_00_00_00_01_00_00_00_01_00_00_00_01_00_00_00_00_00_00_00_00u64 & 0xaaaa_aaaa_aaaa_aaaau64 == 0)
        && (0b00_00_00_00_01_00_00_00_01_00_00_00_01_00_00_00_01_00_00_00_00_00_00_00_00u64 >> 50u64 == 0)
        && (flip_expr(0b00_00_00_00_00_00_00_00_00_01_00_00_00_01_00_00_00_01_00_00_00_01_00_00_00) == 0b00_01_00_00_00_00_00_01_00_00_00_00_00_01_00_00_00_00_00_01_00_00_00_00_00)
        && (0b00_00_00_00_00_00_00_00_00_01_00_00_00_01_00_00_00_01_00_00_00_01_00_00_00u64 & 0xaaaa_aaaa_aaaa_aaaau64 == 0)
        && (0b00_00_00_00_00_00_00_00_00_01_00_00_00_01_00_00_00_01_00_00_00_01_00_00_00u64 >> 50u64 == 0)) by (bit_vector);
}

proof fn lemma_line3_turn_words()
    ensures
        (turn_expr(0b00_00_00_00_00_00_00_00_00_00_00_00_00_00_00_00_01_01_01_00_00_00_00_00_00) == 0b00_00_00_00_00_00_00_00_01_00_00_00_00_01_00_00_00_00_01_00_00_00_00_00_00)
            && (turn_expr(0b00_00_00_00_00_00_00_00_00_00_00_00_00_00_00_01_00_00_00_01_00_00_00_00_00) == 0b00_00_00_01_00_00_00_00_00_00_00_00_00_00_00_00_00_00_00_00_00_00_00_01_00)
            && (0b00_00_00_00_00_00_00_00_00_00_00_00_00_00_00_00_01_01_01_00_00_00_00_00_00u64 & 0xaaaa_aaaa_aaaa_aaaau64 == 0)
            && (0b00_00_00_00_00_00_00_00_00_00_00_00_00_00_00_00_01_01_01_00_00_00_00_00_00u64 >> 50u64 == 0)
            && (0b00_00_00_00_00_00_00_00_00_00_00_00_00_00_00_01_00_00_00_01_00_00_00_00_00u64 & 0xaaaa_aaaa_aaaa_aaaau64 == 0)
            && (0b00_00_00_00_00_00_00_00_00_00_00_00_00_00_00_01_00_00_00_01_00_00_00_00_00u64 >> 50u64 == 0)
            && (turn_expr(0b00_00_00_00_00_00_00_00_00_00_00_01_01_01_00_00_00_00_00_00_00_00_00_00_00) == 0b00_00_00_00_00_00_00_01_00_00_00_00_01_00_00_00_00_01_00_00_00_00_00_00_00)
            && (turn_expr(0b00_00_00_00_00_00_00_00_00_00_01_00_00_00_01_00_00_00_00_00_00_00_00_00_00) == 0b00_00_01_00_00_00_00_00_00_00_00_00_00_00_00_00_00_00_00_00_00_00_01_00_00)
            && (0b00_00_00_00_00_00_00_00_00_00_00_01_01_01_00_00_00_00_00_00_00_00_00_00_00u64 & 0xaaaa_aaaa_aaaa_aaaau64 == 0)
            && (0b00_00_00_00_00_00_00_00_00_00_00_01_01_01_00_00_00_00_00_00_00_00_00_00_00u64 >> 50u64 == 0)
            && (0b00_00_00_00_00_00_00_00_00_00_01_00_00_00_01_00_00_00_00_00_00_00_00_00_00u64 & 0xaaaa_aaaa_aaaa_aaaau64 == 0)
            && (0b00_00_00_00_00_00_00_00_00_00_01_00_00_00_01_00_00_00_00_00_00_00_00_00_00u64 >> 50u64 == 0)
            && (turn_expr(0b00_00_00_00_00_00_01_01_01_00_00_00_00_00_00_00_00_00_00_00_00_00_00_00_00) == 0b00_00_00_00_00_00_01_00_00_00_00_01_00_00_00_00_01_00_00_00_00_00_00_00_00)
            && (turn_expr(0b00_00_00_00_00_01_00_00_00_01_00_00_00_00_00_00_00_00_00_00_00_00_00_00_00) == 0b00_01_00_00_00_00_00_00_00_00_00_00_00_00_00_00_00_00_00_00_00_01_00_00_00)
            && (0b00_00_00_00_00_00_01_01_01_00_00_00_00_00_00_00_00_00_00_00_00_00_00_00_00u64 & 0xaaaa_aaaa_aaaa_aaaau64 == 0)
            && (0b00_00_00_00_00_00_01_01_01_00_00_00_00_00_00_00_00_00_00_00_00_00_00_00_00u64 >> 50u64 == 0)
            && (0b00_00_00_00_00_01_00_00_00_01_00_00_00_00_00_00_00_00_00_00_00_00_00_00_00u64 & 0xaaaa_aaaa_aaaa_aaaau64 == 0)
            && (0b00_00_00_00_00_01_00_00_00_01_00_00_00_00_00_00_00_00_00_00_00_00_00_00_00u64 >> 50u64 == 0)
            && (turn_expr(0b00_00_00_00_00_00_00_00_01_00_00_00_00_01_00_00_00_00_01_00_00_00_00_00_00) == 0b00_00_00_00_00_00_01_01_01_00_00_00_00_00_00_00_00_00_00_00_00_00_00_00_00)
            && (turn_expr(0b00_00_00_01_00_00_00_00_00_00_00_00_00_00_00_00_00_00_00_00_00_00_00_01_00) == 0b00_00_00_00_00_01_00_00_00_01_00_00_00_00_00_00_00_00_00_00_00_00_00_00_00)
            && (0b00_00_00_00_00_00_00_00_01_00_00_00_00_01_00_00_00_00_01_00_00_00_00_00_00u64 & 0xaaaa_aaaa_aaaa_aaaau64 == 0)
            && (0b00_00_00_00_00_00_00_00_01_00_00_00_00_01_00_00_00_00_01_00_00_00_00_00_00u64 >> 50u64 == 0)
            && (0b00_00_00_01_00_00_00_00_00_00_00_00_00_00_00_00_00_00_00_00_00_00_00_01_00u64 & 0xaaaa_aaaa_aaaa_aaaau64 == 0)
            && (0b00_00_00_01_00_00_00_00_00_00_00_00_00_00_00_00_00_00_00_00_00_00_00_01_00u64 >> 50u64 == 0)
            && (turn_expr(0b00_00_00_00_00_00_00_01_00_00_00_00_01_00_00_00_00_01_00_00_00_00_00_00_00) == 0b00_00_00_00_00_00_00_00_00_00_00_01_01_01_00_00_00_00_00_00_00_00_00_00_00)
            && (turn_expr(0b00_00_01_00_00_00_00_00_00_00_00_00_00_00_00_00_00_00_00_00_00_00_01_00_00) == 0b00_00_00_00_00_00_00_00_00_00_01_00_00_00_01_00_00_00_00_00_00_00_00_00_00)
            && (0b00_00_00_00_00_00_00_01_00_00_00_00_01_00_00_00_00_01_00_00_00_00_00_00_00u64 & 0xaaaa_aaaa_aaaa_aaaau64 == 0)
            && (0b00_00_00_00_00_00_00_01_00_00_00_00_01_00_00_00_00_01_00_00_00_00_00_00_00u64 >> 50u64 == 0)
            && (0b00_00_01_00_00_00_00_00_00_00_00_00_00_00_00_00_00_00_00_00_00_00_01_00_00u64 & 0xaaaa_aaaa_aaaa_aaaau64 == 0)
            && (0b00_00_01_00_00_00_00_00_00_00_00_00_00_00_00_00_00_00_00_00_00_00_01_00_00u64 >> 50u64 == 0)
            && (turn_expr(0b00_00_00_00_00_00_01_00_00_00_00_01_00_00_00_00_01_00_00_00_00_00_00_00_00) == 0b00_00_00_00_00_00_00_00_00_00_00_00_00_00_00_00_01_01_01_00_00_00_00_00_00)
            && (turn_expr(0b00_01_00_00_00_00_00_00_00_00_00_00_00_00_00_00_00_00_00_00_00_01_00_00_00) == 0b00_00_00_00_00_00_00_00_00_00_00_00_00_00_00_01_00_00_00_01_00_00_00_00_00)
            && (0b00_00_00_00_00_00_01_00_00_00_00_01_00_00_00_00_01_00_00_00_00_00_00_00_00u64 & 0xaaaa_aaaa_aaaa_aaaau64 == 0)
            && (0b00_00_00_00_00_00_01_00_00_00_00_01_00_00_00_00_01_00_00_00_00_00_00_00_00u64 >> 50u64 == 0)
            && (0b00_01_00_00_00_00_00_00_00_00_00_00_00_00_00_00_00_00_00_00_00_01_00_00_00u64 & 0xaaaa_aaaa_aaaa_aaaau64 == 0)
            && (0b00_01_00_00_00_00_00_00_00_00_00_00_00_00_00_00_00_00_00_00_00_01_00_00_00u64 >> 50u64 == 0)
            && (turn_expr(0b00_00_00_00_00_00_01_00_00_00_00_00_01_00_00_00_00_00_01_00_00_00_00_00_00) == 0b00_00_00_00_00_00_00_00_01_00_00_00_01_00_00_00_01_00_00_00_00_00_00_00_00)
            && (turn_expr(0b01_00_00_00_00_00_00_00_00_00_00_00_00_00_00_00_00_00_00_00_00_00_00_00_01) == 0b00_00_00_00_01_00_00_00_00_00_00_00_00_00_00_00_00_00_00_00_01_00_00_00_00)
            && (0b00_00_00_00_00_00_01_00_00_00_00_00_01_00_00_00_00_00_01_00_00_00_00_00_00u64 & 0xaaaa_aaaa_aaaa_aaaau64 == 0)
            && (0b00_00_00_00_00_00_01_00_00_00_00_00_01_00_00_00_00_00_01_00_00_00_00_00_00u64 >> 50u64 == 0)
            && (0b01_00_00_00_00_00_00_00_00_00_00_00_00_00_00_00_00_00_00_00_00_00_00_00_01u64 & 0xaaaa_aaaa_aaaa_aaaau64 == 0)
            && (0b01_00_00_00_00_00_00_00_00_00_00_00_00_00_00_00_00_00_00_00_00_00_00_00_01u64 >> 50u64 == 0)
            && (turn_expr(0b00_00_00_00_00_00_00_00_01_00_00_00_01_00_00_00_01_00_00_00_00_00_00_00_00) == 0b00_00_00_00_00_00_01_00_00_00_00_00_01_00_00_00_00_00_01_00_00_00_00_00_00)
            && (turn_expr(0b00_00_00_00_01_00_00_00_00_00_00_00_00_00_00_00_00_00_00_00_01_00_00_00_00) == 0b01_00_00_00_00_00_00_00_00_00_00_00_00_00_00_00_00_00_00_00_00_00_00_00_01)
            && (0b00_00_00_00_00_00_00_00_01_00_00_00_01_00_00_00_01_00_00_00_00_00_00_00_00u64 & 0xaaaa_aaaa_aaaa_aaaau64 == 0)
            && (0b00_00_00_00_00_00_00_00_01_00_00_00_01_00_00_00_01_00_00_00_00_00_00_00_00u64 >> 50u64 == 0)
            && (0b00_00_00_00_01_00_00_00_00_00_00_00_00_00_00_00_00_00_00_00_01_00_00_00_00u64 & 0xaaaa_aaaa_aaaa_aaaau64 == 0)
            && (0b00_00_00_00_01_00_00_00_00_00_00_00_00_00_00_00_00_00_00_00_01_00_00_00_00u64 >> 50u64 == 0),
{
    assert((turn_expr(0b00_00_00_00_00_00_00_00_00_00_00_00_00_00_00_00_01_01_01_00_00_00_00_00_00) == 0b00_00_00_00_00_00_00_00_01_00_00_00_00_01_00_00_00_00_01_00_00_00_00_00_00)
        && (turn_expr(0b00_00_00_00_00_00_00_00_00_00_00_00_00_00_00_01_00_00_00_01_00_00_00_00_00) == 0b00_00_00_01_00_00_00_00_00_00_00_00_00_00_00_00_00_00_00_00_00_00_00_01_00)
        && (0b00_00_00_00_00_00_00_00_00_00_00_00_00_00_00_00_01_01_01_00_00_00_00_00_00u64 & 0xaaaa_aaaa_aaaa_aaaau64 == 0)
        && (0b00_00_00_00_00_00_00_00_00_00_00_00_00_00_00_00_01_01_01_00_00_00_00_00_00u64 >> 50u64 == 0)
        && (0b00_00_00_00_00_00_00_00_00_00_00_00_00_00_00_01_00_00_00_01_00_00_00_00_00u64 & 0xaaaa_aaaa_aaaa_aaaau64 == 0)
        && (0b00_00_00_00_00_00_00_00_00_00_00_00_00_00_00_01_00_00_00_01_00_00_00_00_00u64 >> 50u64 == 0)
        && (turn_expr(0b00_00_00_00_00_00_00_00_00_00_00_01_01_01_00_00_00_00_00_00_00_00_00_00_00) == 0b00_00_00_00_00_00_00_01_00_00_00_00_01_00_00_00_00_01_00_00_00_00_00_00_00)
        && (turn_expr(0b00_00_00_00_00_00_00_00_00_00_01_00_00_00_01_00_00_00_00_00_00_00_00_00_00) == 0b00_00_01_00_00_00_00_00_00_00_00_00_00_00_00_00_00_00_00_00_00_00_01_00_00)
        && (0b00_00_00_00_00_00_00_00_00_00_00_01_01_01_00_00_00_00_00_00_00_00_00_00_00u64 & 0xaaaa_aaaa_aaaa_aaaau64 == 0)
        && (0b00_00_00_00_00_00_00_00_00_00_00_01_01_01_00_00_00_00_00_00_00_00_00_00_00u64 >> 50u64 == 0)
        && (0b00_00_00_00_00_00_00_00_00_00_01_00_00_00_01_00_00_00_00_00_00_00_00_00_00u64 & 0xaaaa_aaaa_aaaa_aaaau64 == 0)
        && (0b00_00_00_00_00_00_00_00_00_00_01_00_00_00_01_00_00_00_00_00_00_00_00_00_00u64 >> 50u64 == 0)
        && (turn_expr(0b00_00_00_00_00_00_01_01_01_00_00_00_00_00_00_00_00_00_00_00_00_00_00_00_00) == 0b00_00_00_00_00_00_01_00_00_00_00_01_00_00_00_00_01_00_00_00_00_00_00_00_00)
        && (turn_expr(0b00_00_00_00_00_01_00_00_00_01_00_00_00_00_00_00_00_00_00_00_00_00_00_00_00) == 0b00_01_00_00_00_00_00_00_00_00_00_00_00_00_00_00_00_00_00_00_00_01_00_00_00)
        && (0b00_00_00_00_00_00_01_01_01_00_00_00_00_00_00_00_00_00_00_00_00_00_00_00_00u64 & 0xaaaa_aaaa_aaaa_aaaau64 == 0)
        && (0b00_00_00_00_00_00_01_01_01_00_00_00_00_00_00_00_00_00_00_00_00_00_00_00_00u64 >> 50u64 == 0)
        && (0b00_00_00_00_00_01_00_00_00_01_00_00_00_00_00_00_00_00_00_00_00_00_00_00_00u64 & 0xaaaa_aaaa_aaaa_aaaau64 == 0)
        && (0b00_00_00_00_00_01_00_00_00_01_00_00_00_00_00_00_00_00_00_00_00_00_00_00_00u64 >> 50u64 == 0)
        && (turn_expr(0b00_00_00_00_00_00_00_00_01_00_00_00_00_01_00_00_00_00_01_00_00_00_00_00_00) == 0b00_00_00_00_00_00_01_01_01_00_00_00_00_00_00_00_00_00_00_00_00_00_00_00_00)
        && (turn_expr(0b00_00_00_01_00_00_00_00_00_00_00_00_00_00_00_00_00_00_00_00_00_00_00_01_00) == 0b00_00_00_00_00_01_00_00_00_01_00_00_00_00_00_00_00_00_00_00_00_00_00_00_00)
        && (0b00_00_00_00_00_00_00_00_01_00_00_00_00_01_00_00_00_00_01_00_00_00_00_00_00u64 & 0xaaaa_aaaa_aaaa_aaaau64 == 0)
        && (0b00_00_00_00_00_00_00_00_01_00_00_00_00_01_00_00_00_00_01_00_00_00_00_00_00u64 >> 50u64 == 0)
        && (0b00_00_00_01_00_00_00_00_00_00_00_00_00_00_00_00_00_00_00_00_00_00_00_01_00u64 & 0xaaaa_aaaa_aaaa_aaaau64 == 0)
        && (0b00_00_00_01_00_00_00_00_00_00_00_00_00_00_00_00_00_00_00_00_00_00_00_01_00u64 >> 50u64 == 0)
        && (turn_expr(0b00_00_00_00_00_00_00_01_00_00_00_00_01_00_00_00_00_01_00_00_00_00_00_00_00) == 0b00_00_00_00_00_00_00_00_00_00_00_01_01_01_00_00_00_00_00_00_00_00_00_00_00)
        && (turn_expr(0b00_00_01_00_00_00_00_00_00_00_00_00_00_00_00_00_00_00_00_00_00_00_01_00_00) == 0b00_00_00_00_00_00_00_00_00_00_01_00_00_00_01_00_00_00_00_00_00_00_00_00_00)
        && (0b00_00_00_00_00_00_00_01_00_00_00_00_01_00_00_00_00_01_00_00_00_00_00_00_00u64 & 0xaaaa_aaaa_aaaa_aaaau64 == 0)
        && (0b00_00_00_00_00_00_00_01_00_00_00_00_01_00_00_00_00_01_00_00_00_00_00_00_00u64 >> 50u64 == 0)
        && (0b00_00_01_00_00_00_00_00_00_00_00_00_00_00_00_00_00_00_00_00_00_00_01_00_00u64 & 0xaaaa_aaaa_aaaa_aaaau64 == 0)
        && (0b00_00_01_00_00_00_00_00_00_00_00_00_00_00_00_00_00_00_00_00_00_00_01_00_00u64 >> 50u64 == 0)
        && (turn_expr(0b00_00_00_00_00_00_01_00_00_00_00_01_00_00_00_00_01_00_00_00_00_00_00_00_00) == 0b00_00_00_00_00_00_00_00_00_00_00_00_00_00_00_00_01_01_01_00_00_00_00_00_00)
        && (turn_expr(0b00_01_00_00_00_00_00_00_00_00_00_00_00_00_00_00_00_00_00_00_00_01_00_00_00) == 0b00_00_00_00_00_00_00_00_00_00_00_00_00_00_00_01_00_00_00_01_00_00_00_00_00)
        && (0b00_00_00_00_00_00_01_00_00_00_00_01_00_00_00_00_01_00_00_00_00_00_00_00_00u64 & 0xaaaa_aaaa_aaaa_aaaau64 == 0)
        && (0b00_00_00_00_00_00_01_00_00_00_00_01_00_00_00_00_01_00_00_00_00_00_00_00_00u64 >> 50u64 == 0)
        && (0b00_01_00_00_00_00_00_00_00_00_00_00_00_00_00_00_00_00_00_00_00_01_00_00_00u64 & 0xaaaa_aaaa_aaaa_aaaau64 == 0)
        && (0b00_01_00_00_00_00_00_00_00_00_00_00_00_00_00_00_00_00_00_00_00_01_00_00_00u64 >> 50u64 == 0)
        && (turn_expr(0b00_00_00_00_00_00_01_00_00_00_00_00_01_00_00_00_00_00_01_00_00_00_00_00_00) == 0b00_00_00_00_00_00_00_00_01_00_00_00_01_00_00_00_01_00_00_00_00_00_00_00_00)
        && (turn_expr(0b01_00_00_00_00_00_00_00_00_00_00_00_00_00_00_00_00_00_00_00_00_00_00_00_01) == 0b00_00_00_00_01_00_00_00_00_00_00_00_00_00_00_00_00_00_00_00_01_00_00_00_00)
        && (0b00_00_00_00_00_00_01_00_00_00_00_00_01_00_00_00_00_00_01_00_00_00_00_00_00u64 & 0xaaaa_aaaa_aaaa_aaaau64 == 0)
        && (0b00_00_00_00_00_00_01_00_00_00_00_00_01_00_00_00_00_00_01_00_00_00_00_00_00u64 >> 50u64 == 0)
        && (0b01_00_00_00_00_00_00_00_00_00_00_00_00_00_00_00_00_00_00_00_00_00_00_00_01u64 & 0xaaaa_aaaa_aaaa_aaaau64 == 0)
        && (0b01_00_00_00_00_00_00_00_00_00_00_00_00_00_00_00_00_00_00_00_00_00_00_00_01u64 >> 50u64 == 0)
        && (turn_expr(0b00_00_00_00_00_00_00_00_01_00_00_00_01_00_00_00_01_00_00_00_00_00_00_00_00) == 0b00_00_00_00_00_00_01_00_00_00_00_00_01_00_00_00_00_00_01_00_00_00_00_00_00)
        && (turn_expr(0b00_00_00_00_01_00_00_00_00_00_00_00_00_00_00_00_00_00_00_00_01_00_00_00_00) == 0b01_00_00_00_00_00_00_00_00_00_00_00_00_00_00_00_00_00_00_00_00_00_00_00_01)
        && (0b00_00_00_00_00_00_00_00_01_00_00_00_01_00_00_00_01_00_00_00_00_00_00_00_00u64 & 0xaaaa_aaaa_aaaa_aaaau64 == 0)
        && (0b00_00_00_00_00_00_00_00_01_00_00_00_01_00_00_00_01_00_00_00_00_00_00_00_00u64 >> 50u64 == 0)
        && (0b00_00_00_00_01_00_00_00_00_00_00_00_00_00_00_00_00_00_00_00_01_00_00_00_00u64 & 0xaaaa_aaaa_aaaa_aaaau64 == 0)
        && (0b00_00_00_00_01_00_00_00_00_00_00_00_00_00_00_00_00_00_00_00_01_00_00_00_00u64 >> 50u64 == 0)) by (bit_vector);
}

proof fn lemma_line3_flip_words()
    ensures
        (flip_expr(0b00_00_00_00_00_00_00_00_00_00_00_00_00_00_00_00_01_01_01_00_00_00_00_00_00) == 0b00_00_00_00_00_00_01_01_01_00_00_00_00_00_00_00_00_00_00_00_00_00_00_00_00)
            && (flip_expr(0b00_00_00_00_00_00_00_00_00_00_00_00_00_00_00_01_00_00_00_01_00_00_00_00_00) == 0b00_00_00_00_00_01_00_00_00_01_00_00_00_00_00_00_00_00_00_00_00_00_00_00_00)
            && (0b00_00_00_00_00_00_00_00_00_00_00_00_00_00_00_00_01_01_01_00_00_00_00_00_00u64 & 0xaaaa_aaaa_aaaa_aaaau64 == 0)
            && (0b00_00_00_00_00_00_00_00_00_00_00_00_00_00_00_00_01_01_01_00_00_00_00_00_00u64 >> 50u64 == 0)
            && (0b00_00_00_00_00_00_00_00_00_00_00_00_00_00_00_01_00_00_00_01_00_00_00_00_00u64 & 0xaaaa_aaaa_aaaa_aaaau64 == 0)
            && (0b00_00_00_00_00_00_00_00_00_00_00_00_00_00_00_01_00_00_00_01_00_00_00_00_00u64 >> 50u64 == 0)
            && (flip_expr(0b00_00_00_00_00_00_00_00_00_00_00_01_01_01_00_00_00_00_00_00_00_00_00_00_00) == 0b00_00_00_00_00_00_00_00_00_00_00_01_01_01_00_00_00_00_00_00_00_00_00_00_00)
            && (flip_expr(0b00_00_00_00_00_00_00_00_00_00_01_00_00_00_01_00_00_00_00_00_00_00_00_00_00) == 0b00_00_00_00_00_00_00_00_00_00_01_00_00_00_01_00_00_00_00_00_00_00_00_00_00)
            && (0b00_00_00_00_00_00_00_00_00_00_00_01_01_01_00_00_00_00_00_00_00_00_00_00_00u64 & 0xaaaa_aaaa_aaaa_aaaau64 == 0)
            && (0b00_00_00_00_00_00_00_00_00_00_00_01_01_01_00_00_00_00_00_00_00_00_00_00_00u64 >> 50u64 == 0)
            && (0b00_00_00_00_00_00_00_00_00_00_01_00_00_00_01_00_00_00_00_00_00_00_00_00_00u64 & 0xaaaa_aaaa_aaaa_aaaau64 == 0)
            && (0b00_00_00_00_00_00_00_00_00_00_01_00_00_00_01_00_00_00_00_00_00_00_00_00_00u64 >> 50u64 == 0)
            && (flip_expr(0b00_00_00_00_00_00_01_01_01_00_00_00_00_00_00_00_00_00_00_00_00_00_00_00_00) == 0b00_00_00_00_00_00_00_00_00_00_00_00_00_00_00_00_01_01_01_00_00_00_00_00_00)
            && (flip_expr(0b00_00_00_00_00_01_00_00_00_01_00_00_00_00_00_00_00_00_00_00_00_00_00_00_00) == 0b00_00_00_00_00_00_00_00_00_00_00_00_00_00_00_01_00_00_00_01_00_00_00_00_00)
            && (0b00_00_00_00_00_00_01_01_01_00_00_00_00_00_00_00_00_00_00_00_00_00_00_00_00u64 & 0xaaaa_aaaa_aaaa_aaaau64 == 0)
            && (0b00_00_00_00_00_00_01_01_01_00_00_00_00_00_00_00_00_00_00_00_00_00_00_00_00u64 >> 50u64 == 0)
            && (0b00_00_00_00_00_01_00_00_00_01_00_00_00_00_00_00_00_00_00_00_00_00_00_00_00u64 & 0xaaaa_aaaa_aaaa_aaaau64 == 0)
            && (0b00_00_00_00_00_01_00_00_00_01_00_00_00_00_00_00_00_00_00_00_00_00_00_00_00u64 >> 50u64 == 0)
            && (flip_expr(0b00_00_00_00_00_00_00_00_01_00_00_00_00_01_00_00_00_00_01_00_00_00_00_00_00) == 0b00_00_00_00_00_00_00_00_01_00_00_00_00_01_00_00_00_00_01_00_00_00_00_00_00)
            && (flip_expr(0b00_00_00_01_00_00_00_00_00_00_00_00_00_00_00_00_00_00_00_00_00_00_00_01_00) == 0b00_00_00_01_00_00_00_00_00_00_00_00_00_00_00_00_00_00_00_00_00_00_00_01_00)
            && (0b00_00_00_00_00_00_00_00_01_00_00_00_00_01_00_00_00_00_01_00_00_00_00_00_00u64 & 0xaaaa_aaaa_aaaa_aaaau64 == 0)
            && (0b00_00_00_00_00_00_00_00_01_00_00_00_00_01_00_00_00_00_01_00_00_00_00_00_00u64 >> 50u64 == 0)
            && (0b00_00_00_01_00_00_00_00_00_00_00_00_00_00_00_00_00_00_00_00_00_00_00_01_00u64 & 0xaaaa_aaaa_aaaa_aaaau64 == 0)
            && (0b00_00_00_01_00_00_00_00_00_00_00_00_00_00_00_00_00_00_00_00_00_00_00_01_00u64 >> 50u64 == 0)
            && (flip_expr(0b00_00_00_00_00_00_00_01_00_00_00_00_01_00_00_00_00_01_00_00_00_00_00_00_00) == 0b00_00_00_00_00_00_00_01_00_00_00_00_01_00_00_00_00_01_00_00_00_00_00_00_00)
            && (flip_expr(0b00_00_01_00_00_00_00_00_00_00_00_00_00_00_00_00_00_00_00_00_00_00_01_00_00) == 0b00_00_01_00_00_00_00_00_00_00_00_00_00_00_00_00_00_00_00_00_00_00_01_00_00)
            && (0b00_00_00_00_00_00_00_01_00_00_00_00_01_00_00_00_00_01_00_00_00_00_00_00_00u64 & 0xaaaa_aaaa_aaaa_aaaau64 == 0)
            && (0b00_00_00_00_00_00_00_01_00_00_00_00_01_00_00_00_00_01_00_00_00_00_00_00_00u64 >> 50u64 == 0)
            && (0b00_00_01_00_00_00_00_00_00_00_00_00_00_00_00_00_00_00_00_00_00_00_01_00_00u64 & 0xaaaa_aaaa_aaaa_aaaau64 == 0)
            && (0b00_00_01_00_00_00_00_00_00_00_00_00_00_00_00_00_00_00_00_00_00_00_01_00_00u64 >> 50u64 == 0)
            && (flip_expr(0b00_00_00_00_00_00_01_00_00_00_00_01_00_00_00_00_01_00_00_00_00_00_00_00_00) == 0b00_00_00_00_00_00_01_00_00_00_00_01_00_00_00_00_01_00_00_00_00_00_00_00_00)
            && (flip_expr(0b00_01_00_00_00_00_00_00_00_00_00_00_00_00_00_00_00_00_00_00_00_01_00_00_00) == 0b00_01_00_00_00_00_00_00_00_00_00_00_00_00_00_00_00_00_00_00_00_01_00_00_00)
            && (0b00_00_00_00_00_00_01_00_00_00_00_01_00_00_00_00_01_00_00_00_00_00_00_00_00u64 & 0xaaaa_aaaa_aaaa_aaaau64 == 0)
            && (0b00_00_00_00_00_00_01_00_00_00_00_01_00_00_00_00_01_00_00_00_00_00_00_00_00u64 >> 50u64 == 0)
            && (0b00_01_00_00_00_00_00_00_00_00_00_00_00_00_00_00_00_00_00_00_00_01_00_00_00u64 & 0xaaaa_aaaa_aaaa_aaaau64 == 0)
            && (0b00_01_00_00_00_00_00_00_00_00_00_00_00_00_00_00_00_00_00_00_00_01_00_00_00u64 >> 50u64 == 0)
            && (flip_expr(0b00_00_00_00_00_00_01_00_00_00_00_00_01_00_00_00_00_00_01_00_00_00_00_00_00) == 0b00_00_00_00_00_00_00_00_01_00_00_00_01_00_00_00_01_00_00_00_00_00_00_00_00)
            && (flip_expr(0b01_00_00_00_00_00_00_00_00_00_00_00_00_00_00_00_00_00_00_00_00_00_00_00_01) == 0b00_00_00_00_01_00_00_00_00_00_00_00_00_00_00_00_00_00_00_00_01_00_00_00_00)
            && (0b00_00_00_00_00_00_01_00_00_00_00_00_01_00_00_00_00_00_01_00_00_00_00_00_00u64 & 0xaaaa_aaaa_aaaa_aaaau64 == 0)
            && (0b00_00_00_00_00_00_01_00_00_00_00_00_01_00_00_00_00_00_01_00_00_00_00_00_00u64 >> 50u64 == 0)
            && (0b01_00_00_00_00_00_00_00_00_00_00_00_00_00_00_00_00_00_00_00_00_00_00_00_01u64 & 0xaaaa_aaaa_aaaa_aaaau64 == 0)
            && (0b01_00_00_00_00_00_00_00_00_00_00_00_00_00_00_00_00_00_00_00_00_00_00_00_01u64 >> 50u64 == 0)
            && (flip_expr(0b00_00_00_00_00_00_00_00_01_00_00_00_01_00_00_00_01_00_00_00_00_00_00_00_00) == 0b00_00_00_00_00_00_01_00_00_00_00_00_01_00_00_00_00_00_01_00_00_00_00_00_00)
            && (flip_expr(0b00_00_00_00_01_00_00_00_00_00_00_00_00_00_00_00_00_00_00_00_01_00_00_00_00) == 0b01_00_00_00_00_00_00_00_00_00_00_00_00_00_00_00_00_00_00_00_00_00_00_00_01)
            && (0b00_00_00_00_00_00_00_00_01_00_00_00_01_00_00_00_01_00_00_00_00_00_00_00_00u64 & 0xaaaa_aaaa_aaaa_aaaau64 == 0)
            && (0b00_00_00_00_00_00_00_00_01_00_00_00_01_00_00_00_01_00_00_00_00_00_00_00_00u64 >> 50u64 == 0)
            && (0b00_00_00_00_01_00_00_00_00_00_00_00_00_00_00_00_00_00_00_00_01_00_00_00_00u64 & 0xaaaa_aaaa_aaaa_aaaau64 == 0)
            && (0b00_00_00_00_01_00_00_00_00_00_00_00_00_00_00_00_00_00_00_00_01_00_00_00_00u64 >> 50u64 == 0),
{
    assert((flip_expr(0b00_00_00_00_00_00_00_00_00_00_00_00_00_00_00_00_01_01_01_00_00_00_00_00_00) == 0b00_00_00_00_00_00_01_01_01_00_00_00_00_00_00_00_00_00_00_00_00_00_00_00_00)
        && (flip_expr(0b00_00_00_00_00_00_00_00_00_00_00_00_00_00_00_01_00_00_00_01_00_00_00_00_00) == 0b00_00_00_00_00_01_00_00_00_01_00_00_00_00_00_00_00_00_00_00_00_00_00_00_00)
        && (0b00_00_00_00_00_00_00_00_00_00_00_00_00_00_00_00_01_01_01_00_00_00_00_00_00u64 & 0xaaaa_aaaa_aaaa_aaaau64 == 0)
        && (0b00_00_00_00_00_00_00_00_00_00_00_00_00_00_00_00_01_01_01_00_00_00_00_00_00u64 >> 50u64 == 0)
        && (0b00_00_00_00_00_00_00_00_00_00_00_00_00_00_00_01_00_00_00_01_00_00_00_00_00u64 & 0xaaaa_aaaa_aaaa_aaaau64 == 0)
        && (0b00_00_00_00_00_00_00_00_00_00_00_00_00_00_00_01_00_00_00_01_00_00_00_00_00u64 >> 50u64 == 0)
        && (flip_expr(0b00_00_00_00_00_00_00_00_00_00_00_01_01_01_00_00_00_00_00_00_00_00_00_00_00) == 0b00_00_00_00_00_00_00_00_00_00_00_01_01_01_00_00_00_00_00_00_00_00_00_00_00)
        && (flip_expr(0b00_00_00_00_00_00_00_00_00_00_01_00_00_00_01_00_00_00_00_00_00_00_00_00_00) == 0b00_00_00_00_00_00_00_00_00_00_01_00_00_00_01_00_00_00_00_00_00_00_00_00_00)
        && (0b00_00_00_00_00_00_00_00_00_00_00_01_01_01_00_00_00_00_00_00_00_00_00_00_00u64 & 0xaaaa_aaaa_aaaa_aaaau64 == 0)
        && (0b00_00_00_00_00_00_00_00_00_00_00_01_01_01_00_00_00_00_00_00_00_00_00_00_00u64 >> 50u64 == 0)
        && (0b00_00_00_00_00_00_00_00_00_00_01_00_00_00_01_00_00_00_00_00_00_00_00_00_00u64 & 0xaaaa_aaaa_aaaa_aaaau64 == 0)
        && (0b00_00_00_00_00_00_00_00_00_00_01_00_00_00_01_00_00_00_00_00_00_00_00_00_00u64 >> 50u64 == 0)
        && (flip_expr(0b00_00_00_00_00_00_01_01_01_00_00_00_00_00_00_00_00_00_00_00_00_00_00_00_00) == 0b00_00_00_00_00_00_00_00_00_00_00_00_00_00_00_00_01_01_01_00_00_00_00_00_00)
        && (flip_expr(0b00_00_00_00_00_01_00_00_00_01_00_00_00_00_00_00_00_00_00_00_00_00_00_00_00) == 0b00_00_00_00_00_00_00_00_00_00_00_00_00_00_00_01_00_00_00_01_00_00_00_00_00)
        && (0b00_00_00_00_00_00_01_01_01_00_00_00_00_00_00_00_00_00_00_00_00_00_00_00_00u64 & 0xaaaa_aaaa_aaaa_aaaau64 == 0)
        && (0b00_00_00_00_00_00_01_01_01_00_00_00_00_00_00_00_00_00_00_00_00_00_00_00_00u64 >> 50u64 == 0)
        && (0b00_00_00_00_00_01_00_00_00_01_00_00_00_00_00_00_00_00_00_00_00_00_00_00_00u64 & 0xaaaa_aaaa_aaaa_aaaau64 == 0)
        && (0b00_00_00_00_00_01_00_00_00_01_00_00_00_00_00_00_00_00_00_00_00_00_00_00_00u64 >> 50u64 == 0)
        && (flip_expr(0b00_00_00_00_00_00_00_00_01_00_00_00_00_01_00_00_00_00_01_00_00_00_00_00_00) == 0b00_00_00_00_00_00_00_00_01_00_00_00_00_01_00_00_00_00_01_00_00_00_00_00_00)
        && (flip_expr(0b00_00_00_01_00_00_00_00_00_00_00_00_00_00_00_00_00_00_00_00_00_00_00_01_00) == 0b00_00_00_01_00_00_00_00_00_00_00_00_00_00_00_00_00_00_00_00_00_00_00_01_00)
        && (0b00_00_00_00_00_00_00_00_01_00_00_00_00_01_00_00_00_00_01_00_00_00_00_00_00u64 & 0xaaaa_aaaa_aaaa_aaaau64 == 0)
        && (0b00_00_00_00_00_00_00_00_01_00_00_00_00_01_00_00_00_00_01_00_00_00_00_00_00u64 >> 50u64 == 0)
        && (0b00_00_00_01_00_00_00_00_00_00_00_00_00_00_00_00_00_00_00_00_00_00_00_01_00u64 & 0xaaaa_aaaa_aaaa_aaaau64 == 0)
        && (0b00_00_00_01_00_00_00_00_00_00_00_00_00_00_00_00_00_00_00_00_00_00_00_01_00u64 >> 50u64 == 0)
        && (flip_expr(0b00_00_00_00_00_00_00_01_00_00_00_00_01_00_00_00_00_01_00_00_00_00_00_00_00) == 0b00_00_00_00_00_00_00_01_00_00_00_00_01_00_00_00_00_01_00_00_00_00_00_00_00)
        && (flip_expr(0b00_00_01_00_00_00_00_00_00_00_00_00_00_00_00_00_00_00_00_00_00_00_01_00_00) == 0b00_00_01_00_00_00_00_00_00_00_00_00_00_00_00_00_00_00_00_00_00_00_01_00_00)
        && (0b00_00_00_00_00_00_00_01_00_00_00_00_01_00_00_00_00_01_00_00_00_00_00_00_00u64 & 0xaaaa_aaaa_aaaa_aaaau64 == 0)
        && (0b00_00_00_00_00_00_00_01_00_00_00_00_01_00_00_00_00_01_00_00_00_00_00_00_00u64 >> 50u64 == 0)
        && (0b00_00_01_00_00_00_00_00_00_00_00_00_00_00_00_00_00_00_00_00_00_00_01_00_00u64 & 0xaaaa_aaaa_aaaa_aaaau64 == 0)
        && (0b00_00_01_00_00_00_00_00_00_00_00_00_00_00_00_00_00_00_00_00_00_00_01_00_00u64 >> 50u64 == 0)
        && (flip_expr(0b00_00_00_00_00_00_01_00_00_00_00_01_00_00_00_00_01_00_00_00_00_00_00_00_00) == 0b00_00_00_00_00_00_01_00_00_00_00_01_00_00_00_00_01_00_00_00_00_00_00_00_00)
        && (flip_expr(0b00_01_00_00_00_00_00_00_00_00_00_00_00_00_00_00_00_00_00_00_00_01_00_00_00) == 0b00_01_00_00_00_00_00_00_00_00_00_00_00_00_00_00_00_00_00_00_00_01_00_00_00)
        && (0b00_00_00_00_00_00_01_00_00_00_00_01_00_00_00_00_01_00_00_00_00_00_00_00_00u64 & 0xaaaa_aaaa_aaaa_aaaau64 == 0)
        && (0b00_00_00_00_00_00_01_00_00_00_00_01_00_00_00_00_01_00_00_00_00_00_00_00_00u64 >> 50u64 == 0)
        && (0b00_01_00_00_00_00_00_00_00_00_00_00_00_00_00_00_00_00_00_00_00_01_00_00_00u64 & 0xaaaa_aaaa_aaaa_aaaau64 == 0)
        && (0b00_01_00_00_00_00_00_00_00_00_00_00_00_00_00_00_00_00_00_00_00_01_00_00_00u64 >> 50u64 == 0)
        && (flip_expr(0b00_00_00_00_00_00_01_00_00_00_00_00_01_00_00_00_00_00_01_00_00_00_00_00_00) == 0b00_00_00_00_00_00_00_00_01_00_00_00_01_00_00_00_01_00_00_00_00_00_00_00_00)
        && (flip_expr(0b01_00_00_00_00_00_00_00_00_00_00_00_00_00_00_00_00_00_00_00_00_00_00_00_01) == 0b00_00_00_00_01_00_00_00_00_00_00_00_00_00_00_00_00_00_00_00_01_00_00_00_00)
        && (0b00_00_00_00_00_00_01_00_00_00_00_00_01_00_00_00_00_00_01_00_00_00_00_00_00u64 & 0xaaaa_aaaa_aaaa_aaaau64 == 0)
        && (0b00_00_00_00_00_00_01_00_00_00_00_00_01_00_00_00_00_00_01_00_00_00_00_00_00u64 >> 50u64 == 0)
        && (0b01_00_00_00_00_00_00_00_00_00_00_00_00_00_00_00_00_00_00_00_00_00_00_00_01u64 & 0xaaaa_aaaa_aaaa_aaaau64 == 0)
        && (0b01_00_00_00_00_00_00_00_00_00_00_00_00_00_00_00_00_00_00_00_00_00_00_00_01u64 >> 50u64 == 0)
        && (flip_expr(0b00_00_00_00_00_00_00_00_01_00_00_00_01_00_00_00_01_00_00_00_00_00_00_00_00) == 0b00_00_00_00_00_00_01_00_00_00_00_00_01_00_00_00_00_00_01_00_00_00_00_00_00)
        && (flip_expr(0b00_00_00_00_01_00_00_00_00_00_00_00_00_00_00_00_00_00_00_00_01_00_00_00_00) == 0b01_00_00_00_00_00_00_00_00_00_00_00_00_00_00_00_00_00_00_00_00_00_00_00_01)
        && (0b00_00_00_00_00_00_00_00_01_00_00_00_01_00_00_00_01_00_00_00_00_00_00_00_00u64 & 0xaaaa_aaaa_aaaa_aaaau64 == 0)
        && (0b00_00_00_00_00_00_00_00_01_00_00_00_01_00_00_00_01_00_00_00_00_00_00_00_00u64 >> 50u64 == 0)
        && (0b00_00_00_00_01_00_00_00_00_00_00_00_00_00_00_00_00_00_00_00_01_00_00_00_00u64 & 0xaaaa_aaaa_aaaa_aaaau64 == 0)
        && (0b00_00_00_00_01_00_00_00_00_00_00_00_00_00_00_00_00_00_00_00_01_00_00_00_00u64 >> 50u64 == 0)) by (bit_vector);
}

/// Where a quarter turn sends each line of [`LINE`].
pub open spec fn turn_line(i: int) -> int {
    seq![11, 10, 13, 12, 15, 14, 17, 16, 19, 18, 8, 9, 6, 7, 4, 5, 2, 3, 0, 1, 24, 26, 25, 27, 23, 21, 22, 20][i]
}

/// Where a reflection sends each line of [`LINE`].
pub open spec fn flip_line(i: int) -> int {
    seq![8, 9, 6, 7, 4, 5, 2, 3, 0, 1, 11, 10, 13, 12, 15, 14, 17, 16, 19, 18, 27, 26, 25, 24, 23, 22, 21, 20][i]
}

/// Where a quarter turn sends each line of [`LINE3`].
pub open spec fn turn_line3(i: int) -> int {
    seq![3, 4, 5, 2, 1, 0, 7, 6][i]
}

/// Where a reflection sends each line of [`LINE3`].
pub open spec fn flip_line3(i: int) -> int {
    seq![2, 1, 0, 3, 4, 5, 7, 6][i]
}

#[verifier::rlimit(50)]
proof fn lemma_line_turn_closed(i: int)
    requires
        0 <= i < 28,
    ensures
        low_cells(LINE[i]),
        on_board(LINE[i]),
        0 <= turn_line(i) < 28,
        turned_word(LINE[i]) == LINE[turn_line(i)],
{
    lemma_turned_is_expr(LINE[i]);
    lemma_line_turn_words();
    if i == 0 {
        assert(LINE[0] == 0b00_00_00_00_00_00_00_00_00_00_00_00_00_00_00_00_00_00_00_00_00_01_01_01_01);
    } else if i == 1 {
        assert(LINE[1] == 0b00_00_00_00_00_00_00_00_00_00_00_00_00_00_00_00_00_00_00_00_01_01_01_01_00);
    } else if i == 2 {
        assert(LINE[2] == 0b00_00_00_00_00_00_00_00_00_00_00_00_00_00_00_00_01_01_01_01_00_00_00_00_00);
    } else if i == 3 {
        assert(LINE[3] == 0b00_00_00_00_00_00_00_00_00_00_00_00_00_00_00_01_01_01_01_00_00_00_00_00_00);
    } else if i == 4 {
        assert(LINE[4] == 0b00_00_00_00_00_00_00_00_00_00_00_01_01_01_01_00_00_00_00_00_00_00_00_00_00);
    } else if i == 5 {
        assert(LINE[5] == 0b00_00_00_00_00_00_00_00_00_00_01_01_01_01_00_00_00_00_00_00_00_00_00_00_00);
    } else if i == 6 {
        assert(LINE[6] == 0b00_00_00_00_00_00_01_01_01_01_00_00_00_00_00_00_00_00_00_00_00_00_00_00_00);
    } else if i == 7 {
        assert(LINE[7] == 0b00_00_00_00_00_01_01_01_01_00_00_00_00_00_00_00_00_00_00_00_00_00_00_00_00);
    } else if i == 8 {
        assert(LINE[8] == 0b00_01_01_01_01_00_00_00_00_00_00_00_00_00_00_00_00_00_00_00_00_00_00_00_00);
    } else if i == 9 {
        assert(LINE[9] == 0b01_01_01_01_00_00_00_00_00_00_00_00_00_00_00_00_00_00_00_00_00_00_00_00_00);
    } else if i == 10 {
        assert(LINE[10] == 0b00_00_00_00_00_00_00_00_00_01_00_00_00_00_01_00_00_00_00_01_00_00_00_00_01);
    } else if i == 11 {
        assert(LINE[11] == 0b00_00_00_00_01_00_00_00_00_01_00_00_00_00_01_00_00_00_00_01_00_00_00_00_00);
    } else if i == 12 {
        assert(LINE[12] == 0b00_00_00_00_00_00_00_00_01_00_00_00_00_01_00_00_00_00_01_00_00_00_00_01_00);
    } else if i == 13 {
        assert(LINE[13] == 0b00_00_00_01_00_00_00_00_01_00_00_00_00_01_00_00_00_00_01_00_00_00_00_00_00);
    } else if i == 14 {
        assert(LINE[14] == 0b00_00_00_00_00_00_00_01_00_00_00_00_01_00_00_00_00_01_00_00_00_00_01_00_00);
    } else if i == 15 {
        assert(LINE[15] == 0b00_00_01_00_00_00_00_01_00_00_00_00_01_00_00_00_00_01_00_00_00_00_00_00_00);
    } else if i == 16 {
        assert(LINE[16] == 0b00_00_00_00_00_00_01_00_00_00_00_01_00_00_00_00_01_00_00_00_00_01_00_00_00);
    } else if i == 17 {
        assert(LINE[17] == 0b00_01_00_00_00_00_01_00_00_00_00_01_00_00_00_00_01_00_00_00_00_00_00_00_00);
    } else if i == 18 {
        assert(LINE[18] == 0b00_00_00_00_00_01_00_00_00_00_01_00_00_00_00_01_00_00_00_00_01_00_00_00_00);
    } else if i == 19 {
        assert(LINE[19] == 0b01_00_00_00_00_01_00_00_00_00_01_00_00_00_00_01_00_00_00_00_00_00_00_00_00);
    } else if i == 20 {
        assert(LINE[20] == 0b00_01_00_00_00_00_00_01_00_00_00_00_00_01_00_00_00_00_00_01_00_00_00_00_00);
    } else if i == 21 {
        assert(LINE[21] == 0b00_00_00_00_00_00_01_00_00_00_00_00_01_00_00_00_00_00_01_00_00_00_00_00_01);
    } else if i == 22 {
        assert(LINE[22] == 0b01_00_00_00_00_00_01_00_00_00_00_00_01_00_00_00_00_00_01_00_00_00_00_00_00);
    } else if i == 23 {
        assert(LINE[23] == 0b00_00_00_00_00_01_00_00_00_00_00_01_00_00_00_00_00_01_00_00_00_00_00_01_00);
    } else if i == 24 {
        assert(LINE[24] == 0b00_00_00_01_00_00_00_01_00_00_00_01_00_00_00_01_00_00_00_00_00_00_00_00_00);
    } else if i == 25 {
        assert(LINE[25] == 0b00_00_00_00_00_00_00_00_01_00_00_00_01_00_00_00_01_00_00_00_01_00_00_00_00);
    } else if i == 26 {
        assert(LINE[26] == 0b00_00_00_00_01_00_00_00_01_00_00_00_01_00_00_00_01_00_00_00_00_00_00_00_00);
    } else if i == 27 {
        assert(LINE[27] == 0b00_00_00_00_00_00_00_00_00_01_00_00_00_01_00_00_00_01_00_00_00_01_00_00_00);
    }
    lemma_low_cells_from_bits(LINE[i]);
}

#[verifier::rlimit(50)]
proof fn lemma_line_flip_closed(i: int)
    requires
        0 <= i < 28,
    ensures
        low_cells(LINE[i]),
        on_board(LINE[i]),
        0 <= flip_line(i) < 28,
        flipped_word(LINE[i]) == LINE[flip_line(i)],
{
    lemma_flipped_is_expr(LINE[i]);
    lemma_line_flip_words();
    if i == 0 {
        assert(LINE[0] == 0b00_00_00_00_00_00_00_00_00_00_00_00_00_00_00_00_00_00_00_00_00_01_01_01_01);
    } else if i == 1 {
        assert(LINE[1] == 0b00_00_00_00_00_00_00_00_00_00_00_00_00_00_00_00_00_00_00_00_01_01_01_01_00);
    } else if i == 2 {
        assert(LINE[2] == 0b00_00_00_00_00_00_00_00_00_00_00_00_00_00_00_00_01_01_01_01_00_00_00_00_00);
    } else if i == 3 {
        assert(LINE[3] == 0b00_00_00_00_00_00_00_00_00_00_00_00_00_00_00_01_01_01_01_00_00_00_00_00_00);
    } else if i == 4 {
        assert(LINE[4] == 0b00_00_00_00_00_00_00_00_00_00_00_01_01_01_01_00_00_00_00_00_00_00_00_00_00);
    } else if i == 5 {
        assert(LINE[5] == 0b00_00_00_00_00_00_00_00_00_00_01_01_01_01_00_00_00_00_00_00_00_00_00_00_00);
    } else if i == 6 {
        assert(LINE[6] == 0b00_00_00_00_00_00_01_01_01_01_00_00_00_00_00_00_00_00_00_00_00_00_00_00_00);
    } else if i == 7 {
        assert(LINE[7] == 0b00_00_00_00_00_01_01_01_01_00_00_00_00_00_00_00_00_00_00_00_00_00_00_00_00);
    } else if i == 8 {
        assert(LINE[8] == 0b00_01_01_01_01_00_00_00_00_00_00_00_00_00_00_00_00_00_00_00_00_00_00_00_00);
    } else if i == 9 {
        assert(LINE[9] == 0b01_01_01_01_00_00_00_00_00_00_00_00_00_00_00_00_00_00_00_00_00_00_00_00_00);
    } else if i == 10 {
        assert(LINE[10] == 0b00_00_00_00_00_00_00_00_00_01_00_00_00_00_01_00_00_00_00_01_00_00_00_00_01);
    } else if i == 11 {
        assert(LINE[11] == 0b00_00_00_00_01_00_00_00_00_01_00_00_00_00_01_00_00_00_00_01_00_00_00_00_00);
    } else if i == 12 {
        assert(LINE[12] == 0b00_00_00_00_00_00_00_00_01_00_00_00_00_01_00_00_00_00_01_00_00_00_00_01_00);
    } else if i == 13 {
        assert(LINE[13] == 0b00_00_00_01_00_00_00_00_01_00_00_00_00_01_00_00_00_00_01_00_00_00_00_00_00);
    } else if i == 14 {
        assert(LINE[14] == 0b00_00_00_00_00_00_00_01_00_00_00_00_01_00_00_00_00_01_00_00_00_00_01_00_00);
    } else if i == 15 {
        assert(LINE[15] == 0b00_00_01_00_00_00_00_01_00_00_00_00_01_00_00_00_00_01_00_00_00_00_00_00_00);
    } else if i == 16 {
        assert(LINE[16] == 0b00_00_00_00_00_00_01_00_00_00_00_01_00_00_00_00_01_00_00_00_00_01_00_00_00);
    } else if i == 17 {
        assert(LINE[17] == 0b00_01_00_00_00_00_01_00_00_00_00_01_00_00_00_00_01_00_00_00_00_00_00_00_00);
    } else if i == 18 {
        assert(LINE[18] == 0b00_00_00_00_00_01_00_00_00_00_01_00_00_00_00_01_00_00_00_00_01_00_00_00_00);
    } else if i == 19 {
        assert(LINE[19] == 0b01_00_00_00_00_01_00_00_00_00_01_00_00_00_00_01_00_00_00_00_00_00_00_00_00);
    } else if i == 20 {
        assert(LINE[20] == 0b00_01_00_00_00_00_00_01_00_00_00_00_00_01_00_00_00_00_00_01_00_00_00_00_00);
    } else if i == 21 {
        assert(LINE[21] == 0b00_00_00_00_00_00_01_00_00_00_00_00_01_00_00_00_00_00_01_00_00_00_00_00_01);
    } else if i == 22 {
        assert(LINE[22] == 0b01_00_00_00_00_00_01_00_00_00_00_00_01_00_00_00_00_00_01_00_00_00_00_00_00);
    } else if i == 23 {
        assert(LINE[23] == 0b00_00_00_00_00_01_00_00_00_00_00_01_00_00_00_00_00_01_00_00_00_00_00_01_00);
    } else if i == 24 {
        assert(LINE[24] == 0b00_00_00_01_00_00_00_01_00_00_00_01_00_00_00_01_00_00_00_00_00_00_00_00_00);
    } else if i == 25 {
        assert(LINE[25] == 0b00_00_00_00_00_00_00_00_01_00_00_00_01_00_00_00_01_00_00_00_01_00_00_00_00);
    } else if i == 26 {
        assert(LINE[26] == 0b00_00_00_00_01_00_00_00_01_00_00_00_01_00_00_00_01_00_00_00_00_00_00_00_00);
    } else if i == 27 {
        assert(LINE[27] == 0b00_00_00_00_00_00_00_00_00_01_00_00_00_01_00_00_00_01_00_00_00_01_00_00_00);
    }
    lemma_low_cells_from_bits(LINE[i]);
}

#[verifier::rlimit(50)]
proof fn lemma_line3_turn_closed(i: int)
    requires
        0 <= i < 8,
    ensures
        low_cells(LINE3[i].0),
        on_board(LINE3[i].0),
        low_cells(LINE3[i].1),
        on_board(LINE3[i].1),
        0 <= turn_line3(i) < 8,
        turned_word(LINE3[i].0) == LINE3[turn_line3(i)].0,
        turned_word(LINE3[i].1) == LINE3[turn_line3(i)].1,
{
    lemma_turned_is_expr(LINE3[i].0);
    lemma_turned_is_expr(LINE3[i].1);
    lemma_line3_turn_words();
    if i == 0 {
        assert(LINE3[0].0 == 0b00_00_00_00_00_00_00_00_00_00_00_00_00_00_00_00_01_01_01_00_00_00_00_00_00 && LINE3[0].1 == 0b00_00_00_00_00_00_00_00_00_00_00_00_00_00_00_01_00_00_00_01_00_00_00_00_00);
    } else if i == 1 {
        assert(LINE3[1].0 == 0b00_00_00_00_00_00_00_00_00_00_00_01_01_01_00_00_00_00_00_00_00_00_00_00_00 && LINE3[1].1 == 0b00_00_00_00_00_00_00_00_00_00_01_00_00_00_01_00_00_00_00_00_00_00_00_00_00);
    } else if i == 2 {
        assert(LINE3[2].0 == 0b00_00_00_00_00_00_01_01_01_00_00_00_00_00_00_00_00_00_00_00_00_00_00_00_00 && LINE3[2].1 == 0b00_00_00_00_00_01_00_00_00_01_00_00_00_00_00_00_00_00_00_00_00_00_00_00_00);
    } else if i == 3 {
        assert(LINE3[3].0 == 0b00_00_00_00_00_00_00_00_01_00_00_00_00_01_00_00_00_00_01_00_00_00_00_00_00 && LINE3[3].1 == 0b00_00_00_01_00_00_00_00_00_00_00_00_00_00_00_00_00_00_00_00_00_00_00_01_00);
    } else if i == 4 {
        assert(LINE3[4].0 == 0b00_00_00_00_00_00_00_01_00_00_00_00_01_00_00_00_00_01_00_00_00_00_00_00_00 && LINE3[4].1 == 0b00_00_01_00_00_00_00_00_00_00_00_00_00_00_00_00_00_00_00_00_00_00_01_00_00);
    } else if i == 5 {
        assert(LINE3[5].0 == 0b00_00_00_00_00_00_01_00_00_00_00_01_00_00_00_00_01_00_00_00_00_00_00_00_00 && LINE3[5].1 == 0b00_01_00_00_00_00_00_00_00_00_00_00_00_00_00_00_00_00_00_00_00_01_00_00_00);
    } else if i == 6 {
        assert(LINE3[6].0 == 0b00_00_00_00_00_00_01_00_00_00_00_00_01_00_00_00_00_00_01_00_00_00_00_00_00 && LINE3[6].1 == 0b01_00_00_00_00_00_00_00_00_00_00_00_00_00_00_00_00_00_00_00_00_00_00_00_01);
    } else if i == 7 {
        assert(LINE3[7].0 == 0b00_00_00_00_00_00_00_00_01_00_00_00_01_00_00_00_01_00_00_00_00_00_00_00_00 && LINE3[7].1 == 0b00_00_00_00_01_00_00_00_00_00_00_00_00_00_00_00_00_00_00_00_01_00_00_00_00);
    }
    lemma_low_cells_from_bits(LINE3[i].0);
    lemma_low_cells_from_bits(LINE3[i].1);
}

#[verifier::rlimit(50)]
proof fn lemma_line3_flip_closed(i: int)
    requires
        0 <= i < 8,
    ensures
        low_cells(LINE3[i].0),
        on_board(LINE3[i].0),
        low_cells(LINE3[i].1),
        on_board(LINE3[i].1),
        0 <= flip_line3(i) < 8,
        flipped_word(LINE3[i].0) == LINE3[flip_line3(i)].0,
        flipped_word(LINE3[i].1) == LINE3[flip_line3(i)].1,
{
    lemma_flipped_is_expr(LINE3[i].0);
    lemma_flipped_is_expr(LINE3[i].1);
    lemma_line3_flip_words();
    if i == 0 {
        assert(LINE3[0].0 == 0b00_00_00_00_00_00_00_00_00_00_00_00_00_00_00_00_01_01_01_00_00_00_00_00_00 && LINE3[0].1 == 0b00_00_00_00_00_00_00_00_00_00_00_00_00_00_00_01_00_00_00_01_00_00_00_00_00);
    } else if i == 1 {
        assert(LINE3[1].0 == 0b00_00_00_00_00_00_00_00_00_00_00_01_01_01_00_00_00_00_00_00_00_00_00_00_00 && LINE3[1].1 == 0b00_00_00_00_00_00_00_00_00_00_01_00_00_00_01_00_00_00_00_00_00_00_00_00_00);
    } else if i == 2 {
        assert(LINE3[2].0 == 0b00_00_00_00_00_00_01_01_01_00_00_00_00_00_00_00_00_00_00_00_00_00_00_00_00 && LINE3[2].1 == 0b00_00_00_00_00_01_00_00_00_01_00_00_00_00_00_00_00_00_00_00_00_00_00_00_00);
    } else if i == 3 {
        assert(LINE3[3].0 == 0b00_00_00_00_00_00_00_00_01_00_00_00_00_01_00_00_00_00_01_00_00_00_00_00_00 && LINE3[3].1 == 0b00_00_00_01_00_00_00_00_00_00_00_00_00_00_00_00_00_00_00_00_00_00_00_01_00);
    } else if i == 4 {
        assert(LINE3[4].0 == 0b00_00_00_00_00_00_00_01_00_00_00_00_01_00_00_00_00_01_00_00_00_00_00_00_00 && LINE3[4].1 == 0b00_00_01_00_00_00_00_00_00_00_00_00_00_00_00_00_00_00_00_00_00_00_01_00_00);
    } else if i == 5 {
        assert(LINE3[5].0 == 0b00_00_00_00_00_00_01_00_00_00_00_01_00_00_00_00_01_00_00_00_00_00_00_00_00 && LINE3[5].1 == 0b00_01_00_00_00_00_00_00_00_00_00_00_00_00_00_00_00_00_00_00_00_01_00_00_00);
    } else if i == 6 {
        assert(LINE3[6].0 == 0b00_00_00_00_00_00_01_00_00_00_00_00_01_00_00_00_00_00_01_00_00_00_00_00_00 && LINE3[6].1 == 0b01_00_00_00_00_00_00_00_00_00_00_00_00_00_00_00_00_00_00_00_00_00_00_00_01);
    } else if i == 7 {
        assert(LINE3[7].0 == 0b00_00_00_00_00_00_00_00_01_00_00_00_01_00_00_00_01_00_00_00_00_00_00_00_00 && LINE3[7].1 == 0b00_00_00_00_01_00_00_00_00_00_00_00_00_00_00_00_00_00_00_00_01_00_00_00_00);
    }
    lemma_low_cells_from_bits(LINE3[i].0);
    lemma_low_cells_from_bits(LINE3[i].1);
}

/// `src` keeps the number of bits set in every board word it moves.
pub open spec fn keeps_popcount(src: spec_fn(int) -> int) -> bool {
    forall|z: u64| on_board(z) ==> #[trigger] popcount(moved_word(z, src)) == popcount(z)
}

/// `line_map` and `line3_map` say where `src` sends the lines of [`LINE`]
/// and [`LINE3`], whose cells hold 0 or 1.
pub open spec fn maps_tables(
    src: spec_fn(int) -> int,
    line_map: spec_fn(int) -> int,
    line3_map: spec_fn(int) -> int,
) -> bool {
    &&& forall|i: int|
        0 <= i < 28 ==> {
            &&& 0 <= #[trigger] line_map(i) < 28
            &&& low_cells(LINE[i])
            &&& moved_word(LINE[i], src) == LINE[line_map(i)]
        }
    &&& forall|i: int|
        0 <= i < 8 ==> {
            &&& 0 <= #[trigger] line3_map(i) < 8
            &&& low_cells(LINE3[i].0)
            &&& low_cells(LINE3[i].1)
            &&& moved_word(LINE3[i].0, src) == LINE3[line3_map(i)].0
            &&& moved_word(LINE3[i].1, src) == LINE3[line3_map(i)].1
        }
}

proof fn lemma_select_on_board(w: u64, m: u64, s: u64)
    requires
        on_board(w),
        low_cells(m),
        s <= 1,
    ensures
        on_board((w >> s) & m),
{
    lemma_on_board_cells(w);
    assert forall|i: int| 25 <= i < 32 implies #[trigger] cell((w >> s) & m, i) == 0 by {
        lemma_cell_select(w, m, s, i);
        lemma_zero_cell_ops(cell(m, i), s);
    }
    lemma_on_board_cells((w >> s) & m);
}

proof fn lemma_and_on_board(w: u64, x: u64)
    requires
        on_board(w),
    ensures
        on_board(w & x),
{
    lemma_on_board_cells(w);
    assert forall|i: int| 25 <= i < 32 implies #[trigger] cell(w & x, i) == 0 by {
        lemma_cell_bitwise(w, x, i);
        lemma_zero_cell_ops(cell(x, i), 0);
    }
    lemma_on_board_cells(w & x);
}

/// Counting the bits of `w` that a mask of low bits selects does not change
/// when both are moved.
proof fn lemma_select_count(w: u64, m: u64, s: u64, src: spec_fn(int) -> int)
    requires
        board_map(src),
        keeps_popcount(src),
        on_board(w),
        low_cells(m),
        s <= 1,
    ensures
        popcount((moved_word(w, src) >> s) & moved_word(m, src)) == popcount((w >> s) & m),
{
    lemma_moved_select(w, m, s, src);
    lemma_select_on_board(w, m, s);
    assert(popcount(moved_word((w >> s) & m, src)) == popcount((w >> s) & m));
}

/// Counting the bits of `w` that a mask selects does not change when both are moved.
proof fn lemma_and_count(w: u64, x: u64, src: spec_fn(int) -> int)
    requires
        board_map(src),
        keeps_popcount(src),
        on_board(w),
    ensures
        popcount(moved_word(w, src) & moved_word(x, src)) == popcount(w & x),
{
    lemma_moved_bitwise(w, x, src);
    lemma_and_on_board(w, x);
    assert(popcount(moved_word(w & x, src)) == popcount(w & x));
}

proof fn lemma_shift_facts(x: u64)
    ensures
        x << 0u64 == x,
        1u64 & 1 == 1,
        2u64 & 1 == 0,
{
    assert(x << 0u64 == x && 1u64 & 1 == 1 && 2u64 & 1 == 0) by (bit_vector);
}

/// Every test of the verdict that holds of a board holds of the moved board.
#[verifier::rlimit(30)]
proof fn lemma_verdict_tests_move(
    w: u64,
    cur: State,
    src: spec_fn(int) -> int,
    line_map: spec_fn(int) -> int,
    line3_map: spec_fn(int) -> int,
)
    requires
        board_map(src),
        keeps_popcount(src),
        maps_tables(src, line_map, line3_map),
        on_board(w),
        cur == State::P1 || cur == State::P2,
    ensures
        popcount(moved_word(w, src)) == popcount(w),
        has_four(w, 0) ==> has_four(moved_word(w, src), 0),
        has_four(w, 1) ==> has_four(moved_word(w, src), 1),
        (exists|i: int| 0 <= i < 8 && #[trigger] half_open_three_at(w, cur, i)) ==> (exists|i: int|
            0 <= i < 8 && #[trigger] half_open_three_at(moved_word(w, src), cur, i)),
        has_open_three(w, 0) ==> has_open_three(moved_word(w, src), 0),
        has_open_three(w, 1) ==> has_open_three(moved_word(w, src), 1),
        (exists|i: int| 0 <= i < 28 && #[trigger] line_open_at(w, i)) ==> (exists|i: int|
            0 <= i < 28 && #[trigger] line_open_at(moved_word(w, src), i)),
{
    let v = moved_word(w, src);
    assert forall|p: u64, i: int| p <= 1 && 0 <= i < 28 && #[trigger] four_at(w, p, i) implies four_at(
        v,
        p,
        line_map(i),
    ) by {
        assert(0 <= line_map(i) < 28);
        lemma_select_count(w, LINE[i], p, src);
    }
    if has_four(w, 0) {
        let i = choose|i: int| 0 <= i < 28 && #[trigger] four_at(w, 0, i);
        assert(four_at(v, 0, line_map(i)));
    }
    if has_four(w, 1) {
        let i = choose|i: int| 0 <= i < 28 && #[trigger] four_at(w, 1, i);
        assert(four_at(v, 1, line_map(i)));
    }
    if exists|i: int| 0 <= i < 8 && #[trigger] half_open_three_at(w, cur, i) {
        let i = choose|i: int| 0 <= i < 8 && #[trigger] half_open_three_at(w, cur, i);
        let j = line3_map(i);
        assert(0 <= line3_map(i) < 8);
        let e = LINE3[i].1;
        lemma_shift_facts(e);
        lemma_shift_facts(LINE3[j].1);
        lemma_select_count(w, LINE3[i].0, (cur.code() - 1) as u64, src);
        if cur == State::P1 {
            lemma_moved_shl1(e, src);
            lemma_and_count(w, e << 1u64, src);
        } else {
            lemma_and_count(w, e, src);
        }
        assert(half_open_three_at(v, cur, j));
    }
    assert forall|p: u64, i: int| p <= 1 && 0 <= i < 8 && #[trigger] open_three_at(w, p, i) implies open_three_at(
        v,
        p,
        line3_map(i),
    ) by {
        assert(0 <= line3_map(i) < 8);
        let e = LINE3[i].1;
        lemma_select_count(w, LINE3[i].0, p, src);
        lemma_moved_shl1(e, src);
        lemma_moved_bitwise(e, e << 1u64, src);
        lemma_and_count(w, e | (e << 1u64), src);
    }
    if has_open_three(w, 0) {
        let i = choose|i: int| 0 <= i < 8 && #[trigger] open_three_at(w, 0, i);
        assert(open_three_at(v, 0, line3_map(i)));
    }
    if has_open_three(w, 1) {
        let i = choose|i: int| 0 <= i < 8 && #[trigger] open_three_at(w, 1, i);
        assert(open_three_at(v, 1, line3_map(i)));
    }
    if exists|i: int| 0 <= i < 28 && #[trigger] line_open_at(w, i) {
        let i = choose|i: int| 0 <= i < 28 && #[trigger] line_open_at(w, i);
        assert(0 <= line_map(i) < 28);
        lemma_and_count(w, LINE[i], src);
        lemma_select_count(w, LINE[i], 1, src);
        lemma_shift_facts(w);
        assert(line_open_at(v, line_map(i)));
    }
}

/// [`turn_line`] as a function value.
pub open spec fn turn_line_map() -> spec_fn(int) -> int {
    |i: int| turn_line(i)
}

/// [`flip_line`] as a function value.
pub open spec fn flip_line_map() -> spec_fn(int) -> int {
    |i: int| flip_line(i)
}

/// [`turn_line3`] as a function value.
pub open spec fn turn_line3_map() -> spec_fn(int) -> int {
    |i: int| turn_line3(i)
}

/// [`flip_line3`] as a function value.
pub open spec fn flip_line3_map() -> spec_fn(int) -> int {
    |i: int| flip_line3(i)
}

proof fn lemma_turn_is_symmetry()
    ensures
        board_map(turn_map()),
        keeps_popcount(turn_map()),
        maps_tables(turn_map(), turn_line_map(), turn_line3_map()),
{
    assert forall|z: u64| on_board(z) implies #[trigger] popcount(moved_word(z, turn_map()))
        == popcount(z) by {
        lemma_turn_popcount(z);
    }
    assert forall|i: int| 0 <= i < 28 implies {
        &&& 0 <= #[trigger] turn_line_map()(i) < 28
        &&& low_cells(LINE[i])
        &&& moved_word(LINE[i], turn_map()) == LINE[turn_line_map()(i)]
    } by {
        lemma_line_turn_closed(i);
    }
    assert forall|i: int| 0 <= i < 8 implies {
        &&& 0 <= #[trigger] turn_line3_map()(i) < 8
        &&& low_cells(LINE3[i].0)
        &&& low_cells(LINE3[i].1)
        &&& moved_word(LINE3[i].0, turn_map()) == LINE3[turn_line3_map()(i)].0
        &&& moved_word(LINE3[i].1, turn_map()) == LINE3[turn_line3_map()(i)].1
    } by {
        lemma_line3_turn_closed(i);
    }
}

proof fn lemma_flip_is_symmetry()
    ensures
        board_map(flip_map()),
        keeps_popcount(flip_map()),
        maps_tables(flip_map(), flip_line_map(), flip_line3_map()),
{
    assert forall|z: u64| on_board(z) implies #[trigger] popcount(moved_word(z, flip_map()))
        == popcount(z) by {
        lemma_flip_popcount(z);
    }
    assert forall|i: int| 0 <= i < 28 implies {
        &&& 0 <= #[trigger] flip_line_map()(i) < 28
        &&& low_cells(LINE[i])
        &&& moved_word(LINE[i], flip_map()) == LINE[flip_line_map()(i)]
    } by {
        lemma_line_flip_closed(i);
    }
    assert forall|i: int| 0 <= i < 8 implies {
        &&& 0 <= #[trigger] flip_line3_map()(i) < 8
        &&& low_cells(LINE3[i].0)
        &&& low_cells(LINE3[i].1)
        &&& moved_word(LINE3[i].0, flip_map()) == LINE3[flip_line3_map()(i)].0
        &&& moved_word(LINE3[i].1, flip_map()) == LINE3[flip_line3_map()(i)].1
    } by {
        lemma_line3_flip_closed(i);
    }
}

/// Turning the board a quarter does not change the verdict, with either
/// player to move, on a board with nothing past its 25 cells.
pub proof fn law_verdict_turn(w: u64, cur: State)
    requires
        on_board(w),
        cur == State::P1 || cur == State::P2,
    ensures
        verdict(turned_word(w), cur) == verdict(w, cur),
{
    lemma_turn_is_symmetry();
    let w1 = turned_word(w);
    let w2 = turned_word(w1);
    let w3 = turned_word(w2);
    law_symmetries_stay_on_board(w);
    law_symmetries_stay_on_board(w1);
    law_symmetries_stay_on_board(w2);
    law_four_turns(w);
    let lm = turn_line_map();
    let l3 = turn_line3_map();
    lemma_verdict_tests_move(w, cur, turn_map(), lm, l3);
    lemma_verdict_tests_move(w1, cur, turn_map(), lm, l3);
    lemma_verdict_tests_move(w2, cur, turn_map(), lm, l3);
    lemma_verdict_tests_move(w3, cur, turn_map(), lm, l3);
}

/// Reflecting the board does not change the verdict, with either player to
/// move, on a board with nothing past its 25 cells.
pub proof fn law_verdict_flip(w: u64, cur: State)
    requires
        on_board(w),
        cur == State::P1 || cur == State::P2,
    ensures
        verdict(flipped_word(w), cur) == verdict(w, cur),
{
    lemma_flip_is_symmetry();
    let w1 = flipped_word(w);
    law_symmetries_stay_on_board(w);
    law_two_flips(w);
    let lm = flip_line_map();
    let l3 = flip_line3_map();
    lemma_verdict_tests_move(w, cur, flip_map(), lm, l3);
    lemma_verdict_tests_move(w1, cur, flip_map(), lm, l3);
}

proof fn lemma_line2_turn_words()
    ensures
        (turn_expr(0b00_00_00_00_00_00_00_00_00_00_00_00_00_00_00_00_00_00_00_00_00_00_01_01_00) == 0b00_00_00_00_00_00_00_00_00_01_00_00_00_00_01_00_00_00_00_00_00_00_00_00_00)
            && (turn_expr(0b00_00_00_00_00_00_00_00_00_00_00_00_00_00_00_00_00_00_00_00_00_01_00_00_01) == 0b00_00_00_00_01_00_00_00_00_00_00_00_00_00_00_00_00_00_00_01_00_00_00_00_00)
            && (0b00_00_00_00_00_00_00_00_00_00_00_00_00_00_00_00_00_00_00_00_00_00_01_01_00u64 & 0xaaaa_aaaa_aaaa_aaaau64 == 0)
            && (0b00_00_00_00_00_00_00_00_00_00_00_00_00_00_00_00_00_00_00_00_00_01_00_00_01u64 & 0xaaaa_aaaa_aaaa_aaaau64 == 0)
            && (turn_expr(0b00_00_00_00_00_00_00_00_00_00_00_00_00_00_00_00_00_00_00_00_00_01_01_00_00) == 0b00_00_00_00_00_00_00_00_00_00_00_00_00_00_01_00_00_00_00_01_00_00_00_00_00)
            && (turn_expr(0b00_00_00_00_00_00_00_00_00_00_00_00_00_00_00_00_00_00_00_00_01_00_00_01_00) == 0b00_00_00_00_00_00_00_00_00_01_00_00_00_00_00_00_00_00_00_00_00_00_00_00_01)
            && (0b00_00_00_00_00_00_00_00_00_00_00_00_00_00_00_00_00_00_00_00_00_01_01_00_00u64 & 0xaaaa_aaaa_aaaa_aaaau64 == 0)
            && (0b00_00_00_00_00_00_00_00_00_00_00_00_00_00_00_00_00_00_00_00_01_00_00_01_00u64 & 0xaaaa_aaaa_aaaa_aaaau64 == 0)
            && (turn_expr(0b00_00_00_00_00_00_00_00_00_00_00_00_00_00_00_00_00_01_01_00_00_00_00_00_00) == 0b00_00_00_00_00_00_00_00_01_00_00_00_00_01_00_00_00_00_00_00_00_00_00_00_00)
            && (turn_expr(0b00_00_00_00_00_00_00_00_00_00_00_00_00_00_00_00_01_00_00_01_00_00_00_00_00) == 0b00_00_00_01_00_00_00_00_00_00_00_00_00_00_00_00_00_00_01_00_00_00_00_00_00)
            && (0b00_00_00_00_00_00_00_00_00_00_00_00_00_00_00_00_00_01_01_00_00_00_00_00_00u64 & 0xaaaa_aaaa_aaaa_aaaau64 == 0)
            && (0b00_00_00_00_00_00_00_00_00_00_00_00_00_00_00_00_01_00_00_01_00_00_00_00_00u64 & 0xaaaa_aaaa_aaaa_aaaau64 == 0)
            && (turn_expr(0b00_00_00_00_00_00_00_00_00_00_00_00_00_00_00_00_01_01_00_00_00_00_00_00_00) == 0b00_00_00_00_00_00_00_00_00_00_00_00_00_01_00_00_00_00_01_00_00_00_00_00_00)
            && (turn_expr(0b00_00_00_00_00_00_00_00_00_00_00_00_00_00_00_01_00_00_01_00_00_00_00_00_00) == 0b00_00_00_00_00_00_00_00_01_00_00_00_00_00_00_00_00_00_00_00_00_00_00_01_00)
            && (0b00_00_00_00_00_00_00_00_00_00_00_00_00_00_00_00_01_01_00_00_00_00_00_00_00u64 & 0xaaaa_aaaa_aaaa_aaaau64 == 0)
            && (0b00_00_00_00_00_00_00_00_00_00_00_00_00_00_00_01_00_00_01_00_00_00_00_00_00u64 & 0xaaaa_aaaa_aaaa_aaaau64 == 0)
            && (turn_expr(0b00_00_00_00_00_00_00_00_00_00_00_00_01_01_00_00_00_00_00_00_00_00_00_00_00) == 0b00_00_00_00_00_00_00_01_00_00_00_00_01_00_00_00_00_00_00_00_00_00_00_00_00)
            && (turn_expr(0b00_00_00_00_00_00_00_00_00_00_00_01_00_00_01_00_00_00_00_00_00_00_00_00_00) == 0b00_00_01_00_00_00_00_00_00_00_00_00_00_00_00_00_00_01_00_00_00_00_00_00_00)
            && (0b00_00_00_00_00_00_00_00_00_00_00_00_01_01_00_00_00_00_00_00_00_00_00_00_00u64 & 0xaaaa_aaaa_aaaa_aaaau64 == 0)
            && (0b00_00_00_00_00_00_00_00_00_00_00_01_00_00_01_00_00_00_00_00_00_00_00_00_00u64 & 0xaaaa_aaaa_aaaa_aaaau64 == 0)
            && (turn_expr(0b00_00_00_00_00_00_00_00_00_00_00_01_01_00_00_00_00_00_00_00_00_00_00_00_00) == 0b00_00_00_00_00_00_00_00_00_00_00_00_01_00_00_00_00_01_00_00_00_00_00_00_00)
            && (turn_expr(0b00_00_00_00_00_00_00_00_00_00_01_00_00_01_00_00_00_00_00_00_00_00_00_00_00) == 0b00_00_00_00_00_00_00_01_00_00_00_00_00_00_00_00_00_00_00_00_00_00_01_00_00)
            && (0b00_00_00_00_00_00_00_00_00_00_00_01_01_00_00_00_00_00_00_00_00_00_00_00_00u64 & 0xaaaa_aaaa_aaaa_aaaau64 == 0)
            && (0b00_00_00_00_00_00_00_00_00_00_01_00_00_01_00_00_00_00_00_00_00_00_00_00_00u64 & 0xaaaa_aaaa_aaaa_aaaau64 == 0)
            && (turn_expr(0b00_00_00_00_00_00_00_01_01_00_00_00_00_00_00_00_00_00_00_00_00_00_00_00_00) == 0b00_00_00_00_00_00_01_00_00_00_00_01_00_00_00_00_00_00_00_00_00_00_00_00_00)
            && (turn_expr(0b00_00_00_00_00_00_01_00_00_01_00_00_00_00_00_00_00_00_00_00_00_00_00_00_00) == 0b00_01_00_00_00_00_00_00_00_00_00_00_00_00_00_00_01_00_00_00_00_00_00_00_00)
            && (0b00_00_00_00_00_00_00_01_01_00_00_00_00_00_00_00_00_00_00_00_00_00_00_00_00u64 & 0xaaaa_aaaa_aaaa_aaaau64 == 0)
            && (0b00_00_00_00_00_00_01_00_00_01_00_00_00_00_00_00_00_00_00_00_00_00_00_00_00u64 & 0xaaaa_aaaa_aaaa_aaaau64 == 0)
            && (turn_expr(0b00_00_00_00_00_00_01_01_00_00_00_00_00_00_00_00_00_00_00_00_00_00_00_00_00) == 0b00_00_00_00_00_00_00_00_00_00_00_01_00_00_00_00_01_00_00_00_00_00_00_00_00)
            && (turn_expr(0b00_00_00_00_00_01_00_00_01_00_00_00_00_00_00_00_00_00_00_00_00_00_00_00_00) == 0b00_00_00_00_00_00_01_00_00_00_00_00_00_00_00_00_00_00_00_00_00_01_00_00_00)
            && (0b00_00_00_00_00_00_01_01_00_00_00_00_00_00_00_00_00_00_00_00_00_00_00_00_00u64 & 0xaaaa_aaaa_aaaa_aaaau64 == 0)
            && (0b00_00_00_00_00_01_00_00_01_00_00_00_00_00_00_00_00_00_00_00_00_00_00_00_00u64 & 0xaaaa_aaaa_aaaa_aaaau64 == 0)
            && (turn_expr(0b00_00_01_01_00_00_00_00_00_00_00_00_00_00_00_00_00_00_00_00_00_00_00_00_00) == 0b00_00_00_00_00_01_00_00_00_00_01_00_00_00_00_00_00_00_00_00_00_00_00_00_00)
            && (turn_expr(0b00_01_00_00_01_00_00_00_00_00_00_00_00_00_00_00_00_00_00_00_00_00_00_00_00) == 0b01_00_00_00_00_00_00_00_00_00_00_00_00_00_00_01_00_00_00_00_00_00_00_00_00)
            && (0b00_00_01_01_00_00_00_00_00_00_00_00_00_00_00_00_00_00_00_00_00_00_00_00_00u64 & 0xaaaa_aaaa_aaaa_aaaau64 == 0)
            && (0b00_01_00_00_01_00_00_00_00_00_00_00_00_00_00_00_00_00_00_00_00_00_00_00_00u64 & 0xaaaa_aaaa_aaaa_aaaau64 == 0)
            && (turn_expr(0b00_01_01_00_00_00_00_00_00_00_00_00_00_00_00_00_00_00_00_00_00_00_00_00_00) == 0b00_00_00_00_00_00_00_00_00_00_01_00_00_00_00_01_00_00_00_00_00_00_00_00_00)
            && (turn_expr(0b01_00_00_01_00_00_00_00_00_00_00_00_00_00_00_00_00_00_00_00_00_00_00_00_00) == 0b00_00_00_00_00_01_00_00_00_00_00_00_00_00_00_00_00_00_00_00_01_00_00_00_00)
            && (0b00_01_01_00_00_00_00_00_00_00_00_00_00_00_00_00_00_00_00_00_00_00_00_00_00u64 & 0xaaaa_aaaa_aaaa_aaaau64 == 0)
            && (0b01_00_00_01_00_00_00_00_00_00_00_00_00_00_00_00_00_00_00_00_00_00_00_00_00u64 & 0xaaaa_aaaa_aaaa_aaaau64 == 0)
            && (turn_expr(0b00_00_00_00_00_00_00_00_00_00_00_00_00_00_01_00_00_00_00_01_00_00_00_00_00) == 0b00_00_01_01_00_00_00_00_00_00_00_00_00_00_00_00_00_00_00_00_00_00_00_00_00)
            && (turn_expr(0b00_00_00_00_00_00_00_00_00_01_00_00_00_00_00_00_00_00_00_00_00_00_00_00_01) == 0b00_01_00_00_01_00_00_00_00_00_00_00_00_00_00_00_00_00_00_00_00_00_00_00_00)
            && (0b00_00_00_00_00_00_00_00_00_00_00_00_00_00_01_00_00_00_00_01_00_00_00_00_00u64 & 0xaaaa_aaaa_aaaa_aaaau64 == 0)
            && (0b00_00_00_00_00_00_00_00_00_01_00_00_00_00_00_00_00_00_00_00_00_00_00_00_01u64 & 0xaaaa_aaaa_aaaa_aaaau64 == 0)
            && (turn_expr(0b00_00_00_00_00_00_00_00_00_01_00_00_00_00_01_00_00_00_00_00_00_00_00_00_00) == 0b00_01_01_00_00_00_00_00_00_00_00_00_00_00_00_00_00_00_00_00_00_00_00_00_00)
            && (turn_expr(0b00_00_00_00_01_00_00_00_00_00_00_00_00_00_00_00_00_00_00_01_00_00_00_00_00) == 0b01_00_00_01_00_00_00_00_00_00_00_00_00_00_00_00_00_00_00_00_00_00_00_00_00)
            && (0b00_00_00_00_00_00_00_00_00_01_00_00_00_00_01_00_00_00_00_00_00_00_00_00_00u64 & 0xaaaa_aaaa_aaaa_aaaau64 == 0)
            && (0b00_00_00_00_01_00_00_00_00_00_00_00_00_00_00_00_00_00_00_01_00_00_00_00_00u64 & 0xaaaa_aaaa_aaaa_aaaau64 == 0)
            && (turn_expr(0b00_00_00_00_00_00_00_00_00_00_00_00_00_01_00_00_00_00_01_00_00_00_00_00_00) == 0b00_00_00_00_00_00_00_01_01_00_00_00_00_00_00_00_00_00_00_00_00_00_00_00_00)
            && (turn_expr(0b00_00_00_00_00_00_00_00_01_00_00_00_00_00_00_00_00_00_00_00_00_00_00_01_00) == 0b00_00_00_00_00_00_01_00_00_01_00_00_00_00_00_00_00_00_00_00_00_00_00_00_00)
            && (0b00_00_00_00_00_00_00_00_00_00_00_00_00_01_00_00_00_00_01_00_00_00_00_00_00u64 & 0xaaaa_aaaa_aaaa_aaaau64 == 0)
            && (0b00_00_00_00_00_00_00_00_01_00_00_00_00_00_00_00_00_00_00_00_00_00_00_01_00u64 & 0xaaaa_aaaa_aaaa_aaaau64 == 0)
            && (turn_expr(0b00_00_00_00_00_00_00_00_01_00_00_00_00_01_00_00_00_00_00_00_00_00_00_00_00) == 0b00_00_00_00_00_00_01_01_00_00_00_00_00_00_00_00_00_00_00_00_00_00_00_00_00)
            && (turn_expr(0b00_00_00_01_00_00_00_00_00_00_00_00_00_00_00_00_00_00_01_00_00_00_00_00_00) == 0b00_00_00_00_00_01_00_00_01_00_00_00_00_00_00_00_00_00_00_00_00_00_00_00_00)
            && (0b00_00_00_00_00_00_00_00_01_00_00_00_00_01_00_00_00_00_00_00_00_00_00_00_00u64 & 0xaaaa_aaaa_aaaa_aaaau64 == 0)
            && (0b00_00_00_01_00_00_00_00_00_00_00_00_00_00_00_00_00_00_01_00_00_00_00_00_00u64 & 0xaaaa_aaaa_aaaa_aaaau64 == 0)
            && (turn_expr(0b00_00_00_00_00_00_00_00_00_00_00_00_01_00_00_00_00_01_00_00_00_00_00_00_00) == 0b00_00_00_00_00_00_00_00_00_00_00_00_01_01_00_00_00_00_00_00_00_00_00_00_00)
            && (turn_expr(0b00_00_00_00_00_00_00_01_00_00_00_00_00_00_00_00_00_00_00_00_00_00_01_00_00) == 0b00_00_00_00_00_00_00_00_00_00_00_01_00_00_01_00_00_00_00_00_00_00_00_00_00)
            && (0b00_00_00_00_00_00_00_00_00_00_00_00_01_00_00_00_00_01_00_00_00_00_00_00_00u64 & 0xaaaa_aaaa_aaaa_aaaau64 == 0)
            && (0b00_00_00_00_00_00_00_01_00_00_00_00_00_00_00_00_00_00_00_00_00_00_01_00_00u64 & 0xaaaa_aaaa_aaaa_aaaau64 == 0)
            && (turn_expr(0b00_00_00_00_00_00_00_01_00_00_00_00_01_00_00_00_00_00_00_00_00_00_00_00_00) == 0b00_00_00_00_00_00_00_00_00_00_00_01_01_00_00_00_00_00_00_00_00_00_00_00_00)
            && (turn_expr(0b00_00_01_00_00_00_00_00_00_00_00_00_00_00_00_00_00_01_00_00_00_00_00_00_00) == 0b00_00_00_00_00_00_00_00_00_00_01_00_00_01_00_00_00_00_00_00_00_00_00_00_00)
            && (0b00_00_00_00_00_00_00_01_00_00_00_00_01_00_00_00_00_00_00_00_00_00_00_00_00u64 & 0xaaaa_aaaa_aaaa_aaaau64 == 0)
            && (0b00_00_01_00_00_00_00_00_00_00_00_00_00_00_00_00_00_01_00_00_00_00_00_00_00u64 & 0xaaaa_aaaa_aaaa_aaaau64 == 0)
            && (turn_expr(0b00_00_00_00_00_00_00_00_00_00_00_01_00_00_00_00_01_00_00_00_00_00_00_00_00) == 0b00_00_00_00_00_00_00_00_00_00_00_00_00_00_00_00_00_01_01_00_00_00_00_00_00)
            && (turn_expr(0b00_00_00_00_00_00_01_00_00_00_00_00_00_00_00_00_00_00_00_00_00_01_00_00_00) == 0b00_00_00_00_00_00_00_00_00_00_00_00_00_00_00_00_01_00_00_01_00_00_00_00_00)
            && (0b00_00_00_00_00_00_00_00_00_00_00_01_00_00_00_00_01_00_00_00_00_00_00_00_00u64 & 0xaaaa_aaaa_aaaa_aaaau64 == 0)
            && (0b00_00_00_00_00_00_01_00_00_00_00_00_00_00_00_00_00_00_00_00_00_01_00_00_00u64 & 0xaaaa_aaaa_aaaa_aaaau64 == 0)
            && (turn_expr(0b00_00_00_00_00_00_01_00_00_00_00_01_00_00_00_00_00_00_00_00_00_00_00_00_00) == 0b00_00_00_00_00_00_00_00_00_00_00_00_00_00_00_00_01_01_00_00_00_00_00_00_00)
            && (turn_expr(0b00_01_00_00_00_00_00_00_00_00_00_00_00_00_00_00_01_00_00_00_00_00_00_00_00) == 0b00_00_00_00_00_00_00_00_00_00_00_00_00_00_00_01_00_00_01_00_00_00_00_00_00)
            && (0b00_00_00_00_00_00_01_00_00_00_00_01_00_00_00_00_00_00_00_00_00_00_00_00_00u64 & 0xaaaa_aaaa_aaaa_aaaau64 == 0)
            && (0b00_01_00_00_00_00_00_00_00_00_00_00_00_00_00_00_01_00_00_00_00_00_00_00_00u64 & 0xaaaa_aaaa_aaaa_aaaau64 == 0)
            && (turn_expr(0b00_00_00_00_00_00_00_00_00_00_01_00_00_00_00_01_00_00_00_00_00_00_00_00_00) == 0b00_00_00_00_00_00_00_00_00_00_00_00_00_00_00_00_00_00_00_00_00_00_01_01_00)
            && (turn_expr(0b00_00_00_00_00_01_00_00_00_00_00_00_00_00_00_00_00_00_00_00_01_00_00_00_00) == 0b00_00_00_00_00_00_00_00_00_00_00_00_00_00_00_00_00_00_00_00_00_01_00_00_01)
            && (0b00_00_00_00_00_00_00_00_00_00_01_00_00_00_00_01_00_00_00_00_00_00_00_00_00u64 & 0xaaaa_aaaa_aaaa_aaaau64 == 0)
            && (0b00_00_00_00_00_01_00_00_00_00_00_00_00_00_00_00_00_00_00_00_01_00_00_00_00u64 & 0xaaaa_aaaa_aaaa_aaaau64 == 0)
            && (turn_expr(0b00_00_00_00_00_01_00_00_00_00_01_00_00_00_00_00_00_00_00_00_00_00_00_00_00) == 0b00_00_00_00_00_00_00_00_00_00_00_00_00_00_00_00_00_00_00_00_00_01_01_00_00)
            && (turn_expr(0b01_00_00_00_00_00_00_00_00_00_00_00_00_00_00_01_00_00_00_00_00_00_00_00_00) == 0b00_00_00_00_00_00_00_00_00_00_00_00_00_00_00_00_00_00_00_00_01_00_00_01_00)
            && (0b00_00_00_00_00_01_00_00_00_00_01_00_00_00_00_00_00_00_00_00_00_00_00_00_00u64 & 0xaaaa_aaaa_aaaa_aaaau64 == 0)
            && (0b01_00_00_00_00_00_00_00_00_00_00_00_00_00_00_01_00_00_00_00_00_00_00_00_00u64 & 0xaaaa_aaaa_aaaa_aaaau64 == 0)
            && (turn_expr(0b00_00_00_00_00_00_00_00_00_00_00_00_01_00_00_00_00_00_01_00_00_00_00_00_00) == 0b00_00_00_00_00_00_00_00_01_00_00_00_01_00_00_00_00_00_00_00_00_00_00_00_00)
            && (turn_expr(0b00_00_00_00_00_00_01_00_00_00_00_00_00_00_00_00_00_00_00_00_00_00_00_00_01) == 0b00_00_00_00_01_00_00_00_00_00_00_00_00_00_00_00_01_00_00_00_00_00_00_00_00)
            && (0b00_00_00_00_00_00_00_00_00_00_00_00_01_00_00_00_00_00_01_00_00_00_00_00_00u64 & 0xaaaa_aaaa_aaaa_aaaau64 == 0)
            && (0b00_00_00_00_00_00_01_00_00_00_00_00_00_00_00_00_00_00_00_00_00_00_00_00_01u64 & 0xaaaa_aaaa_aaaa_aaaau64 == 0)
            && (turn_expr(0b00_00_00_00_00_00_01_00_00_00_00_00_01_00_00_00_00_00_00_00_00_00_00_00_00) == 0b00_00_00_00_00_00_00_00_00_00_00_00_01_00_00_00_01_00_00_00_00_00_00_00_00)
            && (turn_expr(0b01_00_00_00_00_00_00_00_00_00_00_00_00_00_00_00_00_00_01_00_00_00_00_00_00) == 0b00_00_00_00_00_00_00_00_01_00_00_00_00_00_00_00_00_00_00_00_01_00_00_00_00)
            && (0b00_00_00_00_00_00_01_00_00_00_00_00_01_00_00_00_00_00_00_00_00_00_00_00_00u64 & 0xaaaa_aaaa_aaaa_aaaau64 == 0)
            && (0b01_00_00_00_00_00_00_00_00_00_00_00_00_00_00_00_00_00_01_00_00_00_00_00_00u64 & 0xaaaa_aaaa_aaaa_aaaau64 == 0)
            && (turn_expr(0b00_00_00_00_00_00_00_00_00_00_00_00_01_00_00_00_01_00_00_00_00_00_00_00_00) == 0b00_00_00_00_00_00_00_00_00_00_00_00_01_00_00_00_00_00_01_00_00_00_00_00_00)
            && (turn_expr(0b00_00_00_00_00_00_00_00_01_00_00_00_00_00_00_00_00_00_00_00_01_00_00_00_00) == 0b00_00_00_00_00_00_01_00_00_00_00_00_00_00_00_00_00_00_00_00_00_00_00_00_01)
            && (0b00_00_00_00_00_00_00_00_00_00_00_00_01_00_00_00_01_00_00_00_00_00_00_00_00u64 & 0xaaaa_aaaa_aaaa_aaaau64 == 0)
            && (0b00_00_00_00_00_00_00_00_01_00_00_00_00_00_00_00_00_00_00_00_01_00_00_00_00u64 & 0xaaaa_aaaa_aaaa_aaaau64 == 0)
            && (turn_expr(0b00_00_00_00_00_00_00_00_01_00_00_00_01_00_00_00_00_00_00_00_00_00_00_00_00) == 0b00_00_00_00_00_00_01_00_00_00_00_00_01_00_00_00_00_00_00_00_00_00_00_00_00)
            && (turn_expr(0b00_00_00_00_01_00_00_00_00_00_00_00_00_00_00_00_01_00_00_00_00_00_00_00_00) == 0b01_00_00_00_00_00_00_00_00_00_00_00_00_00_00_00_00_00_01_00_00_00_00_00_00)
            && (0b00_00_00_00_00_00_00_00_01_00_00_00_01_00_00_00_00_00_00_00_00_00_00_00_00u64 & 0xaaaa_aaaa_aaaa_aaaau64 == 0)
            && (0b00_00_00_00_01_00_00_00_00_00_00_00_00_00_00_00_01_00_00_00_00_00_00_00_00u64 & 0xaaaa_aaaa_aaaa_aaaau64 == 0),
{
    assert((turn_expr(0b00_00_00_00_00_00_00_00_00_00_00_00_00_00_00_00_00_00_00_00_00_00_01_01_00) == 0b00_00_00_00_00_00_00_00_00_01_00_00_00_00_01_00_00_00_00_00_00_00_00_00_00)
        && (turn_expr(0b00_00_00_00_00_00_00_00_00_00_00_00_00_00_00_00_00_00_00_00_00_01_00_00_01) == 0b00_00_00_00_01_00_00_00_00_00_00_00_00_00_00_00_00_00_00_01_00_00_00_00_00)
        && (0b00_00_00_00_00_00_00_00_00_00_00_00_00_00_00_00_00_00_00_00_00_00_01_01_00u64 & 0xaaaa_aaaa_aaaa_aaaau64 == 0)
        && (0b00_00_00_00_00_00_00_00_00_00_00_00_00_00_00_00_00_00_00_00_00_01_00_00_01u64 & 0xaaaa_aaaa_aaaa_aaaau64 == 0)
        && (turn_expr(0b00_00_00_00_00_00_00_00_00_00_00_00_00_00_00_00_00_00_00_00_00_01_01_00_00) == 0b00_00_00_00_00_00_00_00_00_00_00_00_00_00_01_00_00_00_00_01_00_00_00_00_00)
        && (turn_expr(0b00_00_00_00_00_00_00_00_00_00_00_00_00_00_00_00_00_00_00_00_01_00_00_01_00) == 0b00_00_00_00_00_00_00_00_00_01_00_00_00_00_00_00_00_00_00_00_00_00_00_00_01)
        && (0b00_00_00_00_00_00_00_00_00_00_00_00_00_00_00_00_00_00_00_00_00_01_01_00_00u64 & 0xaaaa_aaaa_aaaa_aaaau64 == 0)
        && (0b00_00_00_00_00_00_00_00_00_00_00_00_00_00_00_00_00_00_00_00_01_00_00_01_00u64 & 0xaaaa_aaaa_aaaa_aaaau64 == 0)
        && (turn_expr(0b00_00_00_00_00_00_00_00_00_00_00_00_00_00_00_00_00_01_01_00_00_00_00_00_00) == 0b00_00_00_00_00_00_00_00_01_00_00_00_00_01_00_00_00_00_00_00_00_00_00_00_00)
        && (turn_expr(0b00_00_00_00_00_00_00_00_00_00_00_00_00_00_00_00_01_00_00_01_00_00_00_00_00) == 0b00_00_00_01_00_00_00_00_00_00_00_00_00_00_00_00_00_00_01_00_00_00_00_00_00)
        && (0b00_00_00_00_00_00_00_00_00_00_00_00_00_00_00_00_00_01_01_00_00_00_00_00_00u64 & 0xaaaa_aaaa_aaaa_aaaau64 == 0)
        && (0b00_00_00_00_00_00_00_00_00_00_00_00_00_00_00_00_01_00_00_01_00_00_00_00_00u64 & 0xaaaa_aaaa_aaaa_aaaau64 == 0)
        && (turn_expr(0b00_00_00_00_00_00_00_00_00_00_00_00_00_00_00_00_01_01_00_00_00_00_00_00_00) == 0b00_00_00_00_00_00_00_00_00_00_00_00_00_01_00_00_00_00_01_00_00_00_00_00_00)
        && (turn_expr(0b00_00_00_00_00_00_00_00_00_00_00_00_00_00_00_01_00_00_01_00_00_00_00_00_00) == 0b00_00_00_00_00_00_00_00_01_00_00_00_00_00_00_00_00_00_00_00_00_00_00_01_00)
        && (0b00_00_00_00_00_00_00_00_00_00_00_00_00_00_00_00_01_01_00_00_00_00_00_00_00u64 & 0xaaaa_aaaa_aaaa_aaaau64 == 0)
        && (0b00_00_00_00_00_00_00_00_00_00_00_00_00_00_00_01_00_00_01_00_00_00_00_00_00u64 & 0xaaaa_aaaa_aaaa_aaaau64 == 0)
        && (turn_expr(0b00_00_00_00_00_00_00_00_00_00_00_00_01_01_00_00_00_00_00_00_00_00_00_00_00) == 0b00_00_00_00_00_00_00_01_00_00_00_00_01_00_00_00_00_00_00_00_00_00_00_00_00)
        && (turn_expr(0b00_00_00_00_00_00_00_00_00_00_00_01_00_00_01_00_00_00_00_00_00_00_00_00_00) == 0b00_00_01_00_00_00_00_00_00_00_00_00_00_00_00_00_00_01_00_00_00_00_00_00_00)
        && (0b00_00_00_00_00_00_00_00_00_00_00_00_01_01_00_00_00_00_00_00_00_00_00_00_00u64 & 0xaaaa_aaaa_aaaa_aaaau64 == 0)
        && (0b00_00_00_00_00_00_00_00_00_00_00_01_00_00_01_00_00_00_00_00_00_00_00_00_00u64 & 0xaaaa_aaaa_aaaa_aaaau64 == 0)
        && (turn_expr(0b00_00_00_00_00_00_00_00_00_00_00_01_01_00_00_00_00_00_00_00_00_00_00_00_00) == 0b00_00_00_00_00_00_00_00_00_00_00_00_01_00_00_00_00_01_00_00_00_00_00_00_00)
        && (turn_expr(0b00_00_00_00_00_00_00_00_00_00_01_00_00_01_00_00_00_00_00_00_00_00_00_00_00) == 0b00_00_00_00_00_00_00_01_00_00_00_00_00_00_00_00_00_00_00_00_00_00_01_00_00)
        && (0b00_00_00_00_00_00_00_00_00_00_00_01_01_00_00_00_00_00_00_00_00_00_00_00_00u64 & 0xaaaa_aaaa_aaaa_aaaau64 == 0)
        && (0b00_00_00_00_00_00_00_00_00_00_01_00_00_01_00_00_00_00_00_00_00_00_00_00_00u64 & 0xaaaa_aaaa_aaaa_aaaau64 == 0)
        && (turn_expr(0b00_00_00_00_00_00_00_01_01_00_00_00_00_00_00_00_00_00_00_00_00_00_00_00_00) == 0b00_00_00_00_00_00_01_00_00_00_00_01_00_00_00_00_00_00_00_00_00_00_00_00_00)
        && (turn_expr(0b00_00_00_00_00_00_01_00_00_01_00_00_00_00_00_00_00_00_00_00_00_00_00_00_00) == 0b00_01_00_00_00_00_00_00_00_00_00_00_00_00_00_00_01_00_00_00_00_00_00_00_00)
        && (0b00_00_00_00_00_00_00_01_01_00_00_00_00_00_00_00_00_00_00_00_00_00_00_00_00u64 & 0xaaaa_aaaa_aaaa_aaaau64 == 0)
        && (0b00_00_00_00_00_00_01_00_00_01_00_00_00_00_00_00_00_00_00_00_00_00_00_00_00u64 & 0xaaaa_aaaa_aaaa_aaaau64 == 0)
        && (turn_expr(0b00_00_00_00_00_00_01_01_00_00_00_00_00_00_00_00_00_00_00_00_00_00_00_00_00) == 0b00_00_00_00_00_00_00_00_00_00_00_01_00_00_00_00_01_00_00_00_00_00_00_00_00)
        && (turn_expr(0b00_00_00_00_00_01_00_00_01_00_00_00_00_00_00_00_00_00_00_00_00_00_00_00_00) == 0b00_00_00_00_00_00_01_00_00_00_00_00_00_00_00_00_00_00_00_00_00_01_00_00_00)
        && (0b00_00_00_00_00_00_01_01_00_00_00_00_00_00_00_00_00_00_00_00_00_00_00_00_00u64 & 0xaaaa_aaaa_aaaa_aaaau64 == 0)
        && (0b00_00_00_00_00_01_00_00_01_00_00_00_00_00_00_00_00_00_00_00_00_00_00_00_00u64 & 0xaaaa_aaaa_aaaa_aaaau64 == 0)
        && (turn_expr(0b00_00_01_01_00_00_00_00_00_00_00_00_00_00_00_00_00_00_00_00_00_00_00_00_00) == 0b00_00_00_00_00_01_00_00_00_00_01_00_00_00_00_00_00_00_00_00_00_00_00_00_00)
        && (turn_expr(0b00_01_00_00_01_00_00_00_00_00_00_00_00_00_00_00_00_00_00_00_00_00_00_00_00) == 0b01_00_00_00_00_00_00_00_00_00_00_00_00_00_00_01_00_00_00_00_00_00_00_00_00)
        && (0b00_00_01_01_00_00_00_00_00_00_00_00_00_00_00_00_00_00_00_00_00_00_00_00_00u64 & 0xaaaa_aaaa_aaaa_aaaau64 == 0)
        && (0b00_01_00_00_01_00_00_00_00_00_00_00_00_00_00_00_00_00_00_00_00_00_00_00_00u64 & 0xaaaa_aaaa_aaaa_aaaau64 == 0)
        && (turn_expr(0b00_01_01_00_00_00_00_00_00_00_00_00_00_00_00_00_00_00_00_00_00_00_00_00_00) == 0b00_00_00_00_00_00_00_00_00_00_01_00_00_00_00_01_00_00_00_00_00_00_00_00_00)
        && (turn_expr(0b01_00_00_01_00_00_00_00_00_00_00_00_00_00_00_00_00_00_00_00_00_00_00_00_00) == 0b00_00_00_00_00_01_00_00_00_00_00_00_00_00_00_00_00_00_00_00_01_00_00_00_00)
        && (0b00_01_01_00_00_00_00_00_00_00_00_00_00_00_00_00_00_00_00_00_00_00_00_00_00u64 & 0xaaaa_aaaa_aaaa_aaaau64 == 0)
        && (0b01_00_00_01_00_00_00_00_00_00_00_00_00_00_00_00_00_00_00_00_00_00_00_00_00u64 & 0xaaaa_aaaa_aaaa_aaaau64 == 0)
        && (turn_expr(0b00_00_00_00_00_00_00_00_00_00_00_00_00_00_01_00_00_00_00_01_00_00_00_00_00) == 0b00_00_01_01_00_00_00_00_00_00_00_00_00_00_00_00_00_00_00_00_00_00_00_00_00)
        && (turn_expr(0b00_00_00_00_00_00_00_00_00_01_00_00_00_00_00_00_00_00_00_00_00_00_00_00_01) == 0b00_01_00_00_01_00_00_00_00_00_00_00_00_00_00_00_00_00_00_00_00_00_00_00_00)
        && (0b00_00_00_00_00_00_00_00_00_00_00_00_00_00_01_00_00_00_00_01_00_00_00_00_00u64 & 0xaaaa_aaaa_aaaa_aaaau64 == 0)
        && (0b00_00_00_00_00_00_00_00_00_01_00_00_00_00_00_00_00_00_00_00_00_00_00_00_01u64 & 0xaaaa_aaaa_aaaa_aaaau64 == 0)
        && (turn_expr(0b00_00_00_00_00_00_00_00_00_01_00_00_00_00_01_00_00_00_00_00_00_00_00_00_00) == 0b00_01_01_00_00_00_00_00_00_00_00_00_00_00_00_00_00_00_00_00_00_00_00_00_00)
        && (turn_expr(0b00_00_00_00_01_00_00_00_00_00_00_00_00_00_00_00_00_00_00_01_00_00_00_00_00) == 0b01_00_00_01_00_00_00_00_00_00_00_00_00_00_00_00_00_00_00_00_00_00_00_00_00)
        && (0b00_00_00_00_00_00_00_00_00_01_00_00_00_00_01_00_00_00_00_00_00_00_00_00_00u64 & 0xaaaa_aaaa_aaaa_aaaau64 == 0)
        && (0b00_00_00_00_01_00_00_00_00_00_00_00_00_00_00_00_00_00_00_01_00_00_00_00_00u64 & 0xaaaa_aaaa_aaaa_aaaau64 == 0)
        && (turn_expr(0b00_00_00_00_00_00_00_00_00_00_00_00_00_01_00_00_00_00_01_00_00_00_00_00_00) == 0b00_00_00_00_00_00_00_01_01_00_00_00_00_00_00_00_00_00_00_00_00_00_00_00_00)
        && (turn_expr(0b00_00_00_00_00_00_00_00_01_00_00_00_00_00_00_00_00_00_00_00_00_00_00_01_00) == 0b00_00_00_00_00_00_01_00_00_01_00_00_00_00_00_00_00_00_00_00_00_00_00_00_00)
        && (0b00_00_00_00_00_00_00_00_00_00_00_00_00_01_00_00_00_00_01_00_00_00_00_00_00u64 & 0xaaaa_aaaa_aaaa_aaaau64 == 0)
        && (0b00_00_00_00_00_00_00_00_01_00_00_00_00_00_00_00_00_00_00_00_00_00_00_01_00u64 & 0xaaaa_aaaa_aaaa_aaaau64 == 0)
        && (turn_expr(0b00_00_00_00_00_00_00_00_01_00_00_00_00_01_00_00_00_00_00_00_00_00_00_00_00) == 0b00_00_00_00_00_00_01_01_00_00_00_00_00_00_00_00_00_00_00_00_00_00_00_00_00)
        && (turn_expr(0b00_00_00_01_00_00_00_00_00_00_00_00_00_00_00_00_00_00_01_00_00_00_00_00_00) == 0b00_00_00_00_00_01_00_00_01_00_00_00_00_00_00_00_00_00_00_00_00_00_00_00_00)
        && (0b00_00_00_00_00_00_00_00_01_00_00_00_00_01_00_00_00_00_00_00_00_00_00_00_00u64 & 0xaaaa_aaaa_aaaa_aaaau64 == 0)
        && (0b00_00_00_01_00_00_00_00_00_00_00_00_00_00_00_00_00_00_01_00_00_00_00_00_00u64 & 0xaaaa_aaaa_aaaa_aaaau64 == 0)
        && (turn_expr(0b00_00_00_00_00_00_00_00_00_00_00_00_01_00_00_00_00_01_00_00_00_00_00_00_00) == 0b00_00_00_00_00_00_00_00_00_00_00_00_01_01_00_00_00_00_00_00_00_00_00_00_00)
        && (turn_expr(0b00_00_00_00_00_00_00_01_00_00_00_00_00_00_00_00_00_00_00_00_00_00_01_00_00) == 0b00_00_00_00_00_00_00_00_00_00_00_01_00_00_01_00_00_00_00_00_00_00_00_00_00)
        && (0b00_00_00_00_00_00_00_00_00_00_00_00_01_00_00_00_00_01_00_00_00_00_00_00_00u64 & 0xaaaa_aaaa_aaaa_aaaau64 == 0)
        && (0b00_00_00_00_00_00_00_01_00_00_00_00_00_00_00_00_00_00_00_00_00_00_01_00_00u64 & 0xaaaa_aaaa_aaaa_aaaau64 == 0)
        && (turn_expr(0b00_00_00_00_00_00_00_01_00_00_00_00_01_00_00_00_00_00_00_00_00_00_00_00_00) == 0b00_00_00_00_00_00_00_00_00_00_00_01_01_00_00_00_00_00_00_00_00_00_00_00_00)
        && (turn_expr(0b00_00_01_00_00_00_00_00_00_00_00_00_00_00_00_00_00_01_00_00_00_00_00_00_00) == 0b00_00_00_00_00_00_00_00_00_00_01_00_00_01_00_00_00_00_00_00_00_00_00_00_00)
        && (0b00_00_00_00_00_00_00_01_00_00_00_00_01_00_00_00_00_00_00_00_00_00_00_00_00u64 & 0xaaaa_aaaa_aaaa_aaaau64 == 0)
        && (0b00_00_01_00_00_00_00_00_00_00_00_00_00_00_00_00_00_01_00_00_00_00_00_00_00u64 & 0xaaaa_aaaa_aaaa_aaaau64 == 0)
        && (turn_expr(0b00_00_00_00_00_00_00_00_00_00_00_01_00_00_00_00_01_00_00_00_00_00_00_00_00) == 0b00_00_00_00_00_00_00_00_00_00_00_00_00_00_00_00_00_01_01_00_00_00_00_00_00)
        && (turn_expr(0b00_00_00_00_00_00_01_00_00_00_00_00_00_00_00_00_00_00_00_00_00_01_00_00_00) == 0b00_00_00_00_00_00_00_00_00_00_00_00_00_00_00_00_01_00_00_01_00_00_00_00_00)
        && (0b00_00_00_00_00_00_00_00_00_00_00_01_00_00_00_00_01_00_00_00_00_00_00_00_00u64 & 0xaaaa_aaaa_aaaa_aaaau64 == 0)
        && (0b00_00_00_00_00_00_01_00_00_00_00_00_00_00_00_00_00_00_00_00_00_01_00_00_00u64 & 0xaaaa_aaaa_aaaa_aaaau64 == 0)
        && (turn_expr(0b00_00_00_00_00_00_01_00_00_00_00_01_00_00_00_00_00_00_00_00_00_00_00_00_00) == 0b00_00_00_00_00_00_00_00_00_00_00_00_00_00_00_00_01_01_00_00_00_00_00_00_00)
        && (turn_expr(0b00_01_00_00_00_00_00_00_00_00_00_00_00_00_00_00_01_00_00_00_00_00_00_00_00) == 0b00_00_00_00_00_00_00_00_00_00_00_00_00_00_00_01_00_00_01_00_00_00_00_00_00)
        && (0b00_00_00_00_00_00_01_00_00_00_00_01_00_00_00_00_00_00_00_00_00_00_00_00_00u64 & 0xaaaa_aaaa_aaaa_aaaau64 == 0)
        && (0b00_01_00_00_00_00_00_00_00_00_00_00_00_00_00_00_01_00_00_00_00_00_00_00_00u64 & 0xaaaa_aaaa_aaaa_aaaau64 == 0)
        && (turn_expr(0b00_00_00_00_00_00_00_00_00_00_01_00_00_00_00_01_00_00_00_00_00_00_00_00_00) == 0b00_00_00_00_00_00_00_00_00_00_00_00_00_00_00_00_00_00_00_00_00_00_01_01_00)
        && (turn_expr(0b00_00_00_00_00_01_00_00_00_00_00_00_00_00_00_00_00_00_00_00_01_00_00_00_00) == 0b00_00_00_00_00_00_00_00_00_00_00_00_00_00_00_00_00_00_00_00_00_01_00_00_01)
        && (0b00_00_00_00_00_00_00_00_00_00_01_00_00_00_00_01_00_00_00_00_00_00_00_00_00u64 & 0xaaaa_aaaa_aaaa_aaaau64 == 0)
        && (0b00_00_00_00_00_01_00_00_00_00_00_00_00_00_00_00_00_00_00_00_01_00_00_00_00u64 & 0xaaaa_aaaa_aaaa_aaaau64 == 0)
        && (turn_expr(0b00_00_00_00_00_01_00_00_00_00_01_00_00_00_00_00_00_00_00_00_00_00_00_00_00) == 0b00_00_00_00_00_00_00_00_00_00_00_00_00_00_00_00_00_00_00_00_00_01_01_00_00)
        && (turn_expr(0b01_00_00_00_00_00_00_00_00_00_00_00_00_00_00_01_00_00_00_00_00_00_00_00_00) == 0b00_00_00_00_00_00_00_00_00_00_00_00_00_00_00_00_00_00_00_00_01_00_00_01_00)
        && (0b00_00_00_00_00_01_00_00_00_00_01_00_00_00_00_00_00_00_00_00_00_00_00_00_00u64 & 0xaaaa_aaaa_aaaa_aaaau64 == 0)
        && (0b01_00_00_00_00_00_00_00_00_00_00_00_00_00_00_01_00_00_00_00_00_00_00_00_00u64 & 0xaaaa_aaaa_aaaa_aaaau64 == 0)
        && (turn_expr(0b00_00_00_00_00_00_00_00_00_00_00_00_01_00_00_00_00_00_01_00_00_00_00_00_00) == 0b00_00_00_00_00_00_00_00_01_00_00_00_01_00_00_00_00_00_00_00_00_00_00_00_00)
        && (turn_expr(0b00_00_00_00_00_00_01_00_00_00_00_00_00_00_00_00_00_00_00_00_00_00_00_00_01) == 0b00_00_00_00_01_00_00_00_00_00_00_00_00_00_00_00_01_00_00_00_00_00_00_00_00)
        && (0b00_00_00_00_00_00_00_00_00_00_00_00_01_00_00_00_00_00_01_00_00_00_00_00_00u64 & 0xaaaa_aaaa_aaaa_aaaau64 == 0)
        && (0b00_00_00_00_00_00_01_00_00_00_00_00_00_00_00_00_00_00_00_00_00_00_00_00_01u64 & 0xaaaa_aaaa_aaaa_aaaau64 == 0)
        && (turn_expr(0b00_00_00_00_00_00_01_00_00_00_00_00_01_00_00_00_00_00_00_00_00_00_00_00_00) == 0b00_00_00_00_00_00_00_00_00_00_00_00_01_00_00_00_01_00_00_00_00_00_00_00_00)
        && (turn_expr(0b01_00_00_00_00_00_00_00_00_00_00_00_00_00_00_00_00_00_01_00_00_00_00_00_00) == 0b00_00_00_00_00_00_00_00_01_00_00_00_00_00_00_00_00_00_00_00_01_00_00_00_00)
        && (0b00_00_00_00_00_00_01_00_00_00_00_00_01_00_00_00_00_00_00_00_00_00_00_00_00u64 & 0xaaaa_aaaa_aaaa_aaaau64 == 0)
        && (0b01_00_00_00_00_00_00_00_00_00_00_00_00_00_00_00_00_00_01_00_00_00_00_00_00u64 & 0xaaaa_aaaa_aaaa_aaaau64 == 0)
        && (turn_expr(0b00_00_00_00_00_00_00_00_00_00_00_00_01_00_00_00_01_00_00_00_00_00_00_00_00) == 0b00_00_00_00_00_00_00_00_00_00_00_00_01_00_00_00_00_00_01_00_00_00_00_00_00)
        && (turn_expr(0b00_00_00_00_00_00_00_00_01_00_00_00_00_00_00_00_00_00_00_00_01_00_00_00_00) == 0b00_00_00_00_00_00_01_00_00_00_00_00_00_00_00_00_00_00_00_00_00_00_00_00_01)
        && (0b00_00_00_00_00_00_00_00_00_00_00_00_01_00_00_00_01_00_00_00_00_00_00_00_00u64 & 0xaaaa_aaaa_aaaa_aaaau64 == 0)
        && (0b00_00_00_00_00_00_00_00_01_00_00_00_00_00_00_00_00_00_00_00_01_00_00_00_00u64 & 0xaaaa_aaaa_aaaa_aaaau64 == 0)
        && (turn_expr(0b00_00_00_00_00_00_00_00_01_00_00_00_01_00_00_00_00_00_00_00_00_00_00_00_00) == 0b00_00_00_00_00_00_01_00_00_00_00_00_01_00_00_00_00_00_00_00_00_00_00_00_00)
        && (turn_expr(0b00_00_00_00_01_00_00_00_00_00_00_00_00_00_00_00_01_00_00_00_00_00_00_00_00) == 0b01_00_00_00_00_00_00_00_00_00_00_00_00_00_00_00_00_00_01_00_00_00_00_00_00)
        && (0b00_00_00_00_00_00_00_00_01_00_00_00_01_00_00_00_00_00_00_00_00_00_00_00_00u64 & 0xaaaa_aaaa_aaaa_aaaau64 == 0)
        && (0b00_00_00_00_01_00_00_00_00_00_00_00_00_00_00_00_01_00_00_00_00_00_00_00_00u64 & 0xaaaa_aaaa_aaaa_aaaau64 == 0)) by (bit_vector);
}

proof fn lemma_line2_flip_words()
    ensures
        (flip_expr(0b00_00_00_00_00_00_00_00_00_00_00_00_00_00_00_00_00_00_00_00_00_00_01_01_00) == 0b00_00_01_01_00_00_00_00_00_00_00_00_00_00_00_00_00_00_00_00_00_00_00_00_00)
            && (flip_expr(0b00_00_00_00_00_00_00_00_00_00_00_00_00_00_00_00_00_00_00_00_00_01_00_00_01) == 0b00_01_00_00_01_00_00_00_00_00_00_00_00_00_00_00_00_00_00_00_00_00_00_00_00)
            && (0b00_00_00_00_00_00_00_00_00_00_00_00_00_00_00_00_00_00_00_00_00_00_01_01_00u64 & 0xaaaa_aaaa_aaaa_aaaau64 == 0)
            && (0b00_00_00_00_00_00_00_00_00_00_00_00_00_00_00_00_00_00_00_00_00_01_00_00_01u64 & 0xaaaa_aaaa_aaaa_aaaau64 == 0)
            && (flip_expr(0b00_00_00_00_00_00_00_00_00_00_00_00_00_00_00_00_00_00_00_00_00_01_01_00_00) == 0b00_01_01_00_00_00_00_00_00_00_00_00_00_00_00_00_00_00_00_00_00_00_00_00_00)
            && (flip_expr(0b00_00_00_00_00_00_00_00_00_00_00_00_00_00_00_00_00_00_00_00_01_00_00_01_00) == 0b01_00_00_01_00_00_00_00_00_00_00_00_00_00_00_00_00_00_00_00_00_00_00_00_00)
            && (0b00_00_00_00_00_00_00_00_00_00_00_00_00_00_00_00_00_00_00_00_00_01_01_00_00u64 & 0xaaaa_aaaa_aaaa_aaaau64 == 0)
            && (0b00_00_00_00_00_00_00_00_00_00_00_00_00_00_00_00_00_00_00_00_01_00_00_01_00u64 & 0xaaaa_aaaa_aaaa_aaaau64 == 0)
            && (flip_expr(0b00_00_00_00_00_00_00_00_00_00_00_00_00_00_00_00_00_01_01_00_00_00_00_00_00) == 0b00_00_00_00_00_00_00_01_01_00_00_00_00_00_00_00_00_00_00_00_00_00_00_00_00)
            && (flip_expr(0b00_00_00_00_00_00_00_00_00_00_00_00_00_00_00_00_01_00_00_01_00_00_00_00_00) == 0b00_00_00_00_00_00_01_00_00_01_00_00_00_00_00_00_00_00_00_00_00_00_00_00_00)
            && (0b00_00_00_00_00_00_00_00_00_00_00_00_00_00_00_00_00_01_01_00_00_00_00_00_00u64 & 0xaaaa_aaaa_aaaa_aaaau64 == 0)
            && (0b00_00_00_00_00_00_00_00_00_00_00_00_00_00_00_00_01_00_00_01_00_00_00_00_00u64 & 0xaaaa_aaaa_aaaa_aaaau64 == 0)
            && (flip_expr(0b00_00_00_00_00_00_00_00_00_00_00_00_00_00_00_00_01_01_00_00_00_00_00_00_00) == 0b00_00_00_00_00_00_01_01_00_00_00_00_00_00_00_00_00_00_00_00_00_00_00_00_00)
            && (flip_expr(0b00_00_00_00_00_00_00_00_00_00_00_00_00_00_00_01_00_00_01_00_00_00_00_00_00) == 0b00_00_00_00_00_01_00_00_01_00_00_00_00_00_00_00_00_00_00_00_00_00_00_00_00)
            && (0b00_00_00_00_00_00_00_00_00_00_00_00_00_00_00_00_01_01_00_00_00_00_00_00_00u64 & 0xaaaa_aaaa_aaaa_aaaau64 == 0)
            && (0b00_00_00_00_00_00_00_00_00_00_00_00_00_00_00_01_00_00_01_00_00_00_00_00_00u64 & 0xaaaa_aaaa_aaaa_aaaau64 == 0)
            && (flip_expr(0b00_00_00_00_00_00_00_00_00_00_00_00_01_01_00_00_00_00_00_00_00_00_00_00_00) == 0b00_00_00_00_00_00_00_00_00_00_00_00_01_01_00_00_00_00_00_00_00_00_00_00_00)
            && (flip_expr(0b00_00_00_00_00_00_00_00_00_00_00_01_00_00_01_00_00_00_00_00_00_00_00_00_00) == 0b00_00_00_00_00_00_00_00_00_00_00_01_00_00_01_00_00_00_00_00_00_00_00_00_00)
            && (0b00_00_00_00_00_00_00_00_00_00_00_00_01_01_00_00_00_00_00_00_00_00_00_00_00u64 & 0xaaaa_aaaa_aaaa_aaaau64 == 0)
            && (0b00_00_00_00_00_00_00_00_00_00_00_01_00_00_01_00_00_00_00_00_00_00_00_00_00u64 & 0xaaaa_aaaa_aaaa_aaaau64 == 0)
            && (flip_expr(0b00_00_00_00_00_00_00_00_00_00_00_01_01_00_00_00_00_00_00_00_00_00_00_00_00) == 0b00_00_00_00_00_00_00_00_00_00_00_01_01_00_00_00_00_00_00_00_00_00_00_00_00)
            && (flip_expr(0b00_00_00_00_00_00_00_00_00_00_01_00_00_01_00_00_00_00_00_00_00_00_00_00_00) == 0b00_00_00_00_00_00_00_00_00_00_01_00_00_01_00_00_00_00_00_00_00_00_00_00_00)
            && (0b00_00_00_00_00_00_00_00_00_00_00_01_01_00_00_00_00_00_00_00_00_00_00_00_00u64 & 0xaaaa_aaaa_aaaa_aaaau64 == 0)
            && (0b00_00_00_00_00_00_00_00_00_00_01_00_00_01_00_00_00_00_00_00_00_00_00_00_00u64 & 0xaaaa_aaaa_aaaa_aaaau64 == 0)
            && (flip_expr(0b00_00_00_00_00_00_00_01_01_00_00_00_00_00_00_00_00_00_00_00_00_00_00_00_00) == 0b00_00_00_00_00_00_00_00_00_00_00_00_00_00_00_00_00_01_01_00_00_00_00_00_00)
            && (flip_expr(0b00_00_00_00_00_00_01_00_00_01_00_00_00_00_00_00_00_00_00_00_00_00_00_00_00) == 0b00_00_00_00_00_00_00_00_00_00_00_00_00_00_00_00_01_00_00_01_00_00_00_00_00)
            && (0b00_00_00_00_00_00_00_01_01_00_00_00_00_00_00_00_00_00_00_00_00_00_00_00_00u64 & 0xaaaa_aaaa_aaaa_aaaau64 == 0)
            && (0b00_00_00_00_00_00_01_00_00_01_00_00_00_00_00_00_00_00_00_00_00_00_00_00_00u64 & 0xaaaa_aaaa_aaaa_aaaau64 == 0)
            && (flip_expr(0b00_00_00_00_00_00_01_01_00_00_00_00_00_00_00_00_00_00_00_00_00_00_00_00_00) == 0b00_00_00_00_00_00_00_00_00_00_00_00_00_00_00_00_01_01_00_00_00_00_00_00_00)
            && (flip_expr(0b00_00_00_00_00_01_00_00_01_00_00_00_00_00_00_00_00_00_00_00_00_00_00_00_00) == 0b00_00_00_00_00_00_00_00_00_00_00_00_00_00_00_01_00_00_01_00_00_00_00_00_00)
            && (0b00_00_00_00_00_00_01_01_00_00_00_00_00_00_00_00_00_00_00_00_00_00_00_00_00u64 & 0xaaaa_aaaa_aaaa_aaaau64 == 0)
            && (0b00_00_00_00_00_01_00_00_01_00_00_00_00_00_00_00_00_00_00_00_00_00_00_00_00u64 & 0xaaaa_aaaa_aaaa_aaaau64 == 0)
            && (flip_expr(0b00_00_01_01_00_00_00_00_00_00_00_00_00_00_00_00_00_00_00_00_00_00_00_00_00) == 0b00_00_00_00_00_00_00_00_00_00_00_00_00_00_00_00_00_00_00_00_00_00_01_01_00)
            && (flip_expr(0b00_01_00_00_01_00_00_00_00_00_00_00_00_00_00_00_00_00_00_00_00_00_00_00_00) == 0b00_00_00_00_00_00_00_00_00_00_00_00_00_00_00_00_00_00_00_00_00_01_00_00_01)
            && (0b00_00_01_01_00_00_00_00_00_00_00_00_00_00_00_00_00_00_00_00_00_00_00_00_00u64 & 0xaaaa_aaaa_aaaa_aaaau64 == 0)
            && (0b00_01_00_00_01_00_00_00_00_00_00_00_00_00_00_00_00_00_00_00_00_00_00_00_00u64 & 0xaaaa_aaaa_aaaa_aaaau64 == 0)
            && (flip_expr(0b00_01_01_00_00_00_00_00_00_00_00_00_00_00_00_00_00_00_00_00_00_00_00_00_00) == 0b00_00_00_00_00_00_00_00_00_00_00_00_00_00_00_00_00_00_00_00_00_01_01_00_00)
            && (flip_expr(0b01_00_00_01_00_00_00_00_00_00_00_00_00_00_00_00_00_00_00_00_00_00_00_00_00) == 0b00_00_00_00_00_00_00_00_00_00_00_00_00_00_00_00_00_00_00_00_01_00_00_01_00)
            && (0b00_01_01_00_00_00_00_00_00_00_00_00_00_00_00_00_00_00_00_00_00_00_00_00_00u64 & 0xaaaa_aaaa_aaaa_aaaau64 == 0)
            && (0b01_00_00_01_00_00_00_00_00_00_00_00_00_00_00_00_00_00_00_00_00_00_00_00_00u64 & 0xaaaa_aaaa_aaaa_aaaau64 == 0)
            && (flip_expr(0b00_00_00_00_00_00_00_00_00_00_00_00_00_00_01_00_00_00_00_01_00_00_00_00_00) == 0b00_00_00_00_00_00_00_00_00_01_00_00_00_00_01_00_00_00_00_00_00_00_00_00_00)
            && (flip_expr(0b00_00_00_00_00_00_00_00_00_01_00_00_00_00_00_00_00_00_00_00_00_00_00_00_01) == 0b00_00_00_00_01_00_00_00_00_00_00_00_00_00_00_00_00_00_00_01_00_00_00_00_00)
            && (0b00_00_00_00_00_00_00_00_00_00_00_00_00_00_01_00_00_00_00_01_00_00_00_00_00u64 & 0xaaaa_aaaa_aaaa_aaaau64 == 0)
            && (0b00_00_00_00_00_00_00_00_00_01_00_00_00_00_00_00_00_00_00_00_00_00_00_00_01u64 & 0xaaaa_aaaa_aaaa_aaaau64 == 0)
            && (flip_expr(0b00_00_00_00_00_00_00_00_00_01_00_00_00_00_01_00_00_00_00_00_00_00_00_00_00) == 0b00_00_00_00_00_00_00_00_00_00_00_00_00_00_01_00_00_00_00_01_00_00_00_00_00)
            && (flip_expr(0b00_00_00_00_01_00_00_00_00_00_00_00_00_00_00_00_00_00_00_01_00_00_00_00_00) == 0b00_00_00_00_00_00_00_00_00_01_00_00_00_00_00_00_00_00_00_00_00_00_00_00_01)
            && (0b00_00_00_00_00_00_00_00_00_01_00_00_00_00_01_00_00_00_00_00_00_00_00_00_00u64 & 0xaaaa_aaaa_aaaa_aaaau64 == 0)
            && (0b00_00_00_00_01_00_00_00_00_00_00_00_00_00_00_00_00_00_00_01_00_00_00_00_00u64 & 0xaaaa_aaaa_aaaa_aaaau64 == 0)
            && (flip_expr(0b00_00_00_00_00_00_00_00_00_00_00_00_00_01_00_00_00_00_01_00_00_00_00_00_00) == 0b00_00_00_00_00_00_00_00_01_00_00_00_00_01_00_00_00_00_00_00_00_00_00_00_00)
            && (flip_expr(0b00_00_00_00_00_00_00_00_01_00_00_00_00_00_00_00_00_00_00_00_00_00_00_01_00) == 0b00_00_00_01_00_00_00_00_00_00_00_00_00_00_00_00_00_00_01_00_00_00_00_00_00)
            && (0b00_00_00_00_00_00_00_00_00_00_00_00_00_01_00_00_00_00_01_00_00_00_00_00_00u64 & 0xaaaa_aaaa_aaaa_aaaau64 == 0)
            && (0b00_00_00_00_00_00_00_00_01_00_00_00_00_00_00_00_00_00_00_00_00_00_00_01_00u64 & 0xaaaa_aaaa_aaaa_aaaau64 == 0)
            && (flip_expr(0b00_00_00_00_00_00_00_00_01_00_00_00_00_01_00_00_00_00_00_00_00_00_00_00_00) == 0b00_00_00_00_00_00_00_00_00_00_00_00_00_01_00_00_00_00_01_00_00_00_00_00_00)
            && (flip_expr(0b00_00_00_01_00_00_00_00_00_00_00_00_00_00_00_00_00_00_01_00_00_00_00_00_00) == 0b00_00_00_00_00_00_00_00_01_00_00_00_00_00_00_00_00_00_00_00_00_00_00_01_00)
            && (0b00_00_00_00_00_00_00_00_01_00_00_00_00_01_00_00_00_00_00_00_00_00_00_00_00u64 & 0xaaaa_aaaa_aaaa_aaaau64 == 0)
            && (0b00_00_00_01_00_00_00_00_00_00_00_00_00_00_00_00_00_00_01_00_00_00_00_00_00u64 & 0xaaaa_aaaa_aaaa_aaaau64 == 0)
            && (flip_expr(0b00_00_00_00_00_00_00_00_00_00_00_00_01_00_00_00_00_01_00_00_00_00_00_00_00) == 0b00_00_00_00_00_00_00_01_00_00_00_00_01_00_00_00_00_00_00_00_00_00_00_00_00)
            && (flip_expr(0b00_00_00_00_00_00_00_01_00_00_00_00_00_00_00_00_00_00_00_00_00_00_01_00_00) == 0b00_00_01_00_00_00_00_00_00_00_00_00_00_00_00_00_00_01_00_00_00_00_00_00_00)
            && (0b00_00_00_00_00_00_00_00_00_00_00_00_01_00_00_00_00_01_00_00_00_00_00_00_00u64 & 0xaaaa_aaaa_aaaa_aaaau64 == 0)
            && (0b00_00_00_00_00_00_00_01_00_00_00_00_00_00_00_00_00_00_00_00_00_00_01_00_00u64 & 0xaaaa_aaaa_aaaa_aaaau64 == 0)
            && (flip_expr(0b00_00_00_00_00_00_00_01_00_00_00_00_01_00_00_00_00_00_00_00_00_00_00_00_00) == 0b00_00_00_00_00_00_00_00_00_00_00_00_01_00_00_00_00_01_00_00_00_00_00_00_00)
            && (flip_expr(0b00_00_01_00_00_00_00_00_00_00_00_00_00_00_00_00_00_01_00_00_00_00_00_00_00) == 0b00_00_00_00_00_00_00_01_00_00_00_00_00_00_00_00_00_00_00_00_00_00_01_00_00)
            && (0b00_00_00_00_00_00_00_01_00_00_00_00_01_00_00_00_00_00_00_00_00_00_00_00_00u64 & 0xaaaa_aaaa_aaaa_aaaau64 == 0)
            && (0b00_00_01_00_00_00_00_00_00_00_00_00_00_00_00_00_00_01_00_00_00_00_00_00_00u64 & 0xaaaa_aaaa_aaaa_aaaau64 == 0)
            && (flip_expr(0b00_00_00_00_00_00_00_00_00_00_00_01_00_00_00_00_01_00_00_00_00_00_00_00_00) == 0b00_00_00_00_00_00_01_00_00_00_00_01_00_00_00_00_00_00_00_00_00_00_00_00_00)
            && (flip_expr(0b00_00_00_00_00_00_01_00_00_00_00_00_00_00_00_00_00_00_00_00_00_01_00_00_00) == 0b00_01_00_00_00_00_00_00_00_00_00_00_00_00_00_00_01_00_00_00_00_00_00_00_00)
            && (0b00_00_00_00_00_00_00_00_00_00_00_01_00_00_00_00_01_00_00_00_00_00_00_00_00u64 & 0xaaaa_aaaa_aaaa_aaaau64 == 0)
            && (0b00_00_00_00_00_00_01_00_00_00_00_00_00_00_00_00_00_00_00_00_00_01_00_00_00u64 & 0xaaaa_aaaa_aaaa_aaaau64 == 0)
            && (flip_expr(0b00_00_00_00_00_00_01_00_00_00_00_01_00_00_00_00_00_00_00_00_00_00_00_00_00) == 0b00_00_00_00_00_00_00_00_00_00_00_01_00_00_00_00_01_00_00_00_00_00_00_00_00)
            && (flip_expr(0b00_01_00_00_00_00_00_00_00_00_00_00_00_00_00_00_01_00_00_00_00_00_00_00_00) == 0b00_00_00_00_00_00_01_00_00_00_00_00_00_00_00_00_00_00_00_00_00_01_00_00_00)
            && (0b00_00_00_00_00_00_01_00_00_00_00_01_00_00_00_00_00_00_00_00_00_00_00_00_00u64 & 0xaaaa_aaaa_aaaa_aaaau64 == 0)
            && (0b00_01_00_00_00_00_00_00_00_00_00_00_00_00_00_00_01_00_00_00_00_00_00_00_00u64 & 0xaaaa_aaaa_aaaa_aaaau64 == 0)
            && (flip_expr(0b00_00_00_00_00_00_00_00_00_00_01_00_00_00_00_01_00_00_00_00_00_00_00_00_00) == 0b00_00_00_00_00_01_00_00_00_00_01_00_00_00_00_00_00_00_00_00_00_00_00_00_00)
            && (flip_expr(0b00_00_00_00_00_01_00_00_00_00_00_00_00_00_00_00_00_00_00_00_01_00_00_00_00) == 0b01_00_00_00_00_00_00_00_00_00_00_00_00_00_00_01_00_00_00_00_00_00_00_00_00)
            && (0b00_00_00_00_00_00_00_00_00_00_01_00_00_00_00_01_00_00_00_00_00_00_00_00_00u64 & 0xaaaa_aaaa_aaaa_aaaau64 == 0)
            && (0b00_00_00_00_00_01_00_00_00_00_00_00_00_00_00_00_00_00_00_00_01_00_00_00_00u64 & 0xaaaa_aaaa_aaaa_aaaau64 == 0)
            && (flip_expr(0b00_00_00_00_00_01_00_00_00_00_01_00_00_00_00_00_00_00_00_00_00_00_00_00_00) == 0b00_00_00_00_00_00_00_00_00_00_01_00_00_00_00_01_00_00_00_00_00_00_00_00_00)
            && (flip_expr(0b01_00_00_00_00_00_00_00_00_00_00_00_00_00_00_01_00_00_00_00_00_00_00_00_00) == 0b00_00_00_00_00_01_00_00_00_00_00_00_00_00_00_00_00_00_00_00_01_00_00_00_00)
            && (0b00_00_00_00_00_01_00_00_00_00_01_00_00_00_00_00_00_00_00_00_00_00_00_00_00u64 & 0xaaaa_aaaa_aaaa_aaaau64 == 0)
            && (0b01_00_00_00_00_00_00_00_00_00_00_00_00_00_00_01_00_00_00_00_00_00_00_00_00u64 & 0xaaaa_aaaa_aaaa_aaaau64 == 0)
            && (flip_expr(0b00_00_00_00_00_00_00_00_00_00_00_00_01_00_00_00_00_00_01_00_00_00_00_00_00) == 0b00_00_00_00_00_00_00_00_01_00_00_00_01_00_00_00_00_00_00_00_00_00_00_00_00)
            && (flip_expr(0b00_00_00_00_00_00_01_00_00_00_00_00_00_00_00_00_00_00_00_00_00_00_00_00_01) == 0b00_00_00_00_01_00_00_00_00_00_00_00_00_00_00_00_01_00_00_00_00_00_00_00_00)
            && (0b00_00_00_00_00_00_00_00_00_00_00_00_01_00_00_00_00_00_01_00_00_00_00_00_00u64 & 0xaaaa_aaaa_aaaa_aaaau64 == 0)
            && (0b00_00_00_00_00_00_01_00_00_00_00_00_00_00_00_00_00_00_00_00_00_00_00_00_01u64 & 0xaaaa_aaaa_aaaa_aaaau64 == 0)
            && (flip_expr(0b00_00_00_00_00_00_01_00_00_00_00_00_01_00_00_00_00_00_00_00_00_00_00_00_00) == 0b00_00_00_00_00_00_00_00_00_00_00_00_01_00_00_00_01_00_00_00_00_00_00_00_00)
            && (flip_expr(0b01_00_00_00_00_00_00_00_00_00_00_00_00_00_00_00_00_00_01_00_00_00_00_00_00) == 0b00_00_00_00_00_00_00_00_01_00_00_00_00_00_00_00_00_00_00_00_01_00_00_00_00)
            && (0b00_00_00_00_00_00_01_00_00_00_00_00_01_00_00_00_00_00_00_00_00_00_00_00_00u64 & 0xaaaa_aaaa_aaaa_aaaau64 == 0)
            && (0b01_00_00_00_00_00_00_00_00_00_00_00_00_00_00_00_00_00_01_00_00_00_00_00_00u64 & 0xaaaa_aaaa_aaaa_aaaau64 == 0)
            && (flip_expr(0b00_00_00_00_00_00_00_00_00_00_00_00_01_00_00_00_01_00_00_00_00_00_00_00_00) == 0b00_00_00_00_00_00_01_00_00_00_00_00_01_00_00_00_00_00_00_00_00_00_00_00_00)
            && (flip_expr(0b00_00_00_00_00_00_00_00_01_00_00_00_00_00_00_00_00_00_00_00_01_00_00_00_00) == 0b01_00_00_00_00_00_00_00_00_00_00_00_00_00_00_00_00_00_01_00_00_00_00_00_00)
            && (0b00_00_00_00_00_00_00_00_00_00_00_00_01_00_00_00_01_00_00_00_00_00_00_00_00u64 & 0xaaaa_aaaa_aaaa_aaaau64 == 0)
            && (0b00_00_00_00_00_00_00_00_01_00_00_00_00_00_00_00_00_00_00_00_01_00_00_00_00u64 & 0xaaaa_aaaa_aaaa_aaaau64 == 0)
            && (flip_expr(0b00_00_00_00_00_00_00_00_01_00_00_00_01_00_00_00_00_00_00_00_00_00_00_00_00) == 0b00_00_00_00_00_00_00_00_00_00_00_00_01_00_00_00_00_00_01_00_00_00_00_00_00)
            && (flip_expr(0b00_00_00_00_01_00_00_00_00_00_00_00_00_00_00_00_01_00_00_00_00_00_00_00_00) == 0b00_00_00_00_00_00_01_00_00_00_00_00_00_00_00_00_00_00_00_00_00_00_00_00_01)
            && (0b00_00_00_00_00_00_00_00_01_00_00_00_01_00_00_00_00_00_00_00_00_00_00_00_00u64 & 0xaaaa_aaaa_aaaa_aaaau64 == 0)
            && (0b00_00_00_00_01_00_00_00_00_00_00_00_00_00_00_00_01_00_00_00_00_00_00_00_00u64 & 0xaaaa_aaaa_aaaa_aaaau64 == 0),
{
    assert((flip_expr(0b00_00_00_00_00_00_00_00_00_00_00_00_00_00_00_00_00_00_00_00_00_00_01_01_00) == 0b00_00_01_01_00_00_00_00_00_00_00_00_00_00_00_00_00_00_00_00_00_00_00_00_00)
        && (flip_expr(0b00_00_00_00_00_00_00_00_00_00_00_00_00_00_00_00_00_00_00_00_00_01_00_00_01) == 0b00_01_00_00_01_00_00_00_00_00_00_00_00_00_00_00_00_00_00_00_00_00_00_00_00)
        && (0b00_00_00_00_00_00_00_00_00_00_00_00_00_00_00_00_00_00_00_00_00_00_01_01_00u64 & 0xaaaa_aaaa_aaaa_aaaau64 == 0)
        && (0b00_00_00_00_00_00_00_00_00_00_00_00_00_00_00_00_00_00_00_00_00_01_00_00_01u64 & 0xaaaa_aaaa_aaaa_aaaau64 == 0)
        && (flip_expr(0b00_00_00_00_00_00_00_00_00_00_00_00_00_00_00_00_00_00_00_00_00_01_01_00_00) == 0b00_01_01_00_00_00_00_00_00_00_00_00_00_00_00_00_00_00_00_00_00_00_00_00_00)
        && (flip_expr(0b00_00_00_00_00_00_00_00_00_00_00_00_00_00_00_00_00_00_00_00_01_00_00_01_00) == 0b01_00_00_01_00_00_00_00_00_00_00_00_00_00_00_00_00_00_00_00_00_00_00_00_00)
        && (0b00_00_00_00_00_00_00_00_00_00_00_00_00_00_00_00_00_00_00_00_00_01_01_00_00u64 & 0xaaaa_aaaa_aaaa_aaaau64 == 0)
        && (0b00_00_00_00_00_00_00_00_00_00_00_00_00_00_00_00_00_00_00_00_01_00_00_01_00u64 & 0xaaaa_aaaa_aaaa_aaaau64 == 0)
        && (flip_expr(0b00_00_00_00_00_00_00_00_00_00_00_00_00_00_00_00_00_01_01_00_00_00_00_00_00) == 0b00_00_00_00_00_00_00_01_01_00_00_00_00_00_00_00_00_00_00_00_00_00_00_00_00)
        && (flip_expr(0b00_00_00_00_00_00_00_00_00_00_00_00_00_00_00_00_01_00_00_01_00_00_00_00_00) == 0b00_00_00_00_00_00_01_00_00_01_00_00_00_00_00_00_00_00_00_00_00_00_00_00_00)
        && (0b00_00_00_00_00_00_00_00_00_00_00_00_00_00_00_00_00_01_01_00_00_00_00_00_00u64 & 0xaaaa_aaaa_aaaa_aaaau64 == 0)
        && (0b00_00_00_00_00_00_00_00_00_00_00_00_00_00_00_00_01_00_00_01_00_00_00_00_00u64 & 0xaaaa_aaaa_aaaa_aaaau64 == 0)
        && (flip_expr(0b00_00_00_00_00_00_00_00_00_00_00_00_00_00_00_00_01_01_00_00_00_00_00_00_00) == 0b00_00_00_00_00_00_01_01_00_00_00_00_00_00_00_00_00_00_00_00_00_00_00_00_00)
        && (flip_expr(0b00_00_00_00_00_00_00_00_00_00_00_00_00_00_00_01_00_00_01_00_00_00_00_00_00) == 0b00_00_00_00_00_01_00_00_01_00_00_00_00_00_00_00_00_00_00_00_00_00_00_00_00)
        && (0b00_00_00_00_00_00_00_00_00_00_00_00_00_00_00_00_01_01_00_00_00_00_00_00_00u64 & 0xaaaa_aaaa_aaaa_aaaau64 == 0)
        && (0b00_00_00_00_00_00_00_00_00_00_00_00_00_00_00_01_00_00_01_00_00_00_00_00_00u64 & 0xaaaa_aaaa_aaaa_aaaau64 == 0)
        && (flip_expr(0b00_00_00_00_00_00_00_00_00_00_00_00_01_01_00_00_00_00_00_00_00_00_00_00_00) == 0b00_00_00_00_00_00_00_00_00_00_00_00_01_01_00_00_00_00_00_00_00_00_00_00_00)
        && (flip_expr(0b00_00_00_00_00_00_00_00_00_00_00_01_00_00_01_00_00_00_00_00_00_00_00_00_00) == 0b00_00_00_00_00_00_00_00_00_00_00_01_00_00_01_00_00_00_00_00_00_00_00_00_00)
        && (0b00_00_00_00_00_00_00_00_00_00_00_00_01_01_00_00_00_00_00_00_00_00_00_00_00u64 & 0xaaaa_aaaa_aaaa_aaaau64 == 0)
        && (0b00_00_00_00_00_00_00_00_00_00_00_01_00_00_01_00_00_00_00_00_00_00_00_00_00u64 & 0xaaaa_aaaa_aaaa_aaaau64 == 0)
        && (flip_expr(0b00_00_00_00_00_00_00_00_00_00_00_01_01_00_00_00_00_00_00_00_00_00_00_00_00) == 0b00_00_00_00_00_00_00_00_00_00_00_01_01_00_00_00_00_00_00_00_00_00_00_00_00)
        && (flip_expr(0b00_00_00_00_00_00_00_00_00_00_01_00_00_01_00_00_00_00_00_00_00_00_00_00_00) == 0b00_00_00_00_00_00_00_00_00_00_01_00_00_01_00_00_00_00_00_00_00_00_00_00_00)
        && (0b00_00_00_00_00_00_00_00_00_00_00_01_01_00_00_00_00_00_00_00_00_00_00_00_00u64 & 0xaaaa_aaaa_aaaa_aaaau64 == 0)
        && (0b00_00_00_00_00_00_00_00_00_00_01_00_00_01_00_00_00_00_00_00_00_00_00_00_00u64 & 0xaaaa_aaaa_aaaa_aaaau64 == 0)
        && (flip_expr(0b00_00_00_00_00_00_00_01_01_00_00_00_00_00_00_00_00_00_00_00_00_00_00_00_00) == 0b00_00_00_00_00_00_00_00_00_00_00_00_00_00_00_00_00_01_01_00_00_00_00_00_00)
        && (flip_expr(0b00_00_00_00_00_00_01_00_00_01_00_00_00_00_00_00_00_00_00_00_00_00_00_00_00) == 0b00_00_00_00_00_00_00_00_00_00_00_00_00_00_00_00_01_00_00_01_00_00_00_00_00)
        && (0b00_00_00_00_00_00_00_01_01_00_00_00_00_00_00_00_00_00_00_00_00_00_00_00_00u64 & 0xaaaa_aaaa_aaaa_aaaau64 == 0)
        && (0b00_00_00_00_00_00_01_00_00_01_00_00_00_00_00_00_00_00_00_00_00_00_00_00_00u64 & 0xaaaa_aaaa_aaaa_aaaau64 == 0)
        && (flip_expr(0b00_00_00_00_00_00_01_01_00_00_00_00_00_00_00_00_00_00_00_00_00_00_00_00_00) == 0b00_00_00_00_00_00_00_00_00_00_00_00_00_00_00_00_01_01_00_00_00_00_00_00_00)
        && (flip_expr(0b00_00_00_00_00_01_00_00_01_00_00_00_00_00_00_00_00_00_00_00_00_00_00_00_00) == 0b00_00_00_00_00_00_00_00_00_00_00_00_00_00_00_01_00_00_01_00_00_00_00_00_00)
        && (0b00_00_00_00_00_00_01_01_00_00_00_00_00_00_00_00_00_00_00_00_00_00_00_00_00u64 & 0xaaaa_aaaa_aaaa_aaaau64 == 0)
        && (0b00_00_00_00_00_01_00_00_01_00_00_00_00_00_00_00_00_00_00_00_00_00_00_00_00u64 & 0xaaaa_aaaa_aaaa_aaaau64 == 0)
        && (flip_expr(0b00_00_01_01_00_00_00_00_00_00_00_00_00_00_00_00_00_00_00_00_00_00_00_00_00) == 0b00_00_00_00_00_00_00_00_00_00_00_00_00_00_00_00_00_00_00_00_00_00_01_01_00)
        && (flip_expr(0b00_01_00_00_01_00_00_00_00_00_00_00_00_00_00_00_00_00_00_00_00_00_00_00_00) == 0b00_00_00_00_00_00_00_00_00_00_00_00_00_00_00_00_00_00_00_00_00_01_00_00_01)
        && (0b00_00_01_01_00_00_00_00_00_00_00_00_00_00_00_00_00_00_00_00_00_00_00_00_00u64 & 0xaaaa_aaaa_aaaa_aaaau64 == 0)
        && (0b00_01_00_00_01_00_00_00_00_00_00_00_00_00_00_00_00_00_00_00_00_00_00_00_00u64 & 0xaaaa_aaaa_aaaa_aaaau64 == 0)
        && (flip_expr(0b00_01_01_00_00_00_00_00_00_00_00_00_00_00_00_00_00_00_00_00_00_00_00_00_00) == 0b00_00_00_00_00_00_00_00_00_00_00_00_00_00_00_00_00_00_00_00_00_01_01_00_00)
        && (flip_expr(0b01_00_00_01_00_00_00_00_00_00_00_00_00_00_00_00_00_00_00_00_00_00_00_00_00) == 0b00_00_00_00_00_00_00_00_00_00_00_00_00_00_00_00_00_00_00_00_01_00_00_01_00)
        && (0b00_01_01_00_00_00_00_00_00_00_00_00_00_00_00_00_00_00_00_00_00_00_00_00_00u64 & 0xaaaa_aaaa_aaaa_aaaau64 == 0)
        && (0b01_00_00_01_00_00_00_00_00_00_00_00_00_00_00_00_00_00_00_00_00_00_00_00_00u64 & 0xaaaa_aaaa_aaaa_aaaau64 == 0)
        && (flip_expr(0b00_00_00_00_00_00_00_00_00_00_00_00_00_00_01_00_00_00_00_01_00_00_00_00_00) == 0b00_00_00_00_00_00_00_00_00_01_00_00_00_00_01_00_00_00_00_00_00_00_00_00_00)
        && (flip_expr(0b00_00_00_00_00_00_00_00_00_01_00_00_00_00_00_00_00_00_00_00_00_00_00_00_01) == 0b00_00_00_00_01_00_00_00_00_00_00_00_00_00_00_00_00_00_00_01_00_00_00_00_00)
        && (0b00_00_00_00_00_00_00_00_00_00_00_00_00_00_01_00_00_00_00_01_00_00_00_00_00u64 & 0xaaaa_aaaa_aaaa_aaaau64 == 0)
        && (0b00_00_00_00_00_00_00_00_00_01_00_00_00_00_00_00_00_00_00_00_00_00_00_00_01u64 & 0xaaaa_aaaa_aaaa_aaaau64 == 0)
        && (flip_expr(0b00_00_00_00_00_00_00_00_00_01_00_00_00_00_01_00_00_00_00_00_00_00_00_00_00) == 0b00_00_00_00_00_00_00_00_00_00_00_00_00_00_01_00_00_00_00_01_00_00_00_00_00)
        && (flip_expr(0b00_00_00_00_01_00_00_00_00_00_00_00_00_00_00_00_00_00_00_01_00_00_00_00_00) == 0b00_00_00_00_00_00_00_00_00_01_00_00_00_00_00_00_00_00_00_00_00_00_00_00_01)
        && (0b00_00_00_00_00_00_00_00_00_01_00_00_00_00_01_00_00_00_00_00_00_00_00_00_00u64 & 0xaaaa_aaaa_aaaa_aaaau64 == 0)
        && (0b00_00_00_00_01_00_00_00_00_00_00_00_00_00_00_00_00_00_00_01_00_00_00_00_00u64 & 0xaaaa_aaaa_aaaa_aaaau64 == 0)
        && (flip_expr(0b00_00_00_00_00_00_00_00_00_00_00_00_00_01_00_00_00_00_01_00_00_00_00_00_00) == 0b00_00_00_00_00_00_00_00_01_00_00_00_00_01_00_00_00_00_00_00_00_00_00_00_00)
        && (flip_expr(0b00_00_00_00_00_00_00_00_01_00_00_00_00_00_00_00_00_00_00_00_00_00_00_01_00) == 0b00_00_00_01_00_00_00_00_00_00_00_00_00_00_00_00_00_00_01_00_00_00_00_00_00)
        && (0b00_00_00_00_00_00_00_00_00_00_00_00_00_01_00_00_00_00_01_00_00_00_00_00_00u64 & 0xaaaa_aaaa_aaaa_aaaau64 == 0)
        && (0b00_00_00_00_00_00_00_00_01_00_00_00_00_00_00_00_00_00_00_00_00_00_00_01_00u64 & 0xaaaa_aaaa_aaaa_aaaau64 == 0)
        && (flip_expr(0b00_00_00_00_00_00_00_00_01_00_00_00_00_01_00_00_00_00_00_00_00_00_00_00_00) == 0b00_00_00_00_00_00_00_00_00_00_00_00_00_01_00_00_00_00_01_00_00_00_00_00_00)
        && (flip_expr(0b00_00_00_01_00_00_00_00_00_00_00_00_00_00_00_00_00_00_01_00_00_00_00_00_00) == 0b00_00_00_00_00_00_00_00_01_00_00_00_00_00_00_00_00_00_00_00_00_00_00_01_00)
        && (0b00_00_00_00_00_00_00_00_01_00_00_00_00_01_00_00_00_00_00_00_00_00_00_00_00u64 & 0xaaaa_aaaa_aaaa_aaaau64 == 0)
        && (0b00_00_00_01_00_00_00_00_00_00_00_00_00_00_00_00_00_00_01_00_00_00_00_00_00u64 & 0xaaaa_aaaa_aaaa_aaaau64 == 0)
        && (flip_expr(0b00_00_00_00_00_00_00_00_00_00_00_00_01_00_00_00_00_01_00_00_00_00_00_00_00) == 0b00_00_00_00_00_00_00_01_00_00_00_00_01_00_00_00_00_00_00_00_00_00_00_00_00)
        && (flip_expr(0b00_00_00_00_00_00_00_01_00_00_00_00_00_00_00_00_00_00_00_00_00_00_01_00_00) == 0b00_00_01_00_00_00_00_00_00_00_00_00_00_00_00_00_00_01_00_00_00_00_00_00_00)
        && (0b00_00_00_00_00_00_00_00_00_00_00_00_01_00_00_00_00_01_00_00_00_00_00_00_00u64 & 0xaaaa_aaaa_aaaa_aaaau64 == 0)
        && (0b00_00_00_00_00_00_00_01_00_00_00_00_00_00_00_00_00_00_00_00_00_00_01_00_00u64 & 0xaaaa_aaaa_aaaa_aaaau64 == 0)
        && (flip_expr(0b00_00_00_00_00_00_00_01_00_00_00_00_01_00_00_00_00_00_00_00_00_00_00_00_00) == 0b00_00_00_00_00_00_00_00_00_00_00_00_01_00_00_00_00_01_00_00_00_00_00_00_00)
        && (flip_expr(0b00_00_01_00_00_00_00_00_00_00_00_00_00_00_00_00_00_01_00_00_00_00_00_00_00) == 0b00_00_00_00_00_00_00_01_00_00_00_00_00_00_00_00_00_00_00_00_00_00_01_00_00)
        && (0b00_00_00_00_00_00_00_01_00_00_00_00_01_00_00_00_00_00_00_00_00_00_00_00_00u64 & 0xaaaa_aaaa_aaaa_aaaau64 == 0)
        && (0b00_00_01_00_00_00_00_00_00_00_00_00_00_00_00_00_00_01_00_00_00_00_00_00_00u64 & 0xaaaa_aaaa_aaaa_aaaau64 == 0)
        && (flip_expr(0b00_00_00_00_00_00_00_00_00_00_00_01_00_00_00_00_01_00_00_00_00_00_00_00_00) == 0b00_00_00_00_00_00_01_00_00_00_00_01_00_00_00_00_00_00_00_00_00_00_00_00_00)
        && (flip_expr(0b00_00_00_00_00_00_01_00_00_00_00_00_00_00_00_00_00_00_00_00_00_01_00_00_00) == 0b00_01_00_00_00_00_00_00_00_00_00_00_00_00_00_00_01_00_00_00_00_00_00_00_00)
        && (0b00_00_00_00_00_00_00_00_00_00_00_01_00_00_00_00_01_00_00_00_00_00_00_00_00u64 & 0xaaaa_aaaa_aaaa_aaaau64 == 0)
        && (0b00_00_00_00_00_00_01_00_00_00_00_00_00_00_00_00_00_00_00_00_00_01_00_00_00u64 & 0xaaaa_aaaa_aaaa_aaaau64 == 0)
        && (flip_expr(0b00_00_00_00_00_00_01_00_00_00_00_01_00_00_00_00_00_00_00_00_00_00_00_00_00) == 0b00_00_00_00_00_00_00_00_00_00_00_01_00_00_00_00_01_00_00_00_00_00_00_00_00)
        && (flip_expr(0b00_01_00_00_00_00_00_00_00_00_00_00_00_00_00_00_01_00_00_00_00_00_00_00_00) == 0b00_00_00_00_00_00_01_00_00_00_00_00_00_00_00_00_00_00_00_00_00_01_00_00_00)
        && (0b00_00_00_00_00_00_01_00_00_00_00_01_00_00_00_00_00_00_00_00_00_00_00_00_00u64 & 0xaaaa_aaaa_aaaa_aaaau64 == 0)
        && (0b00_01_00_00_00_00_00_00_00_00_00_00_00_00_00_00_01_00_00_00_00_00_00_00_00u64 & 0xaaaa_aaaa_aaaa_aaaau64 == 0)
        && (flip_expr(0b00_00_00_00_00_00_00_00_00_00_01_00_00_00_00_01_00_00_00_00_00_00_00_00_00) == 0b00_00_00_00_00_01_00_00_00_00_01_00_00_00_00_00_00_00_00_00_00_00_00_00_00)
        && (flip_expr(0b00_00_00_00_00_01_00_00_00_00_00_00_00_00_00_00_00_00_00_00_01_00_00_00_00) == 0b01_00_00_00_00_00_00_00_00_00_00_00_00_00_00_01_00_00_00_00_00_00_00_00_00)
        && (0b00_00_00_00_00_00_00_00_00_00_01_00_00_00_00_01_00_00_00_00_00_00_00_00_00u64 & 0xaaaa_aaaa_aaaa_aaaau64 == 0)
        && (0b00_00_00_00_00_01_00_00_00_00_00_00_00_00_00_00_00_00_00_00_01_00_00_00_00u64 & 0xaaaa_aaaa_aaaa_aaaau64 == 0)
        && (flip_expr(0b00_00_00_00_00_01_00_00_00_00_01_00_00_00_00_00_00_00_00_00_00_00_00_00_00) == 0b00_00_00_00_00_00_00_00_00_00_01_00_00_00_00_01_00_00_00_00_00_00_00_00_00)
        && (flip_expr(0b01_00_00_00_00_00_00_00_00_00_00_00_00_00_00_01_00_00_00_00_00_00_00_00_00) == 0b00_00_00_00_00_01_00_00_00_00_00_00_00_00_00_00_00_00_00_00_01_00_00_00_00)
        && (0b00_00_00_00_00_01_00_00_00_00_01_00_00_00_00_00_00_00_00_00_00_00_00_00_00u64 & 0xaaaa_aaaa_aaaa_aaaau64 == 0)
        && (0b01_00_00_00_00_00_00_00_00_00_00_00_00_00_00_01_00_00_00_00_00_00_00_00_00u64 & 0xaaaa_aaaa_aaaa_aaaau64 == 0)
        && (flip_expr(0b00_00_00_00_00_00_00_00_00_00_00_00_01_00_00_00_00_00_01_00_00_00_00_00_00) == 0b00_00_00_00_00_00_00_00_01_00_00_00_01_00_00_00_00_00_00_00_00_00_00_00_00)
        && (flip_expr(0b00_00_00_00_00_00_01_00_00_00_00_00_00_00_00_00_00_00_00_00_00_00_00_00_01) == 0b00_00_00_00_01_00_00_00_00_00_00_00_00_00_00_00_01_00_00_00_00_00_00_00_00)
        && (0b00_00_00_00_00_00_00_00_00_00_00_00_01_00_00_00_00_00_01_00_00_00_00_00_00u64 & 0xaaaa_aaaa_aaaa_aaaau64 == 0)
        && (0b00_00_00_00_00_00_01_00_00_00_00_00_00_00_00_00_00_00_00_00_00_00_00_00_01u64 & 0xaaaa_aaaa_aaaa_aaaau64 == 0)
        && (flip_expr(0b00_00_00_00_00_00_01_00_00_00_00_00_01_00_00_00_00_00_00_00_00_00_00_00_00) == 0b00_00_00_00_00_00_00_00_00_00_00_00_01_00_00_00_01_00_00_00_00_00_00_00_00)
        && (flip_expr(0b01_00_00_00_00_00_00_00_00_00_00_00_00_00_00_00_00_00_01_00_00_00_00_00_00) == 0b00_00_00_00_00_00_00_00_01_00_00_00_00_00_00_00_00_00_00_00_01_00_00_00_00)
        && (0b00_00_00_00_00_00_01_00_00_00_00_00_01_00_00_00_00_00_00_00_00_00_00_00_00u64 & 0xaaaa_aaaa_aaaa_aaaau64 == 0)
        && (0b01_00_00_00_00_00_00_00_00_00_00_00_00_00_00_00_00_00_01_00_00_00_00_00_00u64 & 0xaaaa_aaaa_aaaa_aaaau64 == 0)
        && (flip_expr(0b00_00_00_00_00_00_00_00_00_00_00_00_01_00_00_00_01_00_00_00_00_00_00_00_00) == 0b00_00_00_00_00_00_01_00_00_00_00_00_01_00_00_00_00_00_00_00_00_00_00_00_00)
        && (flip_expr(0b00_00_00_00_00_00_00_00_01_00_00_00_00_00_00_00_00_00_00_00_01_00_00_00_00) == 0b01_00_00_00_00_00_00_00_00_00_00_00_00_00_00_00_00_00_01_00_00_00_00_00_00)
        && (0b00_00_00_00_00_00_00_00_00_00_00_00_01_00_00_00_01_00_00_00_00_00_00_00_00u64 & 0xaaaa_aaaa_aaaa_aaaau64 == 0)
        && (0b00_00_00_00_00_00_00_00_01_00_00_00_00_00_00_00_00_00_00_00_01_00_00_00_00u64 & 0xaaaa_aaaa_aaaa_aaaau64 == 0)
        && (flip_expr(0b00_00_00_00_00_00_00_00_01_00_00_00_01_00_00_00_00_00_00_00_00_00_00_00_00) == 0b00_00_00_00_00_00_00_00_00_00_00_00_01_00_00_00_00_00_01_00_00_00_00_00_00)
        && (flip_expr(0b00_00_00_00_01_00_00_00_00_00_00_00_00_00_00_00_01_00_00_00_00_00_00_00_00) == 0b00_00_00_00_00_00_01_00_00_00_00_00_00_00_00_00_00_00_00_00_00_00_00_00_01)
        && (0b00_00_00_00_00_00_00_00_01_00_00_00_01_00_00_00_00_00_00_00_00_00_00_00_00u64 & 0xaaaa_aaaa_aaaa_aaaau64 == 0)
        && (0b00_00_00_00_01_00_00_00_00_00_00_00_00_00_00_00_01_00_00_00_00_00_00_00_00u64 & 0xaaaa_aaaa_aaaa_aaaau64 == 0)) by (bit_vector);
}

/// Where a quarter turn sends each line of [`LINE2`].
pub open spec fn turn_line2(i: int) -> int {
    seq![11, 10, 13, 12, 15, 14, 17, 16, 19, 18, 8, 9, 6, 7, 4, 5, 2, 3, 0, 1, 23, 22, 20, 21][i]
}

/// Where a reflection sends each line of [`LINE2`].
pub open spec fn flip_line2(i: int) -> int {
    seq![8, 9, 6, 7, 4, 5, 2, 3, 0, 1, 11, 10, 13, 12, 15, 14, 17, 16, 19, 18, 23, 22, 21, 20][i]
}

/// [`turn_line2`] as a function value.
pub open spec fn turn_line2_map() -> spec_fn(int) -> int {
    |i: int| turn_line2(i)
}

/// [`flip_line2`] as a function value.
pub open spec fn flip_line2_map() -> spec_fn(int) -> int {
    |i: int| flip_line2(i)
}

#[verifier::rlimit(50)]
proof fn lemma_line2_turn_closed(i: int)
    requires
        0 <= i < 24,
    ensures
        low_cells(LINE2[i].0),
        low_cells(LINE2[i].1),
        0 <= turn_line2(i) < 24,
        turned_word(LINE2[i].0) == LINE2[turn_line2(i)].0,
        turned_word(LINE2[i].1) == LINE2[turn_line2(i)].1,
{
    lemma_turned_is_expr(LINE2[i].0);
    lemma_turned_is_expr(LINE2[i].1);
    lemma_line2_turn_words();
    if i == 0 {
        assert(LINE2[0].0 == 0b00_00_00_00_00_00_00_00_00_00_00_00_00_00_00_00_00_00_00_00_00_00_01_01_00 && LINE2[0].1 == 0b00_00_00_00_00_00_00_00_00_00_00_00_00_00_00_00_00_00_00_00_00_01_00_00_01);
    } else if i == 1 {
        assert(LINE2[1].0 == 0b00_00_00_00_00_00_00_00_00_00_00_00_00_00_00_00_00_00_00_00_00_01_01_00_00 && LINE2[1].1 == 0b00_00_00_00_00_00_00_00_00_00_00_00_00_00_00_00_00_00_00_00_01_00_00_01_00);
    } else if i == 2 {
        assert(LINE2[2].0 == 0b00_00_00_00_00_00_00_00_00_00_00_00_00_00_00_00_00_01_01_00_00_00_00_00_00 && LINE2[2].1 == 0b00_00_00_00_00_00_00_00_00_00_00_00_00_00_00_00_01_00_00_01_00_00_00_00_00);
    } else if i == 3 {
        assert(LINE2[3].0 == 0b00_00_00_00_00_00_00_00_00_00_00_00_00_00_00_00_01_01_00_00_00_00_00_00_00 && LINE2[3].1 == 0b00_00_00_00_00_00_00_00_00_00_00_00_00_00_00_01_00_00_01_00_00_00_00_00_00);
    } else if i == 4 {
        assert(LINE2[4].0 == 0b00_00_00_00_00_00_00_00_00_00_00_00_01_01_00_00_00_00_00_00_00_00_00_00_00 && LINE2[4].1 == 0b00_00_00_00_00_00_00_00_00_00_00_01_00_00_01_00_00_00_00_00_00_00_00_00_00);
    } else if i == 5 {
        assert(LINE2[5].0 == 0b00_00_00_00_00_00_00_00_00_00_00_01_01_00_00_00_00_00_00_00_00_00_00_00_00 && LINE2[5].1 == 0b00_00_00_00_00_00_00_00_00_00_01_00_00_01_00_00_00_00_00_00_00_00_00_00_00);
    } else if i == 6 {
        assert(LINE2[6].0 == 0b00_00_00_00_00_00_00_01_01_00_00_00_00_00_00_00_00_00_00_00_00_00_00_00_00 && LINE2[6].1 == 0b00_00_00_00_00_00_01_00_00_01_00_00_00_00_00_00_00_00_00_00_00_00_00_00_00);
    } else if i == 7 {
        assert(LINE2[7].0 == 0b00_00_00_00_00_00_01_01_00_00_00_00_00_00_00_00_00_00_00_00_00_00_00_00_00 && LINE2[7].1 == 0b00_00_00_00_00_01_00_00_01_00_00_00_00_00_00_00_00_00_00_00_00_00_00_00_00);
    } else if i == 8 {
        assert(LINE2[8].0 == 0b00_00_01_01_00_00_00_00_00_00_00_00_00_00_00_00_00_00_00_00_00_00_00_00_00 && LINE2[8].1 == 0b00_01_00_00_01_00_00_00_00_00_00_00_00_00_00_00_00_00_00_00_00_00_00_00_00);
    } else if i == 9 {
        assert(LINE2[9].0 == 0b00_01_01_00_00_00_00_00_00_00_00_00_00_00_00_00_00_00_00_00_00_00_00_00_00 && LINE2[9].1 == 0b01_00_00_01_00_00_00_00_00_00_00_00_00_00_00_00_00_00_00_00_00_00_00_00_00);
    } else if i == 10 {
        assert(LINE2[10].0 == 0b00_00_00_00_00_00_00_00_00_00_00_00_00_00_01_00_00_00_00_01_00_00_00_00_00 && LINE2[10].1 == 0b00_00_00_00_00_00_00_00_00_01_00_00_00_00_00_00_00_00_00_00_00_00_00_00_01);
    } else if i == 11 {
        assert(LINE2[11].0 == 0b00_00_00_00_00_00_00_00_00_01_00_00_00_00_01_00_00_00_00_00_00_00_00_00_00 && LINE2[11].1 == 0b00_00_00_00_01_00_00_00_00_00_00_00_00_00_00_00_00_00_00_01_00_00_00_00_00);
    } else if i == 12 {
        assert(LINE2[12].0 == 0b00_00_00_00_00_00_00_00_00_00_00_00_00_01_00_00_00_00_01_00_00_00_00_00_00 && LINE2[12].1 == 0b00_00_00_00_00_00_00_00_01_00_00_00_00_00_00_00_00_00_00_00_00_00_00_01_00);
    } else if i == 13 {
        assert(LINE2[13].0 == 0b00_00_00_00_00_00_00_00_01_00_00_00_00_01_00_00_00_00_00_00_00_00_00_00_00 && LINE2[13].1 == 0b00_00_00_01_00_00_00_00_00_00_00_00_00_00_00_00_00_00_01_00_00_00_00_00_00);
    } else if i == 14 {
        assert(LINE2[14].0 == 0b00_00_00_00_00_00_00_00_00_00_00_00_01_00_00_00_00_01_00_00_00_00_00_00_00 && LINE2[14].1 == 0b00_00_00_00_00_00_00_01_00_00_00_00_00_00_00_00_00_00_00_00_00_00_01_00_00);
    } else if i == 15 {
        assert(LINE2[15].0 == 0b00_00_00_00_00_00_00_01_00_00_00_00_01_00_00_00_00_00_00_00_00_00_00_00_00 && LINE2[15].1 == 0b00_00_01_00_00_00_00_00_00_00_00_00_00_00_00_00_00_01_00_00_00_00_00_00_00);
    } else if i == 16 {
        assert(LINE2[16].0 == 0b00_00_00_00_00_00_00_00_00_00_00_01_00_00_00_00_01_00_00_00_00_00_00_00_00 && LINE2[16].1 == 0b00_00_00_00_00_00_01_00_00_00_00_00_00_00_00_00_00_00_00_00_00_01_00_00_00);
    } else if i == 17 {
        assert(LINE2[17].0 == 0b00_00_00_00_00_00_01_00_00_00_00_01_00_00_00_00_00_00_00_00_00_00_00_00_00 && LINE2[17].1 == 0b00_01_00_00_00_00_00_00_00_00_00_00_00_00_00_00_01_00_00_00_00_00_00_00_00);
    } else if i == 18 {
        assert(LINE2[18].0 == 0b00_00_00_00_00_00_00_00_00_00_01_00_00_00_00_01_00_00_00_00_00_00_00_00_00 && LINE2[18].1 == 0b00_00_00_00_00_01_00_00_00_00_00_00_00_00_00_00_00_00_00_00_01_00_00_00_00);
    } else if i == 19 {
        assert(LINE2[19].0 == 0b00_00_00_00_00_01_00_00_00_00_01_00_00_00_00_00_00_00_00_00_00_00_00_00_00 && LINE2[19].1 == 0b01_00_00_00_00_00_00_00_00_00_00_00_00_00_00_01_00_00_00_00_00_00_00_00_00);
    } else if i == 20 {
        assert(LINE2[20].0 == 0b00_00_00_00_00_00_00_00_00_00_00_00_01_00_00_00_00_00_01_00_00_00_00_00_00 && LINE2[20].1 == 0b00_00_00_00_00_00_01_00_00_00_00_00_00_00_00_00_00_00_00_00_00_00_00_00_01);
    } else if i == 21 {
        assert(LINE2[21].0 == 0b00_00_00_00_00_00_01_00_00_00_00_00_01_00_00_00_00_00_00_00_00_00_00_00_00 && LINE2[21].1 == 0b01_00_00_00_00_00_00_00_00_00_00_00_00_00_00_00_00_00_01_00_00_00_00_00_00);
    } else if i == 22 {
        assert(LINE2[22].0 == 0b00_00_00_00_00_00_00_00_00_00_00_00_01_00_00_00_01_00_00_00_00_00_00_00_00 && LINE2[22].1 == 0b00_00_00_00_00_00_00_00_01_00_00_00_00_00_00_00_00_00_00_00_01_00_00_00_00);
    } else if i == 23 {
        assert(LINE2[23].0 == 0b00_00_00_00_00_00_00_00_01_00_00_00_01_00_00_00_00_00_00_00_00_00_00_00_00 && LINE2[23].1 == 0b00_00_00_00_01_00_00_00_00_00_00_00_00_00_00_00_01_00_00_00_00_00_00_00_00);
    }
    lemma_low_cells_from_bits(LINE2[i].0);
    lemma_low_cells_from_bits(LINE2[i].1);
}

#[verifier::rlimit(50)]
proof fn lemma_line2_flip_closed(i: int)
    requires
        0 <= i < 24,
    ensures
        low_cells(LINE2[i].0),
        low_cells(LINE2[i].1),
        0 <= flip_line2(i) < 24,
        flipped_word(LINE2[i].0) == LINE2[flip_line2(i)].0,
        flipped_word(LINE2[i].1) == LINE2[flip_line2(i)].1,
{
    lemma_flipped_is_expr(LINE2[i].0);
    lemma_flipped_is_expr(LINE2[i].1);
    lemma_line2_flip_words();
    if i == 0 {
        assert(LINE2[0].0 == 0b00_00_00_00_00_00_00_00_00_00_00_00_00_00_00_00_00_00_00_00_00_00_01_01_00 && LINE2[0].1 == 0b00_00_00_00_00_00_00_00_00_00_00_00_00_00_00_00_00_00_00_00_00_01_00_00_01);
    } else if i == 1 {
        assert(LINE2[1].0 == 0b00_00_00_00_00_00_00_00_00_00_00_00_00_00_00_00_00_00_00_00_00_01_01_00_00 && LINE2[1].1 == 0b00_00_00_00_00_00_00_00_00_00_00_00_00_00_00_00_00_00_00_00_01_00_00_01_00);
    } else if i == 2 {
        assert(LINE2[2].0 == 0b00_00_00_00_00_00_00_00_00_00_00_00_00_00_00_00_00_01_01_00_00_00_00_00_00 && LINE2[2].1 == 0b00_00_00_00_00_00_00_00_00_00_00_00_00_00_00_00_01_00_00_01_00_00_00_00_00);
    } else if i == 3 {
        assert(LINE2[3].0 == 0b00_00_00_00_00_00_00_00_00_00_00_00_00_00_00_00_01_01_00_00_00_00_00_00_00 && LINE2[3].1 == 0b00_00_00_00_00_00_00_00_00_00_00_00_00_00_00_01_00_00_01_00_00_00_00_00_00);
    } else if i == 4 {
        assert(LINE2[4].0 == 0b00_00_00_00_00_00_00_00_00_00_00_00_01_01_00_00_00_00_00_00_00_00_00_00_00 && LINE2[4].1 == 0b00_00_00_00_00_00_00_00_00_00_00_01_00_00_01_00_00_00_00_00_00_00_00_00_00);
    } else if i == 5 {
        assert(LINE2[5].0 == 0b00_00_00_00_00_00_00_00_00_00_00_01_01_00_00_00_00_00_00_00_00_00_00_00_00 && LINE2[5].1 == 0b00_00_00_00_00_00_00_00_00_00_01_00_00_01_00_00_00_00_00_00_00_00_00_00_00);
    } else if i == 6 {
        assert(LINE2[6].0 == 0b00_00_00_00_00_00_00_01_01_00_00_00_00_00_00_00_00_00_00_00_00_00_00_00_00 && LINE2[6].1 == 0b00_00_00_00_00_00_01_00_00_01_00_00_00_00_00_00_00_00_00_00_00_00_00_00_00);
    } else if i == 7 {
        assert(LINE2[7].0 == 0b00_00_00_00_00_00_01_01_00_00_00_00_00_00_00_00_00_00_00_00_00_00_00_00_00 && LINE2[7].1 == 0b00_00_00_00_00_01_00_00_01_00_00_00_00_00_00_00_00_00_00_00_00_00_00_00_00);
    } else if i == 8 {
        assert(LINE2[8].0 == 0b00_00_01_01_00_00_00_00_00_00_00_00_00_00_00_00_00_00_00_00_00_00_00_00_00 && LINE2[8].1 == 0b00_01_00_00_01_00_00_00_00_00_00_00_00_00_00_00_00_00_00_00_00_00_00_00_00);
    } else if i == 9 {
        assert(LINE2[9].0 == 0b00_01_01_00_00_00_00_00_00_00_00_00_00_00_00_00_00_00_00_00_00_00_00_00_00 && LINE2[9].1 == 0b01_00_00_01_00_00_00_00_00_00_00_00_00_00_00_00_00_00_00_00_00_00_00_00_00);
    } else if i == 10 {
        assert(LINE2[10].0 == 0b00_00_00_00_00_00_00_00_00_00_00_00_00_00_01_00_00_00_00_01_00_00_00_00_00 && LINE2[10].1 == 0b00_00_00_00_00_00_00_00_00_01_00_00_00_00_00_00_00_00_00_00_00_00_00_00_01);
    } else if i == 11 {
        assert(LINE2[11].0 == 0b00_00_00_00_00_00_00_00_00_01_00_00_00_00_01_00_00_00_00_00_00_00_00_00_00 && LINE2[11].1 == 0b00_00_00_00_01_00_00_00_00_00_00_00_00_00_00_00_00_00_00_01_00_00_00_00_00);
    } else if i == 12 {
        assert(LINE2[12].0 == 0b00_00_00_00_00_00_00_00_00_00_00_00_00_01_00_00_00_00_01_00_00_00_00_00_00 && LINE2[12].1 == 0b00_00_00_00_00_00_00_00_01_00_00_00_00_00_00_00_00_00_00_00_00_00_00_01_00);
    } else if i == 13 {
        assert(LINE2[13].0 == 0b00_00_00_00_00_00_00_00_01_00_00_00_00_01_00_00_00_00_00_00_00_00_00_00_00 && LINE2[13].1 == 0b00_00_00_01_00_00_00_00_00_00_00_00_00_00_00_00_00_00_01_00_00_00_00_00_00);
    } else if i == 14 {
        assert(LINE2[14].0 == 0b00_00_00_00_00_00_00_00_00_00_00_00_01_00_00_00_00_01_00_00_00_00_00_00_00 && LINE2[14].1 == 0b00_00_00_00_00_00_00_01_00_00_00_00_00_00_00_00_00_00_00_00_00_00_01_00_00);
    } else if i == 15 {
        assert(LINE2[15].0 == 0b00_00_00_00_00_00_00_01_00_00_00_00_01_00_00_00_00_00_00_00_00_00_00_00_00 && LINE2[15].1 == 0b00_00_01_00_00_00_00_00_00_00_00_00_00_00_00_00_00_01_00_00_00_00_00_00_00);
    } else if i == 16 {
        assert(LINE2[16].0 == 0b00_00_00_00_00_00_00_00_00_00_00_01_00_00_00_00_01_00_00_00_00_00_00_00_00 && LINE2[16].1 == 0b00_00_00_00_00_00_01_00_00_00_00_00_00_00_00_00_00_00_00_00_00_01_00_00_00);
    } else if i == 17 {
        assert(LINE2[17].0 == 0b00_00_00_00_00_00_01_00_00_00_00_01_00_00_00_00_00_00_00_00_00_00_00_00_00 && LINE2[17].1 == 0b00_01_00_00_00_00_00_00_00_00_00_00_00_00_00_00_01_00_00_00_00_00_00_00_00);
    } else if i == 18 {
        assert(LINE2[18].0 == 0b00_00_00_00_00_00_00_00_00_00_01_00_00_00_00_01_00_00_00_00_00_00_00_00_00 && LINE2[18].1 == 0b00_00_00_00_00_01_00_00_00_00_00_00_00_00_00_00_00_00_00_00_01_00_00_00_00);
    } else if i == 19 {
        assert(LINE2[19].0 == 0b00_00_00_00_00_01_00_00_00_00_01_00_00_00_00_00_00_00_00_00_00_00_00_00_00 && LINE2[19].1 == 0b01_00_00_00_00_00_00_00_00_00_00_00_00_00_00_01_00_00_00_00_00_00_00_00_00);
    } else if i == 20 {
        assert(LINE2[20].0 == 0b00_00_00_00_00_00_00_00_00_00_00_00_01_00_00_00_00_00_01_00_00_00_00_00_00 && LINE2[20].1 == 0b00_00_00_00_00_00_01_00_00_00_00_00_00_00_00_00_00_00_00_00_00_00_00_00_01);
    } else if i == 21 {
        assert(LINE2[21].0 == 0b00_00_00_00_00_00_01_00_00_00_00_00_01_00_00_00_00_00_00_00_00_00_00_00_00 && LINE2[21].1 == 0b01_00_00_00_00_00_00_00_00_00_00_00_00_00_00_00_00_00_01_00_00_00_00_00_00);
    } else if i == 22 {
        assert(LINE2[22].0 == 0b00_00_00_00_00_00_00_00_00_00_00_00_01_00_00_00_01_00_00_00_00_00_00_00_00 && LINE2[22].1 == 0b00_00_00_00_00_00_00_00_01_00_00_00_00_00_00_00_00_00_00_00_01_00_00_00_00);
    } else if i == 23 {
        assert(LINE2[23].0 == 0b00_00_00_00_00_00_00_00_01_00_00_00_01_00_00_00_00_00_00_00_00_00_00_00_00 && LINE2[23].1 == 0b00_00_00_00_01_00_00_00_00_00_00_00_00_00_00_00_01_00_00_00_00_00_00_00_00);
    }
    lemma_low_cells_from_bits(LINE2[i].0);
    lemma_low_cells_from_bits(LINE2[i].1);
}

/// `line2_map` says where `src` sends the lines of [`LINE2`], whose cells hold 0 or 1.
pub open spec fn maps_line2(src: spec_fn(int) -> int, line2_map: spec_fn(int) -> int) -> bool {
    forall|i: int|
        0 <= i < 24 ==> {
            &&& 0 <= #[trigger] line2_map(i) < 24
            &&& low_cells(LINE2[i].0)
            &&& low_cells(LINE2[i].1)
            &&& moved_word(LINE2[i].0, src) == LINE2[line2_map(i)].0
            &&& moved_word(LINE2[i].1, src) == LINE2[line2_map(i)].1
        }
}

proof fn lemma_turn_maps_line2()
    ensures
        maps_line2(turn_map(), turn_line2_map()),
{
    assert forall|i: int| 0 <= i < 24 implies {
        &&& 0 <= #[trigger] turn_line2_map()(i) < 24
        &&& low_cells(LINE2[i].0)
        &&& low_cells(LINE2[i].1)
        &&& moved_word(LINE2[i].0, turn_map()) == LINE2[turn_line2_map()(i)].0
        &&& moved_word(LINE2[i].1, turn_map()) == LINE2[turn_line2_map()(i)].1
    } by {
        lemma_line2_turn_closed(i);
    }
}

proof fn lemma_flip_maps_line2()
    ensures
        maps_line2(flip_map(), flip_line2_map()),
{
    assert forall|i: int| 0 <= i < 24 implies {
        &&& 0 <= #[trigger] flip_line2_map()(i) < 24
        &&& low_cells(LINE2[i].0)
        &&& low_cells(LINE2[i].1)
        &&& moved_word(LINE2[i].0, flip_map()) == LINE2[flip_line2_map()(i)].0
        &&& moved_word(LINE2[i].1, flip_map()) == LINE2[flip_line2_map()(i)].1
    } by {
        lemma_line2_flip_closed(i);
    }
}

/// [`first_open_two`] finds a line exactly when some line from `k` on holds an open two.
proof fn lemma_first_open_two_exists(w: u64, p: u64, k: nat)
    ensures
        (first_open_two(w, p, k) is Some) == (exists|i: int|
            k <= i < 24 && #[trigger] open_two_at(w, p, i)),
    decreases 24 - k,
{
    if k < 24 {
        lemma_first_open_two_exists(w, p, k + 1);
        if exists|i: int| k <= i < 24 && #[trigger] open_two_at(w, p, i) {
            let i = choose|i: int| k <= i < 24 && #[trigger] open_two_at(w, p, i);
            if i > k {
                assert(k + 1 <= i < 24 && open_two_at(w, p, i));
            }
        }
    }
}

/// An open two on a board is an open two on the moved board.
proof fn lemma_open_two_moves(w: u64, p: u64, src: spec_fn(int) -> int, line2_map: spec_fn(int) -> int)
    requires
        board_map(src),
        keeps_popcount(src),
        maps_line2(src, line2_map),
        on_board(w),
        p <= 1,
    ensures
        (first_open_two(w, p, 0) is Some) ==> (first_open_two(moved_word(w, src), p, 0) is Some),
{
    lemma_first_open_two_exists(w, p, 0);
    lemma_first_open_two_exists(moved_word(w, src), p, 0);
    if first_open_two(w, p, 0) is Some {
        let i = choose|i: int| 0 <= i < 24 && #[trigger] open_two_at(w, p, i);
        let j = line2_map(i);
        assert(0 <= line2_map(i) < 24);
        let e = LINE2[i].1;
        lemma_select_count(w, LINE2[i].0, p, src);
        lemma_moved_shl1(e, src);
        lemma_moved_bitwise(e, e << 1u64, src);
        lemma_and_count(w, e | (e << 1u64), src);
        assert(open_two_at(moved_word(w, src), p, j));
    }
}

/// Turning the board a quarter does not change whether a player has an open
/// two, nor whether [`Board::has_free2`] finds one, on a board with nothing
/// past its 25 cells.
pub proof fn law_open_two_turn(w: u64)
    requires
        on_board(w),
    ensures
        forall|p: u64| p <= 1 ==> (#[trigger] first_open_two(turned_word(w), p, 0) is Some) == (
        first_open_two(w, p, 0) is Some),
        forall|cur: State| (#[trigger] open_two_choice(turned_word(w), cur) is Some) == (
        open_two_choice(w, cur) is Some),
{
    lemma_turn_is_symmetry();
    lemma_turn_maps_line2();
    let w1 = turned_word(w);
    let w2 = turned_word(w1);
    let w3 = turned_word(w2);
    law_symmetries_stay_on_board(w);
    law_symmetries_stay_on_board(w1);
    law_symmetries_stay_on_board(w2);
    law_four_turns(w);
    assert forall|p: u64| p <= 1 implies (#[trigger] first_open_two(turned_word(w), p, 0) is Some)
        == (first_open_two(w, p, 0) is Some) by {
        lemma_open_two_moves(w, p, turn_map(), turn_line2_map());
        lemma_open_two_moves(w1, p, turn_map(), turn_line2_map());
        lemma_open_two_moves(w2, p, turn_map(), turn_line2_map());
        lemma_open_two_moves(w3, p, turn_map(), turn_line2_map());
    }
    assert(first_open_two(w1, 0, 0) is Some == first_open_two(w, 0, 0) is Some);
    assert(first_open_two(w1, 1, 0) is Some == first_open_two(w, 1, 0) is Some);
}

/// Reflecting the board does not change whether a player has an open two,
/// nor whether [`Board::has_free2`] finds one, on a board with nothing past
/// its 25 cells.
pub proof fn law_open_two_flip(w: u64)
    requires
        on_board(w),
    ensures
        forall|p: u64| p <= 1 ==> (#[trigger] first_open_two(flipped_word(w), p, 0) is Some) == (
        first_open_two(w, p, 0) is Some),
        forall|cur: State| (#[trigger] open_two_choice(flipped_word(w), cur) is Some) == (
        open_two_choice(w, cur) is Some),
{
    lemma_flip_is_symmetry();
    lemma_flip_maps_line2();
    let w1 = flipped_word(w);
    law_symmetries_stay_on_board(w);
    law_two_flips(w);
    assert forall|p: u64| p <= 1 implies (#[trigger] first_open_two(flipped_word(w), p, 0) is Some)
        == (first_open_two(w, p, 0) is Some) by {
        lemma_open_two_moves(w, p, flip_map(), flip_line2_map());
        lemma_open_two_moves(w1, p, flip_map(), flip_line2_map());
    }
    assert(first_open_two(w1, 0, 0) is Some == first_open_two(w, 0, 0) is Some);
    assert(first_open_two(w1, 1, 0) is Some == first_open_two(w, 1, 0) is Some);
}

} // verus!
