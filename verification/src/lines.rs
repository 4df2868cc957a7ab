//! The lines of the board as bit masks, and counting bits.
use vstd::prelude::*;
use crate::cells::cell;

verus! {

/// The 28 runs of four cells (rows, columns, diagonals): the low bit of each
/// of the four cells is set.
pub const LINE: [u64; 28] = [
    0b00_00_00_00_00_00_00_00_00_00_00_00_00_00_00_00_00_00_00_00_00_01_01_01_01,
    0b00_00_00_00_00_00_00_00_00_00_00_00_00_00_00_00_00_00_00_00_01_01_01_01_00,
    0b00_00_00_00_00_00_00_00_00_00_00_00_00_00_00_00_01_01_01_01_00_00_00_00_00,
    0b00_00_00_00_00_00_00_00_00_00_00_00_00_00_00_01_01_01_01_00_00_00_00_00_00,
    0b00_00_00_00_00_00_00_00_00_00_00_01_01_01_01_00_00_00_00_00_00_00_00_00_00,
    0b00_00_00_00_00_00_00_00_00_00_01_01_01_01_00_00_00_00_00_00_00_00_00_00_00,
    0b00_00_00_00_00_00_01_01_01_01_00_00_00_00_00_00_00_00_00_00_00_00_00_00_00,
    0b00_00_00_00_00_01_01_01_01_00_00_00_00_00_00_00_00_00_00_00_00_00_00_00_00,
    0b00_01_01_01_01_00_00_00_00_00_00_00_00_00_00_00_00_00_00_00_00_00_00_00_00,
    0b01_01_01_01_00_00_00_00_00_00_00_00_00_00_00_00_00_00_00_00_00_00_00_00_00,
    0b00_00_00_00_00_00_00_00_00_01_00_00_00_00_01_00_00_00_00_01_00_00_00_00_01,
    0b00_00_00_00_01_00_00_00_00_01_00_00_00_00_01_00_00_00_00_01_00_00_00_00_00,
    0b00_00_00_00_00_00_00_00_01_00_00_00_00_01_00_00_00_00_01_00_00_00_00_01_00,
    0b00_00_00_01_00_00_00_00_01_00_00_00_00_01_00_00_00_00_01_00_00_00_00_00_00,
    0b00_00_00_00_00_00_00_01_00_00_00_00_01_00_00_00_00_01_00_00_00_00_01_00_00,
    0b00_00_01_00_00_00_00_01_00_00_00_00_01_00_00_00_00_01_00_00_00_00_00_00_00,
    0b00_00_00_00_00_00_01_00_00_00_00_01_00_00_00_00_01_00_00_00_00_01_00_00_00,
    0b00_01_00_00_00_00_01_00_00_00_00_01_00_00_00_00_01_00_00_00_00_00_00_00_00,
    0b00_00_00_00_00_01_00_00_00_00_01_00_00_00_00_01_00_00_00_00_01_00_00_00_00,
    0b01_00_00_00_00_01_00_00_00_00_01_00_00_00_00_01_00_00_00_00_00_00_00_00_00,
    0b00_01_00_00_00_00_00_01_00_00_00_00_00_01_00_00_00_00_00_01_00_00_00_00_00,
    0b00_00_00_00_00_00_01_00_00_00_00_00_01_00_00_00_00_00_01_00_00_00_00_00_01,
    0b01_00_00_00_00_00_01_00_00_00_00_00_01_00_00_00_00_00_01_00_00_00_00_00_00,
    0b00_00_00_00_00_01_00_00_00_00_00_01_00_00_00_00_00_01_00_00_00_00_00_01_00,
    0b00_00_00_01_00_00_00_01_00_00_00_01_00_00_00_01_00_00_00_00_00_00_00_00_00,
    0b00_00_00_00_00_00_00_00_01_00_00_00_01_00_00_00_01_00_00_00_01_00_00_00_00,
    0b00_00_00_00_01_00_00_00_01_00_00_00_01_00_00_00_01_00_00_00_00_00_00_00_00,
    0b00_00_00_00_00_00_00_00_00_01_00_00_00_01_00_00_00_01_00_00_00_01_00_00_00,
];

/// The middle three cells of the inner rows, the inner columns and the two
/// long diagonals, paired with the two cells at their ends.
pub const LINE3: [(u64, u64); 8] = [
    (0b00_00_00_00_00_00_00_00_00_00_00_00_00_00_00_00_01_01_01_00_00_00_00_00_00, 0b00_00_00_00_00_00_00_00_00_00_00_00_00_00_00_01_00_00_00_01_00_00_00_00_00),
    (0b00_00_00_00_00_00_00_00_00_00_00_01_01_01_00_00_00_00_00_00_00_00_00_00_00, 0b00_00_00_00_00_00_00_00_00_00_01_00_00_00_01_00_00_00_00_00_00_00_00_00_00),
    (0b00_00_00_00_00_00_01_01_01_00_00_00_00_00_00_00_00_00_00_00_00_00_00_00_00, 0b00_00_00_00_00_01_00_00_00_01_00_00_00_00_00_00_00_00_00_00_00_00_00_00_00),
    (0b00_00_00_00_00_00_00_00_01_00_00_00_00_01_00_00_00_00_01_00_00_00_00_00_00, 0b00_00_00_01_00_00_00_00_00_00_00_00_00_00_00_00_00_00_00_00_00_00_00_01_00),
    (0b00_00_00_00_00_00_00_01_00_00_00_00_01_00_00_00_00_01_00_00_00_00_00_00_00, 0b00_00_01_00_00_00_00_00_00_00_00_00_00_00_00_00_00_00_00_00_00_00_01_00_00),
    (0b00_00_00_00_00_00_01_00_00_00_00_01_00_00_00_00_01_00_00_00_00_00_00_00_00, 0b00_01_00_00_00_00_00_00_00_00_00_00_00_00_00_00_00_00_00_00_00_01_00_00_00),
    (0b00_00_00_00_00_00_01_00_00_00_00_00_01_00_00_00_00_00_01_00_00_00_00_00_00, 0b01_00_00_00_00_00_00_00_00_00_00_00_00_00_00_00_00_00_00_00_00_00_00_00_01),
    (0b00_00_00_00_00_00_00_00_01_00_00_00_01_00_00_00_01_00_00_00_00_00_00_00_00, 0b00_00_00_00_01_00_00_00_00_00_00_00_00_00_00_00_00_00_00_00_01_00_00_00_00),
];

/// Two neighbouring cells with both their neighbours on a line, paired with
/// the cells (row, column) at the two ends.
pub const LINE2: [(u64, u64, (usize, usize), (usize, usize)); 24] = [
    (0b00_00_00_00_00_00_00_00_00_00_00_00_00_00_00_00_00_00_00_00_00_00_01_01_00, 0b00_00_00_00_00_00_00_00_00_00_00_00_00_00_00_00_00_00_00_00_00_01_00_00_01, (0, 0), (0, 3)),
    (0b00_00_00_00_00_00_00_00_00_00_00_00_00_00_00_00_00_00_00_00_00_01_01_00_00, 0b00_00_00_00_00_00_00_00_00_00_00_00_00_00_00_00_00_00_00_00_01_00_00_01_00, (0, 1), (0, 4)),
    (0b00_00_00_00_00_00_00_00_00_00_00_00_00_00_00_00_00_01_01_00_00_00_00_00_00, 0b00_00_00_00_00_00_00_00_00_00_00_00_00_00_00_00_01_00_00_01_00_00_00_00_00, (1, 0), (1, 3)),
    (0b00_00_00_00_00_00_00_00_00_00_00_00_00_00_00_00_01_01_00_00_00_00_00_00_00, 0b00_00_00_00_00_00_00_00_00_00_00_00_00_00_00_01_00_00_01_00_00_00_00_00_00, (1, 1), (1, 4)),
    (0b00_00_00_00_00_00_00_00_00_00_00_00_01_01_00_00_00_00_00_00_00_00_00_00_00, 0b00_00_00_00_00_00_00_00_00_00_00_01_00_00_01_00_00_00_00_00_00_00_00_00_00, (2, 0), (2, 3)),
    (0b00_00_00_00_00_00_00_00_00_00_00_01_01_00_00_00_00_00_00_00_00_00_00_00_00, 0b00_00_00_00_00_00_00_00_00_00_01_00_00_01_00_00_00_00_00_00_00_00_00_00_00, (2, 1), (2, 4)),
    (0b00_00_00_00_00_00_00_01_01_00_00_00_00_00_00_00_00_00_00_00_00_00_00_00_00, 0b00_00_00_00_00_00_01_00_00_01_00_00_00_00_00_00_00_00_00_00_00_00_00_00_00, (3, 0), (3, 3)),
    (0b00_00_00_00_00_00_01_01_00_00_00_00_00_00_00_00_00_00_00_00_00_00_00_00_00, 0b00_00_00_00_00_01_00_00_01_00_00_00_00_00_00_00_00_00_00_00_00_00_00_00_00, (3, 1), (3, 4)),
    (0b00_00_01_01_00_00_00_00_00_00_00_00_00_00_00_00_00_00_00_00_00_00_00_00_00, 0b00_01_00_00_01_00_00_00_00_00_00_00_00_00_00_00_00_00_00_00_00_00_00_00_00, (4, 0), (4, 3)),
    (0b00_01_01_00_00_00_00_00_00_00_00_00_00_00_00_00_00_00_00_00_00_00_00_00_00, 0b01_00_00_01_00_00_00_00_00_00_00_00_00_00_00_00_00_00_00_00_00_00_00_00_00, (4, 1), (4, 4)),
    (0b00_00_00_00_00_00_00_00_00_00_00_00_00_00_01_00_00_00_00_01_00_00_00_00_00, 0b00_00_00_00_00_00_00_00_00_01_00_00_00_00_00_00_00_00_00_00_00_00_00_00_01, (0, 0), (3, 0)),
    (0b00_00_00_00_00_00_00_00_00_01_00_00_00_00_01_00_00_00_00_00_00_00_00_00_00, 0b00_00_00_00_01_00_00_00_00_00_00_00_00_00_00_00_00_00_00_01_00_00_00_00_00, (1, 0), (4, 0)),
    (0b00_00_00_00_00_00_00_00_00_00_00_00_00_01_00_00_00_00_01_00_00_00_00_00_00, 0b00_00_00_00_00_00_00_00_01_00_00_00_00_00_00_00_00_00_00_00_00_00_00_01_00, (0, 1), (3, 1)),
    (0b00_00_00_00_00_00_00_00_01_00_00_00_00_01_00_00_00_00_00_00_00_00_00_00_00, 0b00_00_00_01_00_00_00_00_00_00_00_00_00_00_00_00_00_00_01_00_00_00_00_00_00, (1, 1), (4, 1)),
    (0b00_00_00_00_00_00_00_00_00_00_00_00_01_00_00_00_00_01_00_00_00_00_00_00_00, 0b00_00_00_00_00_00_00_01_00_00_00_00_00_00_00_00_00_00_00_00_00_00_01_00_00, (0, 2), (3, 2)),
    (0b00_00_00_00_00_00_00_01_00_00_00_00_01_00_00_00_00_00_00_00_00_00_00_00_00, 0b00_00_01_00_00_00_00_00_00_00_00_00_00_00_00_00_00_01_00_00_00_00_00_00_00, (1, 2), (4, 2)),
    (0b00_00_00_00_00_00_00_00_00_00_00_01_00_00_00_00_01_00_00_00_00_00_00_00_00, 0b00_00_00_00_00_00_01_00_00_00_00_00_00_00_00_00_00_00_00_00_00_01_00_00_00, (0, 3), (3, 3)),
    (0b00_00_00_00_00_00_01_00_00_00_00_01_00_00_00_00_00_00_00_00_00_00_00_00_00, 0b00_01_00_00_00_00_00_00_00_00_00_00_00_00_00_00_01_00_00_00_00_00_00_00_00, (1, 3), (4, 3)),
    (0b00_00_00_00_00_00_00_00_00_00_01_00_00_00_00_01_00_00_00_00_00_00_00_00_00, 0b00_00_00_00_00_01_00_00_00_00_00_00_00_00_00_00_00_00_00_00_01_00_00_00_00, (0, 4), (3, 4)),
    (0b00_00_00_00_00_01_00_00_00_00_01_00_00_00_00_00_00_00_00_00_00_00_00_00_00, 0b01_00_00_00_00_00_00_00_00_00_00_00_00_00_00_01_00_00_00_00_00_00_00_00_00, (1, 4), (4, 4)),
    (0b00_00_00_00_00_00_00_00_00_00_00_00_01_00_00_00_00_00_01_00_00_00_00_00_00, 0b00_00_00_00_00_00_01_00_00_00_00_00_00_00_00_00_00_00_00_00_00_00_00_00_01, (0, 0), (3, 3)),
    (0b00_00_00_00_00_00_01_00_00_00_00_00_01_00_00_00_00_00_00_00_00_00_00_00_00, 0b01_00_00_00_00_00_00_00_00_00_00_00_00_00_00_00_00_00_01_00_00_00_00_00_00, (1, 1), (4, 4)),
    (0b00_00_00_00_00_00_00_00_00_00_00_00_01_00_00_00_01_00_00_00_00_00_00_00_00, 0b00_00_00_00_00_00_00_00_01_00_00_00_00_00_00_00_00_00_00_00_01_00_00_00_00, (0, 4), (3, 1)),
    (0b00_00_00_00_00_00_00_00_01_00_00_00_01_00_00_00_00_00_00_00_00_00_00_00_00, 0b00_00_00_00_01_00_00_00_00_00_00_00_00_00_00_00_01_00_00_00_00_00_00_00_00, (1, 3), (4, 0)),
];

/// The number of bits set in `x`.
pub open spec fn popcount(x: u64) -> nat
    decreases x,
{
    if x == 0 {
        0
    } else {
        proof {
            assert(x != 0 ==> x >> 1 < x) by (bit_vector);
        }
        (x & 1) as nat + popcount(x >> 1)
    }
}

/// A word below `2^n` has at most `n` bits set.
pub proof fn lemma_popcount_bound(x: u64, n: u64)
    requires
        n <= 64,
        n == 64 || x < (1u64 << n),
    ensures
        popcount(x) <= n,
    decreases n,
{
    if x != 0 {
        assert(n >= 1 && (n - 1 == 64 || x >> 1 < (1u64 << (n - 1) as u64)) && x & 1 <= 1)
            by (bit_vector)
            requires
                x != 0,
                n <= 64,
                n == 64 || x < (1u64 << n),
        ;
        lemma_popcount_bound(x >> 1, (n - 1) as u64);
    }
}

/// The number of bits set in `x`.
pub fn count_ones(x: u64) -> (c: u32)
    ensures
        c == popcount(x),
{
    proof {
        lemma_popcount_bound(x, 64);
    }
    let mut v: u64 = x;
    let mut c: u32 = 0;
    while v != 0
        invariant
            c + popcount(v) == popcount(x),
            popcount(x) <= 64,
        decreases v,
    {
        assert(v >> 1 < v && v & 1 <= 1) by (bit_vector)
            requires
                v != 0,
        ;
        c = c + (v & 1) as u32;
        v = v >> 1;
    }
    c
}

/// The end cells named in [`LINE2`] lie on the board.
pub proof fn lemma_line2_ends_on_board(i: int)
    requires
        0 <= i < 24,
    ensures
        LINE2[i].2.0 < 5,
        LINE2[i].2.1 < 5,
        LINE2[i].3.0 < 5,
        LINE2[i].3.1 < 5,
{
}

/// The number of bits set in a two-bit cell code.
pub open spec fn code_bits(c: u64) -> nat {
    ((c & 1) + ((c >> 1u64) & 1)) as nat
}

/// The bits set in cells `k ..` of `z`.
pub open spec fn cell_sum(z: u64, k: nat) -> nat
    decreases 32 - k,
{
    if k >= 32 {
        0
    } else {
        code_bits(cell(z, k as int)) + cell_sum(z, k + 1)
    }
}

proof fn lemma_two_bits_u64(y: u64, z: u64, k: u64)
    ensures
        (y >> 1u64) >> 1u64 == y >> 2u64,
        y == 0 ==> (y & 1) == 0 && (y >> 1u64) == 0,
        (y >> 1u64) == 0 ==> ((y >> 1u64) & 1) == 0 && (y >> 2u64) == 0,
        ((y & 3) & 1) + (((y & 3) >> 1u64) & 1) == (y & 1) + ((y >> 1u64) & 1),
        k < 31 ==> (z >> (2 * k) as u64) >> 2u64 == z >> (2 * (k + 1)) as u64,
        (z >> 62u64) >> 2u64 == 0,
        z >> 0u64 == z,
        (y & 1) <= 1,
{
    assert((y >> 1u64) >> 1u64 == y >> 2u64 && (y == 0 ==> (y & 1) == 0 && (y >> 1u64) == 0) && ((
    y >> 1u64) == 0 ==> ((y >> 1u64) & 1) == 0 && (y >> 2u64) == 0) && ((y & 3) & 1) + (((y & 3)
        >> 1u64) & 1) == (y & 1) + ((y >> 1u64) & 1) && (k < 31 ==> (z >> (2 * k) as u64)
        >> 2u64 == z >> (2 * (k + 1)) as u64) && (z >> 62u64) >> 2u64 == 0 && z >> 0u64 == z && (y
        & 1) <= 1) by (bit_vector);
}

proof fn lemma_popcount_two(y: u64)
    ensures
        popcount(y) == (y & 1) + ((y >> 1u64) & 1) + popcount(y >> 2u64),
{
    lemma_two_bits_u64(y, 0, 0);
    lemma_two_bits_u64(y >> 1u64, 0, 0);
    if y != 0 && (y >> 1u64) != 0 {
        assert(popcount(y >> 1u64) == ((y >> 1u64) & 1) + popcount((y >> 1u64) >> 1u64));
    }
}

proof fn lemma_popcount_cells_from(z: u64, k: nat)
    requires
        k <= 31,
    ensures
        popcount(z >> ((2 * k) as u64)) == cell_sum(z, k),
    decreases 32 - k,
{
    let y = z >> ((2 * k) as u64);
    lemma_popcount_two(y);
    lemma_two_bits_u64(y, z, k as u64);
    if k < 31 {
        lemma_popcount_cells_from(z, k + 1);
    } else {
        assert(cell_sum(z, 32) == 0);
    }
}

/// The bits set in a word, counted cell by cell.
pub proof fn lemma_popcount_cells(z: u64)
    ensures
        popcount(z) == cell_sum(z, 0),
{
    lemma_popcount_cells_from(z, 0);
    lemma_two_bits_u64(0, z, 0);
}

} // verus!
