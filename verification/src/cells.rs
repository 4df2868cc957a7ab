//! Two-bit cells packed in a `u64`: reading, writing, and the fact that the
//! 32 cells of a word determine it.
use vstd::prelude::*;

verus! {

/// The two-bit code held by cell `i` of the packed word `w`.
pub open spec fn cell(w: u64, i: int) -> u64 {
    (w >> ((2 * i) as u64)) & 3
}

/// The 32 cells of a word, lowest first.
pub open spec fn cells_of(w: u64) -> Seq<u64> {
    Seq::new(32, |i: int| cell(w, i))
}

/// The word whose cells `0 .. s.len()` hold `s` and whose other cells are empty.
pub open spec fn pack(s: Seq<u64>) -> u64
    decreases s.len(),
{
    if s.len() == 0 {
        0
    } else {
        pack(s.drop_last()) | (s.last() << ((2 * (s.len() - 1)) as u64))
    }
}

/// The mask of the `2 * k` lowest bits.
pub open spec fn low_cells_mask(k: u64) -> u64 {
    if k >= 32 {
        0xffff_ffff_ffff_ffff
    } else {
        ((1u64 << (2 * k) as u64) - 1) as u64
    }
}

/// A cell's code is below 4.
pub proof fn lemma_cell_bound(w: u64, i: int)
    ensures
        cell(w, i) < 4,
{
    let sh = (2 * i) as u64;
    assert((w >> sh) & 3 < 4) by (bit_vector);
}

proof fn lemma_cell_or_u64(w: u64, v: u64, d: u64, i: u64)
    requires
        v < 4,
        d < 32,
        i < 32,
    ensures
        ((w | (v << (2 * d) as u64)) >> (2 * i) as u64) & 3 == (if i == d {
            ((w >> (2 * i) as u64) & 3) | v
        } else {
            (w >> (2 * i) as u64) & 3
        }),
{
    assert(((w | (v << (2 * d) as u64)) >> (2 * i) as u64) & 3 == (if i == d {
        ((w >> (2 * i) as u64) & 3) | v
    } else {
        (w >> (2 * i) as u64) & 3
    })) by (bit_vector)
        requires
            v < 4,
            d < 32,
            i < 32,
    ;
}

/// Writing the code `v` into cell `d` by a bitwise or changes only cell `d`.
pub proof fn lemma_cell_or(w: u64, v: u64, d: int, i: int)
    requires
        v < 4,
        0 <= d < 32,
        0 <= i < 32,
    ensures
        cell(w | (v << ((2 * d) as u64)), i) == (if i == d {
            cell(w, i) | v
        } else {
            cell(w, i)
        }),
{
    lemma_cell_or_u64(w, v, d as u64, i as u64);
}

/// The empty word has empty cells.
pub proof fn lemma_cell_zero(i: int)
    ensures
        cell(0, i) == 0,
{
    let sh = (2 * i) as u64;
    assert((0u64 >> sh) & 3 == 0) by (bit_vector);
}

proof fn lemma_low_mask_step(w: u64, k: u64)
    requires
        k < 32,
    ensures
        (w & low_cells_mask(k)) | (((w >> (2 * k) as u64) & 3) << (2 * k) as u64) == w
            & low_cells_mask((k + 1) as u64),
{
    if k == 31 {
        assert((w & (((1u64 << 62u64) - 1) as u64)) | (((w >> 62u64) & 3) << 62u64) == w
            & 0xffff_ffff_ffff_ffff) by (bit_vector);
    } else {
        assert((w & (((1u64 << (2 * k) as u64) - 1) as u64)) | (((w >> (2 * k) as u64) & 3) << (
        2 * k) as u64) == w & (((1u64 << (2 * (k + 1)) as u64) - 1) as u64)) by (bit_vector)
            requires
                k < 31,
        ;
    }
}

/// The first `k` cells of a word, packed, give the word's `2 * k` lowest bits.
proof fn lemma_pack_prefix(w: u64, k: nat)
    requires
        k <= 32,
    ensures
        pack(cells_of(w).take(k as int)) == w & low_cells_mask(k as u64),
    decreases k,
{
    if k == 0 {
        assert(cells_of(w).take(0) =~= Seq::<u64>::empty());
        assert(w & 0 == 0) by (bit_vector);
        assert(low_cells_mask(0) == 0) by (bit_vector);
    } else {
        let s = cells_of(w).take(k as int);
        assert(s.drop_last() =~= cells_of(w).take(k - 1));
        lemma_pack_prefix(w, (k - 1) as nat);
        lemma_low_mask_step(w, (k - 1) as u64);
    }
}

/// A word is the packing of its own cells.
pub proof fn lemma_pack_cells(w: u64)
    ensures
        pack(cells_of(w)) == w,
{
    lemma_pack_prefix(w, 32);
    assert(cells_of(w).take(32) =~= cells_of(w));
    assert(w & 0xffff_ffff_ffff_ffff == w) by (bit_vector);
}

/// Two words with the same 32 cells are the same word.
pub proof fn lemma_cells_determine(a: u64, b: u64)
    requires
        forall|i: int| 0 <= i < 32 ==> cell(a, i) == cell(b, i),
    ensures
        a == b,
{
    assert(cells_of(a) =~= cells_of(b));
    lemma_pack_cells(a);
    lemma_pack_cells(b);
}

/// The cells of a packed sequence of codes are the codes, then empty cells.
pub proof fn lemma_cell_pack(s: Seq<u64>, i: int)
    requires
        s.len() <= 32,
        forall|j: int| 0 <= j < s.len() ==> s[j] < 4,
        0 <= i < 32,
    ensures
        cell(pack(s), i) == (if i < s.len() {
            s[i]
        } else {
            0
        }),
    decreases s.len(),
{
    if s.len() == 0 {
        lemma_cell_zero(i);
    } else {
        let n = s.len() - 1;
        lemma_cell_pack(s.drop_last(), i);
        lemma_cell_or(pack(s.drop_last()), s.last(), n, i);
        if i == n {
            lemma_cell_pack(s.drop_last(), n);
            lemma_zero_cell_ops(s.last(), 0);
        }
    }
}

/// Every cell of `m` holds 0 or 1: only the low bit of a cell may be set.
pub open spec fn low_cells(m: u64) -> bool {
    forall|i: int| 0 <= i < 32 ==> #[trigger] cell(m, i) <= 1
}

/// Operations on cells that are empty.
pub proof fn lemma_zero_cell_ops(c: u64, s: u64)
    ensures
        0u64 & c == 0,
        c & 0u64 == 0,
        0u64 | 0u64 == 0,
        0u64 | c == c,
        (0u64 << 1u64) == 0,
        (0u64 >> s) == 0,
{
    assert(0u64 & c == 0 && c & 0u64 == 0 && 0u64 | 0u64 == 0 && 0u64 | c == c && (0u64 << 1u64)
        == 0 && (0u64 >> s) == 0) by (bit_vector);
}

proof fn lemma_cell_bitwise_u64(x: u64, y: u64, i: u64)
    requires
        i < 32,
    ensures
        ((x & y) >> (2 * i) as u64) & 3 == ((x >> (2 * i) as u64) & 3) & ((y >> (2 * i) as u64) & 3),
        ((x | y) >> (2 * i) as u64) & 3 == ((x >> (2 * i) as u64) & 3) | ((y >> (2 * i) as u64) & 3),
{
    assert(((x & y) >> (2 * i) as u64) & 3 == ((x >> (2 * i) as u64) & 3) & ((y >> (2 * i) as u64)
        & 3) && ((x | y) >> (2 * i) as u64) & 3 == ((x >> (2 * i) as u64) & 3) | ((y >> (2
        * i) as u64) & 3)) by (bit_vector)
        requires
            i < 32,
    ;
}

/// Cells of a bitwise and, and of a bitwise or, are taken cell by cell.
pub proof fn lemma_cell_bitwise(x: u64, y: u64, i: int)
    requires
        0 <= i < 32,
    ensures
        cell(x & y, i) == cell(x, i) & cell(y, i),
        cell(x | y, i) == cell(x, i) | cell(y, i),
{
    lemma_cell_bitwise_u64(x, y, i as u64);
}

proof fn lemma_cell_shl1_u64(e: u64, i: u64)
    requires
        i < 32,
        (e >> (2 * i) as u64) & 3 <= 1,
        i == 0 || (e >> (2 * (i - 1)) as u64) & 3 <= 1,
    ensures
        ((e << 1u64) >> (2 * i) as u64) & 3 == ((e >> (2 * i) as u64) & 3) << 1u64,
{
    assert(((e << 1u64) >> (2 * i) as u64) & 3 == ((e >> (2 * i) as u64) & 3) << 1u64)
        by (bit_vector)
        requires
            i < 32,
            (e >> (2 * i) as u64) & 3 <= 1,
            i == 0 || (e >> (2 * (i - 1)) as u64) & 3 <= 1,
    ;
}

/// Moving the low bits of a word whose cells hold 0 or 1 up to the high bits
/// of the same cells.
pub proof fn lemma_cell_shl1(e: u64, i: int)
    requires
        0 <= i < 32,
        low_cells(e),
    ensures
        cell(e << 1u64, i) == cell(e, i) << 1u64,
{
    if i > 0 {
        assert(cell(e, i - 1) <= 1);
    }
    assert(cell(e, i) <= 1);
    lemma_cell_shl1_u64(e, i as u64);
}

proof fn lemma_cell_select_u64(x: u64, m: u64, s: u64, i: u64)
    requires
        i < 32,
        s <= 1,
        (m >> (2 * i) as u64) & 3 <= 1,
    ensures
        (((x >> s) & m) >> (2 * i) as u64) & 3 == ((m >> (2 * i) as u64) & 3) & (((x >> (2
            * i) as u64) & 3) >> s),
{
    assert((((x >> s) & m) >> (2 * i) as u64) & 3 == ((m >> (2 * i) as u64) & 3) & (((x >> (2
        * i) as u64) & 3) >> s)) by (bit_vector)
        requires
            i < 32,
            s <= 1,
            (m >> (2 * i) as u64) & 3 <= 1,
    ;
}

/// Selecting bit `s` of each cell by a mask of low bits.
pub proof fn lemma_cell_select(x: u64, m: u64, s: u64, i: int)
    requires
        0 <= i < 32,
        s <= 1,
        cell(m, i) <= 1,
    ensures
        cell((x >> s) & m, i) == cell(m, i) & (cell(x, i) >> s),
{
    lemma_cell_select_u64(x, m, s, i as u64);
}

} // verus!
