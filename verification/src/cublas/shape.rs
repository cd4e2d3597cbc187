//! How much of a buffer a shape addresses.
//!
//! The vendor library stores matrices column by column. A matrix of `rows`
//! by `cols` elements with leading dimension `ld` has its element `(i, j)` at
//! offset `i + j * ld`, so it reaches `ld * (cols - 1) + rows` elements from
//! its start. A vector of `count` elements with increment `inc` reaches
//! `1 + (count - 1) * |inc|` elements. A batch repeats an operand `batch`
//! times, `stride` elements apart. An operand of which nothing is addressed
//! (no rows, no columns, no batch) has extent zero.
//!
//! The vendor library does not know how long a buffer is. A call whose shape
//! reaches past the end of a buffer reads or writes foreign memory, and no
//! status reports it. The functions here compute the extents exactly, in
//! integers wide enough not to overflow, so that callers can rule that out.

use vstd::prelude::*;

verus! {

/// One of the three operands of a multiplication.
#[derive(Clone, Copy, Debug, PartialEq, Eq, Hash, Structural)]
pub enum Operand {
    /// The first factor.
    A,
    /// The second factor (the vector of a matrix-vector product).
    B,
    /// The output.
    C,
}

/// The number of elements, counted from its first, that a column-major
/// matrix of `rows` by `cols` elements with leading dimension `ld` reaches.
pub open spec fn matrix_extent(rows: int, cols: int, ld: int) -> int {
    if rows <= 0 || cols <= 0 {
        0
    } else {
        ld * (cols - 1) + rows
    }
}

/// The number of elements, counted from its first, that a vector of `count`
/// elements with increment `inc` reaches.
pub open spec fn vector_extent(count: int, inc: int) -> int {
    if count <= 0 {
        0
    } else if inc < 0 {
        1 + (count - 1) * (-inc)
    } else {
        1 + (count - 1) * inc
    }
}

/// Whether `batch` repetitions of an operand of extent `single`, each
/// `stride` elements after the one before, lie within `len` elements.
///
/// Nothing is addressed where there is no repetition or the operand is empty.
/// Otherwise the first repetition must fit, and where there are more, the
/// stride must not step backwards and the last repetition must fit too.
pub open spec fn batch_fits(len: int, single: int, stride: int, batch: int) -> bool {
    batch <= 0 || single <= 0 || (single <= len && (batch == 1 || (stride >= 0 && stride * (batch
        - 1) + single <= len)))
}

/// Computes [`matrix_extent`].
pub fn matrix_span(rows: i32, cols: i32, ld: i32) -> (span: i64)
    ensures
        span == matrix_extent(rows as int, cols as int, ld as int),
{
    if rows <= 0 || cols <= 0 {
        0
    } else {
        let steps: i64 = cols as i64 - 1;
        let wide: i64 = ld as i64;
        assert(-0x4000_0000_0000_0000 <= wide * steps <= 0x4000_0000_0000_0000)
            by (nonlinear_arith)
            requires
                -0x8000_0000 <= wide <= 0x7fff_ffff,
                0 <= steps <= 0x7fff_ffff,
        ;
        wide * steps + rows as i64
    }
}

/// Computes [`vector_extent`].
pub fn vector_span(count: i32, inc: i32) -> (span: i64)
    ensures
        span == vector_extent(count as int, inc as int),
{
    if count <= 0 {
        0
    } else {
        let steps: i64 = count as i64 - 1;
        let wide: i64 = if inc < 0 {
            -(inc as i64)
        } else {
            inc as i64
        };
        assert(0 <= steps * wide <= 0x4000_0000_0000_0000) by (nonlinear_arith)
            requires
                0 <= wide <= 0x8000_0000,
                0 <= steps <= 0x7fff_ffff,
        ;
        1 + steps * wide
    }
}

/// Whether an operand of extent `span` lies within `len` elements.
pub fn span_fits(span: i64, len: usize) -> (fits: bool)
    ensures
        fits == (span <= len),
{
    span <= 0 || (span as u64) <= (len as u64)
}

/// Computes [`batch_fits`].
pub fn batch_span_fits(len: usize, single: i64, stride: i64, batch: i32) -> (fits: bool)
    ensures
        fits == batch_fits(len as int, single as int, stride as int, batch as int),
{
    if batch <= 0 || single <= 0 {
        true
    } else if !span_fits(single, len) {
        false
    } else if batch == 1 {
        true
    } else if stride < 0 {
        false
    } else {
        let steps: i128 = batch as i128 - 1;
        let wide: i128 = stride as i128;
        assert(0 <= wide * steps <= 0x4000_0000_0000_0000_0000_0000) by (nonlinear_arith)
            requires
                0 <= wide <= 0x7fff_ffff_ffff_ffff,
                0 <= steps <= 0x7fff_ffff,
        ;
        wide * steps + single as i128 <= len as i128
    }
}

/// The extent of a matrix is what its elements reach, and no more: where the
/// leading dimension is at least the number of rows, every element lies
/// within the extent, and the last element is the last of the extent.
pub proof fn lemma_matrix_elements_within_extent(rows: int, cols: int, ld: int, i: int, j: int)
    requires
        0 <= i < rows,
        0 <= j < cols,
        rows <= ld,
    ensures
        0 <= i + j * ld < matrix_extent(rows, cols, ld),
        (rows - 1) + (cols - 1) * ld == matrix_extent(rows, cols, ld) - 1,
{
    assert(0 <= j * ld <= (cols - 1) * ld) by (nonlinear_arith)
        requires
            0 <= j <= cols - 1,
            0 <= ld,
    ;
    assert((cols - 1) * ld == ld * (cols - 1)) by (nonlinear_arith);
}

/// The extent of a vector is what its elements reach, and no more: every
/// element lies within the extent, whichever way the increment points, and
/// the element farthest from the start is the last of the extent.
pub proof fn lemma_vector_elements_within_extent(count: int, inc: int, i: int)
    requires
        0 <= i < count,
    ensures
        inc >= 0 ==> 0 <= i * inc < vector_extent(count, inc),
        inc < 0 ==> 0 <= i * (-inc) < vector_extent(count, inc),
        inc >= 0 ==> (count - 1) * inc == vector_extent(count, inc) - 1,
        inc < 0 ==> (count - 1) * (-inc) == vector_extent(count, inc) - 1,
{
    if inc >= 0 {
        assert(0 <= i * inc <= (count - 1) * inc) by (nonlinear_arith)
            requires
                0 <= i <= count - 1,
                0 <= inc,
        ;
    } else {
        assert(0 <= i * (-inc) <= (count - 1) * (-inc)) by (nonlinear_arith)
            requires
                0 <= i <= count - 1,
                0 < -inc,
        ;
    }
}

/// A batch of one is the operand itself: it fits exactly when the operand
/// does, whatever the stride.
pub proof fn lemma_batch_of_one(len: int, single: int, stride: int)
    requires
        0 <= len,
    ensures
        batch_fits(len, single, stride, 1) <==> single <= len,
{
}

/// A batch that fits has every one of its repetitions within the buffer.
pub proof fn lemma_batch_member_fits(len: int, single: int, stride: int, batch: int, index: int)
    requires
        batch_fits(len, single, stride, batch),
        0 <= index < batch,
        0 < single,
    ensures
        0 <= stride * index,
        stride * index + single <= len,
{
    if batch > 1 {
        assert(0 <= stride * index <= stride * (batch - 1)) by (nonlinear_arith)
            requires
                0 <= stride,
                0 <= index <= batch - 1,
        ;
    } else {
        assert(stride * index == 0) by (nonlinear_arith)
            requires
                index == 0,
        ;
    }
}

} // verus!
