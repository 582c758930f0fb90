//! Row layout of image byte buffers: a host or staging buffer holds `rows`
//! rows of `stride` bytes each, of which the first `row_bytes` are pixel
//! data and the rest is backend alignment padding. The functions here strip
//! that padding into the tightly packed form the rest of the pipeline works
//! on, and size padded rows for backends that require aligned strides.

use vstd::prelude::*;
use vstd::arithmetic::div_mod::{
    lemma_fundamental_div_mod,
    lemma_fundamental_div_mod_converse,
    lemma_mod_bound,
};

verus! {

/// The tightly packed pixel bytes of a buffer laid out row by row with
/// `stride` bytes per row, of which the first `row_bytes` carry pixels.
pub open spec fn packed_rows(padded: Seq<u8>, row_bytes: int, stride: int, rows: int) -> Seq<u8>
    recommends
        0 < row_bytes <= stride,
        rows >= 0,
        padded.len() == rows * stride,
{
    Seq::new((rows * row_bytes) as nat, |i: int| padded[(i / row_bytes) * stride + i % row_bytes])
}

/// A buffer whose rows carry no padding is already tightly packed: stripping
/// with `stride == row_bytes` returns it byte for byte.
pub proof fn lemma_packed_rows_tight(buf: Seq<u8>, row_bytes: int, rows: int)
    requires
        row_bytes > 0,
        rows >= 0,
        buf.len() == rows * row_bytes,
    ensures
        packed_rows(buf, row_bytes, row_bytes, rows) == buf,
{
    let packed = packed_rows(buf, row_bytes, row_bytes, rows);
    assert forall|i: int| 0 <= i < buf.len() implies packed[i] == buf[i] by {
        lemma_fundamental_div_mod(i, row_bytes);
        lemma_mod_bound(i, row_bytes);
        assert((i / row_bytes) * row_bytes + i % row_bytes == i);
    }
    assert(packed =~= buf);
}

/// Strips backend row padding out of `padded`, which holds `height` rows of
/// `stride` bytes for an image `width` pixels wide at four bytes per pixel,
/// and returns the tightly packed pixel bytes.
pub fn strip_row_padding(padded: &Vec<u8>, width: u32, height: u32, stride: usize) -> (r: Vec<u8>)
    requires
        width > 0,
        4 * width <= stride,
        padded@.len() == height * stride,
    ensures
        r@ == packed_rows(padded@, 4 * width as int, stride as int, height as int),
{
    let row_bytes: usize = 4 * (width as usize);
    let total: usize = padded.len();
    let mut out: Vec<u8> = Vec::new();
    let mut row: usize = 0;
    while row < height as usize
        invariant
            width > 0,
            total == padded@.len(),
            row_bytes == 4 * width,
            row_bytes <= stride,
            row <= height,
            padded@.len() == height * stride,
            out@.len() == row * row_bytes,
            forall|i: int|
                0 <= i < out@.len() ==> out@[i] == padded@[(i / (row_bytes as int)) * stride
                    + i % (row_bytes as int)],
        decreases height - row,
    {
        let mut col: usize = 0;
        while col < row_bytes
            invariant
                width > 0,
                total == padded@.len(),
                row_bytes == 4 * width,
                row_bytes <= stride,
                row < height,
                col <= row_bytes,
                padded@.len() == height * stride,
                out@.len() == row * row_bytes + col,
                forall|i: int|
                    0 <= i < out@.len() ==> out@[i] == padded@[(i / (row_bytes as int)) * stride
                        + i % (row_bytes as int)],
            decreases row_bytes - col,
        {
            proof {
                assert(row * stride + col < height * stride) by (nonlinear_arith)
                    requires
                        row < height,
                        col < stride,
                        stride > 0,
                ;
                lemma_fundamental_div_mod_converse(
                    (row * row_bytes + col) as int,
                    row_bytes as int,
                    row as int,
                    col as int,
                );
            }
            let b: u8 = padded[row * stride + col];
            out.push(b);
            col = col + 1;
        }
        row = row + 1;
        proof {
            assert((row - 1) * row_bytes + row_bytes == row * row_bytes) by (nonlinear_arith);
        }
    }
    proof {
        assert(out@ =~= packed_rows(padded@, 4 * width as int, stride as int, height as int));
    }
    out
}

/// The smallest row stride that both holds a row of `width` pixels at four
/// bytes per pixel and is a multiple of `alignment`, as backends require of
/// staging-buffer rows.
pub fn aligned_row_stride(width: u32, alignment: usize) -> (r: usize)
    requires
        width > 0,
        alignment > 0,
        4 * width + alignment <= usize::MAX,
    ensures
        r % alignment == 0,
        r >= 4 * width,
        r < 4 * width + alignment,
{
    let row_bytes: usize = 4 * (width as usize);
    let blocks: usize = (row_bytes + alignment - 1) / alignment;
    proof {
        lemma_fundamental_div_mod((row_bytes + alignment - 1) as int, alignment as int);
        lemma_mod_bound((row_bytes + alignment - 1) as int, alignment as int);
        let q = (row_bytes + alignment - 1) as int / alignment as int;
        assert(q * alignment == alignment * q);
        assert(q * alignment <= row_bytes + alignment - 1);
        lemma_fundamental_div_mod_converse(q * alignment, alignment as int, q, 0);
    }
    blocks * alignment
}

} // verus!
