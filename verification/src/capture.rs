//! Offscreen capture: sizing of the read-back buffer and the vertical row
//! flip that turns the GPU's bottom-to-top row order into the top-to-bottom
//! order of output image formats.

use vstd::arithmetic::div_mod::{
    lemma_fundamental_div_mod_converse_div, lemma_fundamental_div_mod_converse_mod,
};
use vstd::prelude::*;

verus! {

/// The pixel buffer with its rows in reverse order: element `i` of the
/// result comes from the same column of the mirrored row.
pub open spec fn spec_flipped(p: Seq<u8>, width: int, height: int) -> Seq<u8> {
    Seq::new(
        p.len(),
        |i: int|
            {
                let row_size = 4 * width;
                p[(height - 1 - i / row_size) * row_size + i % row_size]
            },
    )
}

/// The byte length of a capture at the given size: 4 bytes per pixel.
/// `Some` exactly when the size is non-negative and the total fits the
/// machine; the driver allocates the read-back buffer from it.
pub fn capture_buffer_len(width: i32, height: i32) -> (r: Option<usize>)
    ensures
        r is Some <==> 0 <= width && 0 <= height && 4 * width * height <= usize::MAX,
        r is Some ==> r.unwrap() == 4 * width * height,
{
    if width < 0 || height < 0 {
        return None;
    }
    let w: u64 = width as u64;
    let h: u64 = height as u64;
    proof {
        assert(4 * w * h <= 4 * 0x7fffffffu64 * 0x7fffffff) by (nonlinear_arith)
            requires
                w <= 0x7fffffff,
                h <= 0x7fffffff,
        ;
    }
    let total: u64 = 4 * w * h;
    if total <= usize::MAX as u64 {
        Some(total as usize)
    } else {
        None
    }
}

/// Reverses the row order of a tightly packed RGBA pixel buffer.
///
/// Row `y` of the result is row `height - 1 - y` of the input, byte for
/// byte: reading the GPU's bottom-to-top buffer through this flip yields
/// the top-to-bottom image, which is what the round-trip between an
/// interactive frame and a captured frame relies on.
pub fn flip_rows(pixels: &Vec<u8>, width: usize, height: usize) -> (r: Vec<u8>)
    requires
        pixels@.len() == 4 * width * height,
    ensures
        r@.len() == pixels@.len(),
        r@ == spec_flipped(pixels@, width as int, height as int),
{
    if width == 0 || height == 0 {
        let r: Vec<u8> = Vec::new();
        proof {
            assert(pixels@.len() == 0) by (nonlinear_arith)
                requires
                    pixels@.len() == 4 * width * height,
                    width == 0 || height == 0,
            ;
            assert(r@ =~= spec_flipped(pixels@, width as int, height as int));
        }
        return r;
    }
    let n: usize = pixels.len();
    proof {
        assert(4 * width <= 4 * width * height) by (nonlinear_arith)
            requires
                1 <= height,
                0 <= width,
        ;
    }
    let row_size: usize = 4 * width;
    let mut out: Vec<u8> = Vec::new();
    let mut y: usize = 0;
    while y < height
        invariant
            row_size == 4 * width,
            1 <= height,
            1 <= width,
            pixels@.len() == 4 * width * height,
            y <= height,
            pixels@.len() <= usize::MAX,
            out@.len() == y * row_size,
            forall|i: int|
                0 <= i < out@.len() ==> out@[i] == pixels@[(height - 1 - i / (row_size as int))
                    * (row_size as int) + i % (row_size as int)],
        decreases height - y,
    {
        let mut x: usize = 0;
        proof {
            assert((y + 1) * row_size <= height * row_size) by (nonlinear_arith)
                requires
                    y + 1 <= height,
                    0 <= row_size,
            ;
            assert(height * row_size == 4 * width * height) by (nonlinear_arith)
                requires
                    row_size == 4 * width,
            ;
        }
        while x < row_size
            invariant
                row_size == 4 * width,
                1 <= height,
                1 <= width,
                pixels@.len() == 4 * width * height,
                y < height,
                x <= row_size,
                pixels@.len() <= usize::MAX,
                (y + 1) * row_size <= pixels@.len(),
                out@.len() == y * row_size + x,
                forall|i: int|
                    0 <= i < out@.len() ==> out@[i] == pixels@[(height - 1 - i / (
                    row_size as int)) * (row_size as int) + i % (row_size as int)],
            decreases row_size - x,
        {
            proof {
                assert((height - 1 - y) * row_size + x < height * row_size) by (nonlinear_arith)
                    requires
                        0 <= y < height,
                        0 <= x < row_size,
                ;
                assert(height * row_size == 4 * width * height) by (nonlinear_arith)
                    requires
                        row_size == 4 * width,
                ;
                assert((height - 1 - y) * row_size + x < pixels@.len());
            }
            let src_index: usize = (height - 1 - y) * row_size + x;
            let b = pixels[src_index];
            out.push(b);
            proof {
                let i0 = y * (row_size as int) + x;
                lemma_fundamental_div_mod_converse_div(
                    i0,
                    row_size as int,
                    y as int,
                    x as int,
                );
                lemma_fundamental_div_mod_converse_mod(
                    i0,
                    row_size as int,
                    y as int,
                    x as int,
                );
                assert(out@[i0] == pixels@[(height - 1 - i0 / (row_size as int)) * (
                row_size as int) + i0 % (row_size as int)]);
            }
            x += 1;
        }
        proof {
            assert(y * row_size + row_size == (y + 1) * row_size) by (nonlinear_arith);
        }
        y += 1;
    }
    proof {
        assert(height * row_size == 4 * width * height) by (nonlinear_arith)
            requires
                row_size == 4 * width,
        ;
        assert(out@ =~= spec_flipped(pixels@, width as int, height as int));
    }
    out
}

/// Round-trip orientation: in the flipped buffer, byte `x` of row `y` is
/// byte `x` of row `height - 1 - y` of the original — row 0 of a capture
/// read through the flip is the top row of the rendered frame.
pub proof fn lemma_flip_rows_orientation(p: Seq<u8>, width: int, height: int, y: int, x: int)
    requires
        p.len() == 4 * width * height,
        0 <= y < height,
        0 <= x < 4 * width,
    ensures
        spec_flipped(p, width, height)[y * (4 * width) + x] == p[(height - 1 - y) * (4 * width)
            + x],
{
    let row_size = 4 * width;
    let i0 = y * row_size + x;
    assert(0 <= i0 && i0 < p.len()) by (nonlinear_arith)
        requires
            p.len() == height * row_size,
            0 <= y < height,
            0 <= x < row_size,
            i0 == y * row_size + x,
    ;
    lemma_fundamental_div_mod_converse_div(i0, row_size, y, x);
    lemma_fundamental_div_mod_converse_mod(i0, row_size, y, x);
}

/// Flipping twice gives the original buffer back.
pub proof fn lemma_flip_rows_involution(p: Seq<u8>, width: int, height: int)
    requires
        p.len() == 4 * width * height,
        0 <= width,
        0 <= height,
    ensures
        spec_flipped(spec_flipped(p, width, height), width, height) == p,
{
    let row_size = 4 * width;
    let f1 = spec_flipped(p, width, height);
    let f2 = spec_flipped(f1, width, height);
    assert(p.len() == height * row_size) by (nonlinear_arith)
        requires
            p.len() == 4 * width * height,
            row_size == 4 * width,
    ;
    assert forall|i: int| 0 <= i < p.len() implies f2[i] == p[i] by {
        assert(0 < row_size) by (nonlinear_arith)
            requires
                0 <= row_size,
                0 <= height,
                p.len() == height * row_size,
                0 <= i < p.len(),
        ;
        let y = i / row_size;
        let x = i % row_size;
        vstd::arithmetic::div_mod::lemma_fundamental_div_mod(i, row_size);
        assert(0 <= x < row_size) by {
            vstd::arithmetic::div_mod::lemma_mod_bound(i, row_size);
        }
        assert(0 <= y < height) by (nonlinear_arith)
            requires
                p.len() == height * row_size,
                0 < row_size,
                i == y * row_size + x,
                0 <= x < row_size,
                0 <= i < p.len(),
        ;
        let j = (height - 1 - y) * row_size + x;
        assert(0 <= j < p.len()) by (nonlinear_arith)
            requires
                p.len() == height * row_size,
                0 <= height - 1 - y < height,
                0 <= x < row_size,
                j == (height - 1 - y) * row_size + x,
        ;
        lemma_fundamental_div_mod_converse_div(j, row_size, height - 1 - y, x);
        lemma_fundamental_div_mod_converse_mod(j, row_size, height - 1 - y, x);
        assert(f2[i] == f1[j]);
        assert(f1[j] == p[(height - 1 - (height - 1 - y)) * row_size + x]);
        assert(height - 1 - (height - 1 - y) == y);
        assert(f2[i] == p[i]) by (nonlinear_arith)
            requires
                f2[i] == p[y * row_size + x],
                i == y * row_size + x,
        ;
    }
    assert(f2 =~= p);
}

} // verus!
