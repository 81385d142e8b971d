//! Image-plane helpers for texture pyramids.
//!
//! Texture coordinate space has its origin at the lower left corner while
//! images arrive with the top row first, so building a pyramid starts by
//! flipping the rows.  The flip is pure computation and lives here; the
//! caching and decoding around it stay with the caller.

use vstd::prelude::*;
use crate::spectrum::RGBSpectrum;

verus! {

/// The flat index of the texel at column `x` of row `y`.
pub open spec fn texel_index(y: int, x: int, width: int) -> int {
    y * width + x
}

/// The image with its rows in reverse order: row `y` of the result is row
/// `height - 1 - y` of the input.
pub fn flip_rows(texels: &Vec<RGBSpectrum>, width: usize, height: usize) -> (r: Vec<
    RGBSpectrum>)
    requires
        texels@.len() == width * height,
    ensures
        r@.len() == texels@.len(),
        forall|y: int, x: int|
            0 <= y < height && 0 <= x < width
                ==> r@[#[trigger] texel_index(y, x, width as int)]
                    == texels@[texel_index(height - 1 - y, x, width as int)],
{
    let total: usize = texels.len();
    let mut out: Vec<RGBSpectrum> = Vec::new();
    let mut y: usize = 0;
    proof {
        assert(width as int * height as int == height as int * width as int)
            by (nonlinear_arith);
    }
    while y < height
        invariant
            texels@.len() == width * height,
            total == texels@.len(),
            width as int * height as int == height as int * width as int,
            y <= height,
            out@.len() == y * width,
            forall|yy: int, x: int|
                0 <= yy < y && 0 <= x < width
                    ==> out@[#[trigger] texel_index(yy, x, width as int)]
                        == texels@[texel_index(height - 1 - yy, x, width as int)],
        decreases height - y,
    {
        let src_row: usize = height - 1 - y;
        let mut x: usize = 0;
        proof {
            assert(y * width + width <= height * width && (y as int + 1) * width as int
                == y * width + width) by (nonlinear_arith)
                requires
                    y < height,
            ;
            assert(src_row * width + width <= height * width && (height as int - 1 - y)
                * width as int == src_row as int * width as int) by (nonlinear_arith)
                requires
                    src_row == height - 1 - y,
                    src_row < height,
            ;
            assert forall|yy: int| 0 <= yy < y implies #[trigger] (yy * width as int)
                + width as int <= y * width as int by {
                assert(yy * width as int + width as int <= y * width as int)
                    by (nonlinear_arith)
                    requires
                        yy < y,
                ;
            }
        }
        while x < width
            invariant
                texels@.len() == width * height,
                total == texels@.len(),
                width as int * height as int == height as int * width as int,
                y < height,
                src_row == height - 1 - y,
                x <= width,
                out@.len() == y * width + x,
                y * width + width <= height * width,
                src_row * width + width <= height * width,
                (height as int - 1 - y) * width as int == src_row as int * width as int,
                forall|yy: int|
                    0 <= yy < y ==> #[trigger] (yy * width as int) + width as int
                        <= y * width as int,
                forall|yy: int, xx: int|
                    0 <= yy < y && 0 <= xx < width
                        ==> out@[#[trigger] texel_index(yy, xx, width as int)]
                            == texels@[texel_index(height - 1 - yy, xx, width as int)],
                forall|xx: int|
                    0 <= xx < x
                        ==> out@[#[trigger] texel_index(y as int, xx, width as int)]
                            == texels@[texel_index(height - 1 - y, xx, width as int)],
            decreases width - x,
        {
            let idx: usize = src_row * width + x;
            let t = texels[idx];
            out.push(t);
            x = x + 1;
        }
        y = y + 1;
    }
    proof {
        assert(out@.len() == texels@.len());
    }
    out
}

} // verus!
