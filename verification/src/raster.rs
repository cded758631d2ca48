//! Pixel-grid enumeration for the render loop.
//!
//! Rendering fans each pixel out to an independent task; the tasks may finish
//! in any order, so the output buffer is indexed by pixel position and the
//! coordinate list must enumerate the image in raster order (row-major,
//! top-to-bottom).  These functions pin that order down exactly.

use vstd::prelude::*;

verus! {

/// The buffer index of pixel `(i, j)` in an image `width` pixels wide,
/// row-major with row 0 on top.
pub open spec fn spec_pixel_index(i: int, j: int, width: int) -> int {
    j * width + i
}

/// A render must fail fast on an invalid configuration rather than produce a
/// black or garbage image: the image needs at least one pixel column, one
/// sample per pixel and one bounce of budget.
pub fn valid_render_config(image_width: u64, samples_per_pixel: u64, max_depth: u64) -> (r: bool)
    ensures
        r <==> (image_width > 0 && samples_per_pixel > 0 && max_depth > 0),
{
    image_width > 0 && samples_per_pixel > 0 && max_depth > 0
}

/// Total number of primary-ray samples of a render:
/// one batch of `samples_per_pixel` for each of the `width * height` pixels.
pub fn total_sample_count(width: u64, height: u64, samples_per_pixel: u64) -> (r: u64)
    requires
        width * height * samples_per_pixel <= u64::MAX,
    ensures
        r == width * height * samples_per_pixel,
{
    if samples_per_pixel == 0 {
        0
    } else {
        proof {
            assert(width * height <= u64::MAX) by (nonlinear_arith)
                requires
                    width * height * samples_per_pixel <= u64::MAX,
                    0 <= width,
                    0 <= height,
                    1 <= samples_per_pixel,
            ;
        }
        width * height * samples_per_pixel
    }
}

/// Enumerates the pixel coordinates of a `width` by `height` image in raster
/// order: `(i, j)` sits at index `j * width + i`, so row 0 comes first and
/// each row runs left to right.  Render tasks are spawned in this order and
/// their colors collected back into a buffer with the same indexing, so the
/// output order does not depend on the order in which tasks finish.
pub fn pixel_coords(width: u64, height: u64) -> (r: Vec<(u64, u64)>)
    requires
        width * height <= usize::MAX as u64,
    ensures
        r@.len() == width * height,
        forall|p: int, q: int|
            0 <= p < width && 0 <= q < height ==> r@[spec_pixel_index(p, q, width as int)] == (
            p as u64,
            q as u64,
            ),
{
    let mut r: Vec<(u64, u64)> = Vec::new();
    let mut j: u64 = 0;
    while j < height
        invariant
            j <= height,
            width * height <= usize::MAX as u64,
            r@.len() == j * width,
            forall|p: int, q: int|
                0 <= p < width && 0 <= q < j ==> r@[spec_pixel_index(p, q, width as int)] == (
                p as u64,
                q as u64,
                ),
        decreases height - j,
    {
        let mut i: u64 = 0;
        proof {
            assert((j + 1) * width <= height * width) by (nonlinear_arith)
                requires
                    j < height,
                    0 <= width,
            ;
            assert(height * width == width * height) by (nonlinear_arith);
        }
        while i < width
            invariant
                i <= width,
                j < height,
                width * height <= usize::MAX as u64,
                (j + 1) * width <= width * height,
                r@.len() == j * width + i,
                forall|p: int, q: int|
                    0 <= p < width && 0 <= q < j ==> r@[spec_pixel_index(p, q, width as int)] == (
                    p as u64,
                    q as u64,
                    ),
                forall|p: int|
                    0 <= p < i ==> r@[spec_pixel_index(p, j as int, width as int)] == (
                    p as u64,
                    j,
                    ),
            decreases width - i,
        {
            proof {
                assert(j * width + i < (j + 1) * width) by (nonlinear_arith)
                    requires
                        i < width,
                        0 <= j,
                ;
                assert forall|p: int, q: int| 0 <= p < width && 0 <= q < j implies 0 <= #[trigger] spec_pixel_index(p, q, width as int) < j * width by {
                    assert(0 <= q * width + p < j * width) by (nonlinear_arith)
                        requires
                            0 <= p < width,
                            0 <= q < j,
                    ;
                }
            }
            r.push((i, j));
            i += 1;
        }
        proof {
            assert(j * width + width == (j + 1) * width) by (nonlinear_arith);
        }
        j += 1;
    }
    proof {
        assert(height * width == width * height) by (nonlinear_arith);
    }
    r
}

/// Distinct pixels never share a buffer slot: the raster index is injective,
/// so a render that writes each task's color to its own pixel's index loses
/// no sample and keeps raster order, whatever order the tasks finish in.
pub proof fn lemma_raster_index_injective(width: int, i1: int, j1: int, i2: int, j2: int)
    requires
        0 <= i1 < width,
        0 <= i2 < width,
        0 <= j1,
        0 <= j2,
        (i1, j1) != (i2, j2),
    ensures
        spec_pixel_index(i1, j1, width) != spec_pixel_index(i2, j2, width),
{
    if j1 == j2 {
    } else if j1 < j2 {
        assert(j1 * width + i1 < j2 * width + i2) by (nonlinear_arith)
            requires
                j1 < j2,
                0 <= i1 < width,
                0 <= i2,
        ;
    } else {
        assert(j2 * width + i2 < j1 * width + i1) by (nonlinear_arith)
            requires
                j2 < j1,
                0 <= i2 < width,
                0 <= i1,
        ;
    }
}

} // verus!
