//! Per-pixel random seeds.
//!
//! Every pixel draws its samples from a random source of its own, seeded
//! from the render's base seed and the pixel's raster index. The same base
//! seed therefore reproduces every pixel exactly, in whatever order the
//! pixels are computed, and no two pixels of one image share a seed.
use vstd::prelude::*;
use crate::raster::raster_index;

verus! {

/// Seed of pixel `(x, y)` of an image `width` pixels wide.
pub open spec fn seed_of(base: u64, x: u32, y: u32, width: u32) -> u64 {
    base ^ (raster_index(x as int, y as int, width as int) as u64)
}

proof fn lemma_index_fits(x: u32, y: u32, width: u32)
    requires
        x < width,
    ensures
        0 <= raster_index(x as int, y as int, width as int) <= u64::MAX,
{
    assert(0 <= (y as int) * (width as int) + (x as int) <= u64::MAX) by (nonlinear_arith)
        requires
            x < width,
            y <= u32::MAX,
            width <= u32::MAX,
    ;
}

/// Seed of the random source for pixel `(x, y)` of an image `width` pixels
/// wide, rendered with base seed `base`.
pub fn pixel_seed(base: u64, x: u32, y: u32, width: u32) -> (r: u64)
    requires
        x < width,
    ensures
        r == seed_of(base, x, y, width),
{
    proof {
        lemma_index_fits(x, y, width);
    }
    let index: u64 = y as u64 * width as u64 + x as u64;
    base ^ index
}

/// Two different pixels of one image never share a seed.
pub proof fn lemma_pixel_seeds_distinct(base: u64, width: u32, x1: u32, y1: u32, x2: u32, y2: u32)
    requires
        x1 < width,
        x2 < width,
        x1 != x2 || y1 != y2,
    ensures
        seed_of(base, x1, y1, width) != seed_of(base, x2, y2, width),
{
    lemma_index_fits(x1, y1, width);
    lemma_index_fits(x2, y2, width);
    let i1 = raster_index(x1 as int, y1 as int, width as int);
    let i2 = raster_index(x2 as int, y2 as int, width as int);
    if y1 == y2 {
        assert(i1 != i2);
    } else if y1 < y2 {
        assert((y1 as int) * (width as int) + (x1 as int) < (y2 as int) * (width as int) + (x2 as int)) by (nonlinear_arith)
            requires
                y1 < y2,
                x1 < width,
        ;
    } else {
        assert((y2 as int) * (width as int) + (x2 as int) < (y1 as int) * (width as int) + (x1 as int)) by (nonlinear_arith)
            requires
                y2 < y1,
                x2 < width,
        ;
    }
    let a = i1 as u64;
    let b = i2 as u64;
    assert(a != b);
    assert(base ^ a != base ^ b) by (bit_vector)
        requires
            a != b,
    ;
}

} // verus!
