//! Layout of the rendered pixel buffer.
//!
//! The renderer emits one colour per pixel in raster order: row-major, with
//! row `y = 0` at the bottom of the image (image-plane `v = 0`). An image
//! format whose origin is the top-left corner takes the rows in reverse.
use vstd::prelude::*;

verus! {

/// Why a requested image size cannot be rendered.
#[derive(Debug, Clone, Copy, PartialEq, Eq, Structural)]
pub enum SizeError {
    /// Width or height is below two: pixel coordinates are normalised by
    /// `width - 1` and `height - 1`.
    TooSmall,
    /// `width * height` pixels cannot be addressed on this machine.
    TooLarge,
}

/// Position of the pixel `(x, y)` in the raster-ordered buffer.
pub open spec fn raster_index(x: int, y: int, width: int) -> int {
    y * width + x
}

/// The buffer entry at `index` holds pixel `p` of an image `width` by `height`.
pub open spec fn is_pixel_at(p: (u32, u32), index: int, width: int, height: int) -> bool {
    &&& p.0 < width
    &&& p.1 < height
    &&& raster_index(p.0 as int, p.1 as int, width) == index
}

/// Checks that an image of `width` by `height` pixels can be rendered.
pub fn check_size(width: u32, height: u32) -> (r: Result<(), SizeError>)
    ensures
        (width < 2 || height < 2) <==> r == Err::<(), SizeError>(SizeError::TooSmall),
        (width >= 2 && height >= 2 && width * height > usize::MAX) <==> r == Err::<(), SizeError>(
            SizeError::TooLarge,
        ),
        r is Ok <==> (width >= 2 && height >= 2 && width * height <= usize::MAX),
{
    if width < 2 || height < 2 {
        return Err(SizeError::TooSmall);
    }
    assert(width as u64 * height as u64 <= u64::MAX) by (nonlinear_arith)
        requires
            width <= u32::MAX,
            height <= u32::MAX,
    ;
    let n: u64 = width as u64 * height as u64;
    if n > usize::MAX as u64 {
        Err(SizeError::TooLarge)
    } else {
        Ok(())
    }
}

proof fn lemma_index_in_image(x: int, y: int, width: int, height: int)
    requires
        0 <= x < width,
        0 <= y < height,
    ensures
        0 <= raster_index(x, y, width) < width * height,
        raster_index(x, y, width) + 1 <= width * height,
{
    assert(0 <= y * width + x < width * height) by (nonlinear_arith)
        requires
            0 <= x < width,
            0 <= y < height,
    ;
}

/// The pixel stored at `index`: the unique `(x, y)` inside the image whose
/// raster index is `index`.
proof fn lemma_pixel_of_index(index: int, width: int, height: int)
    requires
        width > 0,
        0 <= index < width * height,
    ensures
        0 <= index % width < width,
        0 <= index / width < height,
        raster_index(index % width, index / width, width) == index,
{
    assert(0 <= index / width < height) by (nonlinear_arith)
        requires
            width > 0,
            0 <= index < width * height,
    ;
    assert(index == (index / width) * width + index % width) by (nonlinear_arith)
        requires
            width > 0,
    ;
}

/// Every pixel of a `width` by `height` image, in the order in which the
/// renderer emits their colours.
pub fn raster_pixels(width: u32, height: u32) -> (r: Vec<(u32, u32)>)
    requires
        width * height <= usize::MAX,
    ensures
        r@.len() == width * height,
        forall|i: int| 0 <= i < r@.len() ==> is_pixel_at(#[trigger] r@[i], i, width as int, height as int),
{
    let mut r: Vec<(u32, u32)> = Vec::new();
    let mut y: u32 = 0;
    while y < height
        invariant
            y <= height,
            width * height <= usize::MAX,
            r@.len() == y * width,
            forall|i: int| 0 <= i < r@.len() ==> is_pixel_at(#[trigger] r@[i], i, width as int, height as int),
        decreases height - y,
    {
        let mut x: u32 = 0;
        while x < width
            invariant
                y < height,
                x <= width,
                width * height <= usize::MAX,
                r@.len() == y * width + x,
                forall|i: int| 0 <= i < r@.len() ==> is_pixel_at(#[trigger] r@[i], i, width as int, height as int),
            decreases width - x,
        {
            proof {
                lemma_index_in_image(x as int, y as int, width as int, height as int);
            }
            r.push((x, y));
            x = x + 1;
        }
        assert(y * width + width == (y + 1) * width) by (nonlinear_arith);
        y = y + 1;
    }
    assert(height * width == width * height) by (nonlinear_arith);
    r
}

/// The pixel whose colour stands at `index` of the raster-ordered buffer.
pub fn pixel_at(index: usize, width: u32, height: u32) -> (r: (u32, u32))
    requires
        index < width * height,
    ensures
        is_pixel_at(r, index as int, width as int, height as int),
        r.0 == (index as int) % (width as int),
        r.1 == (index as int) / (width as int),
{
    proof {
        lemma_pixel_of_index(index as int, width as int, height as int);
    }
    let w = width as usize;
    ((index % w) as u32, (index / w) as u32)
}

/// Column and row, counted from the top-left corner, at which the colour at
/// `index` of the raster-ordered buffer is written into an image whose
/// origin is its top-left corner.
pub fn image_position(index: usize, width: u32, height: u32) -> (r: (u32, u32))
    requires
        index < width * height,
    ensures
        r.0 == (index as int) % (width as int),
        r.1 == height - 1 - (index as int) / (width as int),
        r.0 < width,
        r.1 < height,
{
    let p = pixel_at(index, width, height);
    (p.0, height - 1 - p.1)
}

} // verus!
