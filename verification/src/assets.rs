//! Pixel arithmetic of the asset pipeline that needs whole numbers only.

use vstd::prelude::*;

verus! {

/// A pixel with its colours inverted: each of red, green and blue becomes
/// 255 less itself; the opacity stays.
pub open spec fn inverted(pixel: [u8; 4]) -> Seq<u8> {
    seq![(255 - pixel[0]) as u8, (255 - pixel[1]) as u8, (255 - pixel[2]) as u8, pixel[3]]
}

/// Inverts the colours of a pixel given as red, green, blue and opacity.
pub fn invert_pixel(pixel: [u8; 4]) -> (out: [u8; 4])
    ensures
        out@ == inverted(pixel),
{
    let out = [255 - pixel[0], 255 - pixel[1], 255 - pixel[2], pixel[3]];
    assert(out@ =~= inverted(pixel));
    out
}

/// Inverting a pixel twice gives the pixel back.
pub proof fn lemma_invert_twice(pixel: [u8; 4], once: [u8; 4], twice: [u8; 4])
    requires
        once@ == inverted(pixel),
        twice@ == inverted(once),
    ensures
        twice@ == pixel@,
{
    assert(once[0] == 255 - pixel[0]);
    assert(once[1] == 255 - pixel[1]);
    assert(once[2] == 255 - pixel[2]);
    assert(once[3] == pixel[3]);
    assert(twice@ =~= pixel@);
}

/// Where an image goes on the square canvas that is made for it.
#[derive(Clone, Copy, Debug, PartialEq, Eq)]
pub struct SquareLayout {
    /// The side of the canvas.
    pub size: u32,
    /// The column of the image's left edge.
    pub offset_x: u32,
    /// The row of the image's top edge.
    pub offset_y: u32,
}

/// The square canvas for an image: as wide and high as the longer side of
/// the image, with the image in its middle.
pub fn ensure_square(width: u32, height: u32) -> (layout: SquareLayout)
    ensures
        layout.size == if width >= height {
            width
        } else {
            height
        },
        layout.offset_x == (layout.size - width) / 2,
        layout.offset_y == (layout.size - height) / 2,
        layout.offset_x + width <= layout.size,
        layout.offset_y + height <= layout.size,
{
    let size = if width >= height {
        width
    } else {
        height
    };
    SquareLayout { size, offset_x: (size - width) / 2, offset_y: (size - height) / 2 }
}

} // verus!
