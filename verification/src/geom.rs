//! The logical coordinate space: colors, pixel coordinates and axis-aligned
//! rectangles. Coordinates are never negative; shifts clamp at zero.

use vstd::prelude::*;

verus! {

/// Width of the logical coordinate space, in pixels.
pub const WIDTH: usize = 1920;

/// Height of the logical coordinate space, in pixels.
pub const HEIGHT: usize = 1080;

/// An RGBA8888 pixel.
pub type Color = (u8, u8, u8, u8);

/// A point in the logical framebuffer coordinate space.
pub type FbCoords = (usize, usize);

/// An axis-aligned box in the logical coordinate space.
#[derive(Copy, Clone, Debug)]
pub struct Rect {
    pub x: usize,
    pub y: usize,
    pub w: usize,
    pub h: usize,
}

impl Rect {
    pub fn new(x: usize, y: usize, w: usize, h: usize) -> (r: Rect)
        ensures
            r == (Rect { x, y, w, h }),
    {
        Rect { x, y, w, h }
    }
}

/// What one coordinate becomes under a shift that clamps at zero and,
/// at the far end of the space, saturates at the largest coordinate.
pub open spec fn shifted_coord(initial: int, shift: int) -> int {
    if initial + shift < 0 {
        0
    } else if initial + shift > usize::MAX {
        usize::MAX as int
    } else {
        initial + shift
    }
}

/// Shifts a point by a signed amount, clamping each coordinate at zero so the
/// result never leaves the non-negative coordinate space.
pub fn coord_shift(initial: FbCoords, shifter: (i32, i32)) -> (r: FbCoords)
    ensures
        r.0 == shifted_coord(initial.0 as int, shifter.0 as int),
        r.1 == shifted_coord(initial.1 as int, shifter.1 as int),
{
    (coord_shift_axis(initial.0, shifter.0), coord_shift_axis(initial.1, shifter.1))
}

fn coord_shift_axis(initial: usize, shift: i32) -> (r: usize)
    ensures
        r == shifted_coord(initial as int, shift as int),
{
    if shift >= 0 {
        initial.saturating_add(shift as usize)
    } else {
        let back: usize = if shift == i32::MIN {
            0x8000_0000
        } else {
            (-shift) as usize
        };
        initial.saturating_sub(back)
    }
}

} // verus!
