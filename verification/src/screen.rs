//! Saturating placement of projected coordinates inside a viewport.
//!
//! A projected coordinate arrives as a signed integer, however far outside
//! the viewport it lies. It leaves as the nearest pixel inside the viewport,
//! so that plotting it never writes out of bounds.

use vstd::prelude::*;

verus! {

/// `value`, bounded to the range from `min` to `max`: the lower bound is
/// tested first, so `min` wins where the range is empty and `value` lies
/// below it.
pub open spec fn clamped(value: int, min: int, max: int) -> int {
    if value < min {
        min
    } else if value > max {
        max
    } else {
        value
    }
}

/// The pixel on an axis of `extent` pixels that lies nearest to `raw`. An
/// axis without pixels gives 0.
pub open spec fn pixel_on_axis(raw: int, extent: int) -> int {
    if extent < 1 {
        0
    } else {
        clamped(raw, 0, extent - 1)
    }
}

/// Calls `macroquad::math::clamp` on 64-bit integers. That function returns
/// `min` where `value < min`, else `max` where `value > max`, else `value`.
#[verifier::external_body]
fn clamp(value: i64, min: i64, max: i64) -> (bounded: i64)
    ensures
        bounded == clamped(value as int, min as int, max as int),
{
    macroquad::math::clamp(value, min, max)
}

/// A position on the pixel grid.
#[derive(Clone, Copy, Debug, PartialEq, Eq, Structural)]
pub struct Pixel {
    pub x: u32,
    pub y: u32,
}

/// The size of the pixel grid that is drawn on.
#[derive(Clone, Copy, Debug, PartialEq, Eq, Structural)]
pub struct Viewport {
    pub width: u32,
    pub height: u32,
}

impl Viewport {
    /// `pixel` lies on the grid of this viewport.
    pub open spec fn contains(&self, pixel: Pixel) -> bool {
        pixel.x < self.width && pixel.y < self.height
    }

    /// The pixel nearest to `raw` on an axis of `extent` pixels.
    fn place_on_axis(raw: i64, extent: u32) -> (pixel: u32)
        ensures
            pixel == pixel_on_axis(raw as int, extent as int),
    {
        let bounded: i64 = clamp(raw, 0, extent as i64 - 1);
        if bounded < 0 {
            0
        } else {
            bounded as u32
        }
    }

    /// The pixel nearest to the projected position (`raw_x`, `raw_y`). In a
    /// viewport with at least one column and one row it lies inside the
    /// viewport, however large the raw coordinates are.
    pub fn map_to_screen(&self, raw_x: i64, raw_y: i64) -> (pixel: Pixel)
        ensures
            pixel.x == pixel_on_axis(raw_x as int, self.width as int),
            pixel.y == pixel_on_axis(raw_y as int, self.height as int),
            self.width >= 1 ==> pixel.x <= self.width - 1,
            self.height >= 1 ==> pixel.y <= self.height - 1,
            self.width >= 1 && self.height >= 1 ==> self.contains(pixel),
    {
        Pixel {
            x: Self::place_on_axis(raw_x, self.width),
            y: Self::place_on_axis(raw_y, self.height),
        }
    }
}

} // verus!
