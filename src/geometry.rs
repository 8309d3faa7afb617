//! Pixel positions, normalized points and the mouse-to-point mapping.

use vstd::prelude::*;

verus! {

/// Half the width of the hosting window, in pixels.
pub const WINDOW_HALF_WIDTH: i64 = 250;

/// Half the height of the hosting window, in pixels.
pub const WINDOW_HALF_HEIGHT: i64 = 250;

/// Horizontal reference extent: a normalized x is a numerator over this.
pub const REFERENCE_WIDTH: i64 = 1920;

/// Vertical reference extent: a normalized y is a numerator over this.
pub const REFERENCE_HEIGHT: i64 = 1080;

/// A position or offset in whole pixels.
#[derive(Clone, Copy, Debug, PartialEq, Eq, Structural)]
pub struct Pixel {
    pub x: i32,
    pub y: i32,
}

/// A point in normalized space, held exactly as
/// `(x / REFERENCE_WIDTH, y / REFERENCE_HEIGHT)`.
#[derive(Clone, Copy, Debug, PartialEq, Eq, Structural)]
pub struct NormPoint {
    pub x: i64,
    pub y: i64,
}

/// Numerator of the normalized x for a cursor at `mouse`, a window whose
/// top-left corner is at `window`, and a marker offset by `origin`.
pub open spec fn mapped_x(mouse: Pixel, window: Pixel, origin: Pixel) -> int {
    (mouse.x - window.x - WINDOW_HALF_WIDTH) + origin.x
}

/// Numerator of the normalized y: screen y grows downward, normalized y
/// grows upward, so the sign is inverted.
pub open spec fn mapped_y(mouse: Pixel, window: Pixel, origin: Pixel) -> int {
    -((mouse.y - window.y - WINDOW_HALF_HEIGHT) + origin.y)
}

/// The normalized point for a cursor at `mouse` in a window at `window`,
/// for a marker offset by `origin`.
pub open spec fn mapped(mouse: Pixel, window: Pixel, origin: Pixel) -> NormPoint {
    NormPoint {
        x: mapped_x(mouse, window, origin) as i64,
        y: mapped_y(mouse, window, origin) as i64,
    }
}

/// Maps an absolute cursor position to the normalized point of a marker:
/// the window-relative position, shifted so that the window's centre is
/// zero, plus the marker's origin, over the reference extents, with y
/// pointing up.
pub fn map_point(mouse: Pixel, window: Pixel, origin: Pixel) -> (r: NormPoint)
    ensures
        r.x == mapped_x(mouse, window, origin),
        r.y == mapped_y(mouse, window, origin),
        r == mapped(mouse, window, origin),
{
    let rel_x: i64 = mouse.x as i64 - window.x as i64 - WINDOW_HALF_WIDTH;
    let rel_y: i64 = mouse.y as i64 - window.y as i64 - WINDOW_HALF_HEIGHT;
    NormPoint { x: rel_x + origin.x as i64, y: -(rel_y + origin.y as i64) }
}

} // verus!
