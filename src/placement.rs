//! Placement of the companion overlay at the bottom-right corner of the
//! primary display.
use vstd::prelude::*;

verus! {

/// Fixed width of the companion window, in logical units.
pub const COMPANION_WIDTH: u32 = 250;

/// Fixed height of the companion window, in logical units.
pub const COMPANION_HEIGHT: u32 = 280;

/// Gap left between the companion window and the display edges.
pub const COMPANION_MARGIN: u32 = 20;

/// Top-left x coordinate that anchors the companion to the right edge.
pub open spec fn placed_x(screen_width: int) -> int {
    screen_width - COMPANION_WIDTH - COMPANION_MARGIN
}

/// Top-left y coordinate that anchors the companion to the bottom edge.
pub open spec fn placed_y(screen_height: int) -> int {
    screen_height - COMPANION_HEIGHT - COMPANION_MARGIN
}

/// Top-left position of the companion window on a display of the given
/// pixel size.
pub fn companion_position(screen_width: u32, screen_height: u32) -> (r: (i64, i64))
    ensures
        r.0 == placed_x(screen_width as int),
        r.1 == placed_y(screen_height as int),
{
    let x: i64 = screen_width as i64 - COMPANION_WIDTH as i64 - COMPANION_MARGIN as i64;
    let y: i64 = screen_height as i64 - COMPANION_HEIGHT as i64 - COMPANION_MARGIN as i64;
    (x, y)
}

} // verus!
