//! Placement of a response surface near a captured pointer location.
//!
//! The calculator prefers the space to the right of the pointer, vertically
//! centered on it, and flips or clamps whenever an edge of the surface would
//! leave the screen by less than a fixed margin.

use vstd::prelude::*;

verus! {

/// Fixed margin, in pixels, kept between the placed surface and the screen edges.
pub const PLACEMENT_MARGIN: i32 = 20;

/// The metrics-free default placement: left edge just right of the pointer,
/// vertically centered on it, with no boundary correction.
pub open spec fn spec_default_position(mouse_x: int, mouse_y: int, window_height: int) -> (int, int) {
    (mouse_x + PLACEMENT_MARGIN, mouse_y - window_height / 2)
}

/// The boundary-corrected placement on a screen of the given size.
///
/// Horizontally: start right of the pointer; flip to the left side when the
/// right edge would cross `screen_width - margin`; clamp to the margin.
/// Vertically: center on the pointer; flip above when the bottom edge would
/// cross `screen_height - margin`; clamp to the margin.
pub open spec fn spec_smart_position(
    mouse_x: int,
    mouse_y: int,
    window_width: int,
    window_height: int,
    screen_width: int,
    screen_height: int,
) -> (int, int) {
    let x0 = mouse_x + PLACEMENT_MARGIN;
    let x1 = if x0 + window_width > screen_width - PLACEMENT_MARGIN {
        mouse_x - window_width - PLACEMENT_MARGIN
    } else {
        x0
    };
    let x2 = if x1 < PLACEMENT_MARGIN {
        PLACEMENT_MARGIN as int
    } else {
        x1
    };
    let y0 = mouse_y - window_height / 2;
    let y1 = if y0 + window_height > screen_height - PLACEMENT_MARGIN {
        mouse_y - window_height - PLACEMENT_MARGIN
    } else {
        y0
    };
    let y2 = if y1 < PLACEMENT_MARGIN {
        PLACEMENT_MARGIN as int
    } else {
        y1
    };
    (x2, y2)
}

/// Inputs for which the on-screen guarantee below is meaningful: the surface
/// plus both margins fits on the screen, and the pointer lies on the screen.
pub open spec fn placement_inputs_valid(
    mouse_x: int,
    mouse_y: int,
    window_width: int,
    window_height: int,
    screen_width: int,
    screen_height: int,
) -> bool {
    &&& 0 < window_width
    &&& 0 < window_height
    &&& window_width + 2 * PLACEMENT_MARGIN <= screen_width
    &&& window_height + 2 * PLACEMENT_MARGIN <= screen_height
    &&& 0 <= mouse_x <= screen_width
    &&& 0 <= mouse_y <= screen_height
}

/// Computes where to place a surface of the given size so that it stays on
/// the screen with `PLACEMENT_MARGIN` to spare, preferring the right of the
/// pointer and vertical centering.
pub fn calculate_smart_position(
    mouse_x: i32,
    mouse_y: i32,
    window_width: i32,
    window_height: i32,
    screen_width: i32,
    screen_height: i32,
) -> (pos: (i32, i32))
    requires
        0 <= window_width,
        0 <= window_height,
        mouse_x + PLACEMENT_MARGIN <= i32::MAX,
        i32::MIN <= mouse_x - window_width - PLACEMENT_MARGIN,
        i32::MIN <= mouse_y - window_height - PLACEMENT_MARGIN,
    ensures
        (pos.0 as int, pos.1 as int) == spec_smart_position(
            mouse_x as int,
            mouse_y as int,
            window_width as int,
            window_height as int,
            screen_width as int,
            screen_height as int,
        ),
        placement_inputs_valid(
            mouse_x as int,
            mouse_y as int,
            window_width as int,
            window_height as int,
            screen_width as int,
            screen_height as int,
        ) ==> {
            &&& PLACEMENT_MARGIN <= pos.0
            &&& pos.0 + window_width <= screen_width - PLACEMENT_MARGIN
            &&& PLACEMENT_MARGIN <= pos.1
            &&& pos.1 + window_height <= screen_height - PLACEMENT_MARGIN
        },
{
    let margin: i32 = PLACEMENT_MARGIN;
    let mut x: i32 = mouse_x + margin;
    let mut y: i32 = mouse_y - window_height / 2;

    if (x as i64) + (window_width as i64) > (screen_width as i64) - (margin as i64) {
        x = mouse_x - window_width - margin;
    }
    if x < margin {
        x = margin;
    }

    if (y as i64) + (window_height as i64) > (screen_height as i64) - (margin as i64) {
        y = mouse_y - window_height - margin;
    }
    if y < margin {
        y = margin;
    }

    (x, y)
}

/// The fallback used where no screen metrics can be queried: the default
/// placement, right of the pointer and vertically centered, unclamped.
pub fn default_position(mouse_x: i32, mouse_y: i32, window_height: i32) -> (pos: (i32, i32))
    requires
        0 <= window_height,
        mouse_x + PLACEMENT_MARGIN <= i32::MAX,
        i32::MIN <= mouse_y - window_height / 2,
    ensures
        (pos.0 as int, pos.1 as int) == spec_default_position(
            mouse_x as int,
            mouse_y as int,
            window_height as int,
        ),
{
    (mouse_x + PLACEMENT_MARGIN, mouse_y - window_height / 2)
}

} // verus!
