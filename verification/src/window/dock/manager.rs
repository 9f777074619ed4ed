use vstd::prelude::*;

use crate::window::dock::position::{Position, opposite_spec};
use crate::window::rect::{Point, Rect, fits_i32, fits_sum2, fits_sum3, half_toward_zero};
use crate::window::window_transform::{WindowTransform, rect_transform_spec};

verus! {

/// The window-style bit that marks a window as maximizable (`WS_MAXIMIZEBOX`).
pub const WS_MAXIMIZEBOX: i32 = 0x0001_0000i32;

/// A window whose style carries the maximize box is one that may be resized.
pub open spec fn can_be_transformed_spec(window_style: i32) -> bool {
    window_style & WS_MAXIMIZEBOX != 0
}

/// Offsets between the visible frame (`shadow_rect`) and the full window
/// rectangle, as `(pos_x, pos_y, size_x, size_y)`.
pub open spec fn shadow_offsets_spec(window_rect: Rect, shadow_rect: Rect) -> (int, int, int, int) {
    let pos_x = window_rect.left - shadow_rect.left;
    let pos_y = window_rect.top - shadow_rect.top;
    (pos_x, pos_y, window_rect.right - shadow_rect.right - pos_x, window_rect.bottom
        - shadow_rect.bottom - pos_y)
}

/// Every intermediate value of the shadow offsets fits in `i32`.
pub open spec fn shadow_offsets_in_range(window_rect: Rect, shadow_rect: Rect) -> bool {
    let pos_x = window_rect.left - shadow_rect.left;
    let pos_y = window_rect.top - shadow_rect.top;
    &&& fits_i32(pos_x)
    &&& fits_i32(pos_y)
    &&& fits_sum2(window_rect.right - shadow_rect.right, -pos_x)
    &&& fits_i32(window_rect.right - shadow_rect.right)
    &&& fits_sum2(window_rect.bottom - shadow_rect.bottom, -pos_y)
    &&& fits_i32(window_rect.bottom - shadow_rect.bottom)
}

/// The placement a window has before it is docked, computed from its window
/// and frame bounds and the shadow offsets.
pub open spec fn initial_transform_spec(
    window_bounds: Rect,
    shadow_bounds: Rect,
    offsets: (int, int, int, int),
) -> (int, int, int, int) {
    (
        window_bounds.left as int,
        window_bounds.top as int,
        shadow_bounds.right - window_bounds.left + offsets.2 + offsets.0,
        shadow_bounds.bottom - window_bounds.top + offsets.3 + offsets.1,
    )
}

pub open spec fn initial_transform_in_range(
    window_bounds: Rect,
    shadow_bounds: Rect,
    offsets: (int, int, int, int),
) -> bool {
    &&& fits_i32(shadow_bounds.right - window_bounds.left)
    &&& fits_sum3(shadow_bounds.right - window_bounds.left, offsets.2, offsets.0)
    &&& fits_i32(shadow_bounds.bottom - window_bounds.top)
    &&& fits_sum3(shadow_bounds.bottom - window_bounds.top, offsets.3, offsets.1)
}

/// The corrections applied to a docked placement when the window has a
/// shadow offset: one pixel to the left and one pixel larger.
pub open spec fn corrections_spec(has_shadow_offset: bool) -> (int, int, int, int) {
    if has_shadow_offset {
        (-1, 0, 1, 1)
    } else {
        (0, 0, 0, 0)
    }
}

/// The placement that docks a window to `dock_position` of the screen area
/// `screen`, given the window's shadow offsets.
pub open spec fn dock_position_spec(
    dock_position: Position,
    screen: (int, int, int, int),
    offsets: (int, int, int, int),
) -> (int, int, int, int) {
    let c = corrections_spec(offsets.0 != 0);
    let half_x = half_toward_zero(screen.2);
    let half_y = half_toward_zero(screen.3);
    match dock_position {
        Position::Left => (
            screen.0 + offsets.0 + c.0,
            screen.1 + offsets.1,
            half_x + offsets.2 + c.2 * 2,
            screen.3 + offsets.3 + c.3,
        ),
        Position::Right => (
            screen.0 + half_x + offsets.0,
            screen.1 + offsets.1,
            half_x + offsets.2 + c.2,
            screen.3 + offsets.3 + c.3,
        ),
        Position::Top => (
            screen.0 + offsets.0 + c.0,
            screen.1 + offsets.1,
            screen.2 + offsets.2 + c.2 * 2,
            half_y + offsets.3 + c.3,
        ),
        Position::Bottom => (
            screen.0 + offsets.0 + c.0,
            screen.1 + half_y + offsets.1,
            screen.2 + offsets.2 + c.2 * 2,
            half_y + offsets.3 + c.3,
        ),
        Position::Full => (
            screen.0 + offsets.0 + c.0,
            screen.1 + offsets.1,
            screen.2 + offsets.2 + c.2 * 2,
            screen.3 + offsets.3 + c.3,
        ),
    }
}

/// Every intermediate sum of `dock_position_spec` fits in `i32`.
pub open spec fn dock_position_in_range(
    dock_position: Position,
    screen: (int, int, int, int),
    offsets: (int, int, int, int),
) -> bool {
    let c = corrections_spec(offsets.0 != 0);
    let half_x = half_toward_zero(screen.2);
    let half_y = half_toward_zero(screen.3);
    match dock_position {
        Position::Left => {
            &&& fits_sum3(screen.0, offsets.0, c.0)
            &&& fits_sum2(screen.1, offsets.1)
            &&& fits_sum3(half_x, offsets.2, c.2 * 2)
            &&& fits_sum3(screen.3, offsets.3, c.3)
        },
        Position::Right => {
            &&& fits_sum3(screen.0, half_x, offsets.0)
            &&& fits_sum2(screen.1, offsets.1)
            &&& fits_sum3(half_x, offsets.2, c.2)
            &&& fits_sum3(screen.3, offsets.3, c.3)
        },
        Position::Top => {
            &&& fits_sum3(screen.0, offsets.0, c.0)
            &&& fits_sum2(screen.1, offsets.1)
            &&& fits_sum3(screen.2, offsets.2, c.2 * 2)
            &&& fits_sum3(half_y, offsets.3, c.3)
        },
        Position::Bottom => {
            &&& fits_sum3(screen.0, offsets.0, c.0)
            &&& fits_sum3(screen.1, half_y, offsets.1)
            &&& fits_sum3(screen.2, offsets.2, c.2 * 2)
            &&& fits_sum3(half_y, offsets.3, c.3)
        },
        Position::Full => {
            &&& fits_sum3(screen.0, offsets.0, c.0)
            &&& fits_sum2(screen.1, offsets.1)
            &&& fits_sum3(screen.2, offsets.2, c.2 * 2)
            &&& fits_sum3(screen.3, offsets.3, c.3)
        },
    }
}

/// The screen area of a monitor's work area fits in `i32`.
pub open spec fn work_area_in_range(work_area: Rect) -> bool {
    fits_i32(work_area.right - work_area.left) && fits_i32(work_area.bottom - work_area.top)
}

/// The placement that a dock request for `dock_position` gives a window: the
/// docked placement, or, where the window already has exactly that placement,
/// the placement on the opposite side of the screen.
pub open spec fn dock_change_spec(
    window_bounds: Rect,
    shadow_bounds: Rect,
    work_area: Rect,
    dock_position: Position,
) -> (int, int, int, int) {
    let offsets = shadow_offsets_spec(window_bounds, shadow_bounds);
    let initial = initial_transform_spec(window_bounds, shadow_bounds, offsets);
    let screen = rect_transform_spec(work_area);
    let docked = dock_position_spec(dock_position, screen, offsets);
    if docked == initial && opposite_spec(dock_position) is Some {
        dock_position_spec(opposite_spec(dock_position)->0, screen, offsets)
    } else {
        docked
    }
}

/// The inputs on which a dock request computes a placement: no intermediate
/// value overflows, and a window already docked at `dock_position` is not
/// also already docked at the opposite position (where the request would
/// alternate between the two sides forever).
pub open spec fn dock_change_defined(
    window_bounds: Rect,
    shadow_bounds: Rect,
    work_area: Rect,
    dock_position: Position,
) -> bool {
    let offsets = shadow_offsets_spec(window_bounds, shadow_bounds);
    let initial = initial_transform_spec(window_bounds, shadow_bounds, offsets);
    let screen = rect_transform_spec(work_area);
    let docked = dock_position_spec(dock_position, screen, offsets);
    &&& shadow_offsets_in_range(window_bounds, shadow_bounds)
    &&& initial_transform_in_range(window_bounds, shadow_bounds, offsets)
    &&& work_area_in_range(work_area)
    &&& dock_position_in_range(dock_position, screen, offsets)
    &&& (docked == initial && opposite_spec(dock_position) is Some) ==> {
        let opposite = opposite_spec(dock_position)->0;
        &&& dock_position_in_range(opposite, screen, offsets)
        &&& dock_position_spec(opposite, screen, offsets) != initial
    }
}

/// Whether the window with the given style may be docked.
pub fn check_if_window_can_be_transformed(window_style: i32) -> (r: bool)
    ensures
        r == can_be_transformed_spec(window_style),
{
    (window_style & WS_MAXIMIZEBOX) != 0
}

/// The placement a dock request for `dock_position` gives a window with the
/// given window bounds and frame (shadow) bounds, on the monitor whose work
/// area is `work_area`. Where the window already has the docked placement, the
/// window is sent to the opposite side of the screen.
pub fn get_transform_for_dock_change(
    window_bounds: Rect,
    shadow_bounds: Rect,
    work_area: Rect,
    dock_position: Position,
) -> (t: WindowTransform)
    requires
        dock_change_defined(window_bounds, shadow_bounds, work_area, dock_position),
    ensures
        t@ == dock_change_spec(window_bounds, shadow_bounds, work_area, dock_position),
{
    let shadow_offset_transform = get_shadow_offsets(window_bounds, shadow_bounds);
    let initial_transform = get_initial_window_transform(
        &window_bounds,
        &shadow_bounds,
        &shadow_offset_transform,
    );
    let screen_transform = get_transform_from_monitor_info(work_area);
    let new_transform = get_transform_for_dock_position(
        &dock_position,
        screen_transform,
        shadow_offset_transform,
    );
    if initial_transform == new_transform {
        let opposite_position_option = dock_position.get_opposite_position();
        if let Some(opposite_position) = opposite_position_option {
            return get_transform_for_dock_position(
                &opposite_position,
                screen_transform,
                shadow_offset_transform,
            );
        }
    }
    new_transform
}

/// The placement of a window before docking: its top-left corner and the
/// extent of its frame corrected by the shadow offsets.
pub fn get_initial_window_transform(
    window_bounds: &Rect,
    shadow_bounds: &Rect,
    shadow_offset_transform: &WindowTransform,
) -> (t: WindowTransform)
    requires
        initial_transform_in_range(*window_bounds, *shadow_bounds, shadow_offset_transform@),
    ensures
        t@ == initial_transform_spec(*window_bounds, *shadow_bounds, shadow_offset_transform@),
{
    WindowTransform::new(
        window_bounds.left,
        window_bounds.top,
        shadow_bounds.right - window_bounds.left + shadow_offset_transform.size_x
            + shadow_offset_transform.pos_x,
        shadow_bounds.bottom - window_bounds.top + shadow_offset_transform.size_y
            + shadow_offset_transform.pos_y,
    )
}

/// The offsets between a window's rectangle and its visible frame.
pub fn get_shadow_offsets(window_rect: Rect, shadow_rect: Rect) -> (t: WindowTransform)
    requires
        shadow_offsets_in_range(window_rect, shadow_rect),
    ensures
        t@ == shadow_offsets_spec(window_rect, shadow_rect),
{
    let pos_x = window_rect.left - shadow_rect.left;
    let pos_y = window_rect.top - shadow_rect.top;

    WindowTransform::new(
        pos_x,
        pos_y,
        window_rect.right - shadow_rect.right - pos_x,
        window_rect.bottom - shadow_rect.bottom - pos_y,
    )
}

/// The placement that docks a window at `dock_position` of the screen area
/// `screen_transform`.
pub fn get_transform_for_dock_position(
    dock_position: &Position,
    screen_transform: WindowTransform,
    shadow_offset_transform: WindowTransform,
) -> (t: WindowTransform)
    requires
        dock_position_in_range(*dock_position, screen_transform@, shadow_offset_transform@),
    ensures
        t@ == dock_position_spec(*dock_position, screen_transform@, shadow_offset_transform@),
{
    let transform_correction = get_window_transform_corrections(
        shadow_offset_transform.pos_x != 0,
    );

    let half_size_x = screen_transform.size_x / 2;
    let half_size_y = screen_transform.size_y / 2;

    match dock_position {
        Position::Left => WindowTransform::new(
            screen_transform.pos_x + shadow_offset_transform.pos_x + transform_correction.pos_x,
            screen_transform.pos_y + shadow_offset_transform.pos_y,
            half_size_x + shadow_offset_transform.size_x + transform_correction.size_x * 2,
            screen_transform.size_y + shadow_offset_transform.size_y
                + transform_correction.size_y,
        ),
        Position::Right => WindowTransform::new(
            screen_transform.pos_x + half_size_x + shadow_offset_transform.pos_x,
            screen_transform.pos_y + shadow_offset_transform.pos_y,
            half_size_x + shadow_offset_transform.size_x + transform_correction.size_x,
            screen_transform.size_y + shadow_offset_transform.size_y
                + transform_correction.size_y,
        ),
        Position::Top => WindowTransform::new(
            screen_transform.pos_x + shadow_offset_transform.pos_x + transform_correction.pos_x,
            screen_transform.pos_y + shadow_offset_transform.pos_y,
            screen_transform.size_x + shadow_offset_transform.size_x
                + transform_correction.size_x * 2,
            half_size_y + shadow_offset_transform.size_y + transform_correction.size_y,
        ),
        Position::Bottom => WindowTransform::new(
            screen_transform.pos_x + shadow_offset_transform.pos_x + transform_correction.pos_x,
            screen_transform.pos_y + half_size_y + shadow_offset_transform.pos_y,
            screen_transform.size_x + shadow_offset_transform.size_x
                + transform_correction.size_x * 2,
            half_size_y + shadow_offset_transform.size_y + transform_correction.size_y,
        ),
        Position::Full => WindowTransform::new(
            screen_transform.pos_x + shadow_offset_transform.pos_x + transform_correction.pos_x,
            screen_transform.pos_y + shadow_offset_transform.pos_y,
            screen_transform.size_x + shadow_offset_transform.size_x
                + transform_correction.size_x * 2,
            screen_transform.size_y + shadow_offset_transform.size_y
                + transform_correction.size_y,
        ),
    }
}

/// The corrections applied to a docked placement: one pixel to the left and
/// one pixel larger where the window has a shadow offset, none otherwise.
pub fn get_window_transform_corrections(has_shadow_offset: bool) -> (t: WindowTransform)
    ensures
        t@ == corrections_spec(has_shadow_offset),
{
    let mut pos_correction: i32 = 0;
    let mut size_correction_x: i32 = 0;
    let mut size_correction_y: i32 = 0;

    if has_shadow_offset {
        pos_correction -= 1;
        size_correction_x += 1;
        size_correction_y += 1;
    }

    WindowTransform::new(pos_correction, 0, size_correction_x, size_correction_y)
}

/// The center of a window's bounds, by which the monitor it is on is found.
pub fn get_average_window_point(window_bounds: Rect) -> (p: Point)
    requires
        fits_i32(window_bounds.right - window_bounds.left),
        fits_i32(window_bounds.bottom - window_bounds.top),
    ensures
        p.x == half_toward_zero(window_bounds.right - window_bounds.left) + window_bounds.left,
        p.y == half_toward_zero(window_bounds.bottom - window_bounds.top) + window_bounds.top,
{
    Point {
        x: ((window_bounds.right - window_bounds.left) / 2) + window_bounds.left,
        y: ((window_bounds.bottom - window_bounds.top) / 2) + window_bounds.top,
    }
}

/// The screen area of a monitor, from its work area.
pub fn get_transform_from_monitor_info(work_area: Rect) -> (t: WindowTransform)
    requires
        work_area_in_range(work_area),
    ensures
        t@ == rect_transform_spec(work_area),
{
    WindowTransform::new(
        work_area.left,
        work_area.top,
        work_area.right - work_area.left,
        work_area.bottom - work_area.top,
    )
}

/// A value of at most 2^34 in magnitude, as sums of a few `i32` values are.
pub open spec fn small(x: int) -> bool {
    -0x4_0000_0000 <= x <= 0x4_0000_0000
}

fn fits_wide(x: i64) -> (r: bool)
    ensures
        r == fits_i32(x as int),
{
    (i32::MIN as i64) <= x && x <= (i32::MAX as i64)
}

fn fits_sum2_wide(a: i64, b: i64) -> (r: bool)
    requires
        small(a as int),
        small(b as int),
    ensures
        r == fits_sum2(a as int, b as int),
{
    fits_wide(a + b)
}

fn fits_sum3_wide(a: i64, b: i64, c: i64) -> (r: bool)
    requires
        small(a as int),
        small(b as int),
        small(c as int),
    ensures
        r == fits_sum3(a as int, b as int, c as int),
{
    fits_wide(a + b) && fits_wide(a + b + c)
}

/// Whether the dock computation for `dock_position` stays within `i32` on
/// the given screen area and offsets, and the placement it computes.
fn dock_position_wide(
    dock_position: Position,
    screen: (i64, i64, i64, i64),
    offsets: (i64, i64, i64, i64),
) -> (r: (bool, (i64, i64, i64, i64)))
    requires
        fits_i32(screen.0 as int),
        fits_i32(screen.1 as int),
        fits_i32(screen.2 as int),
        fits_i32(screen.3 as int),
        fits_i32(offsets.0 as int),
        fits_i32(offsets.1 as int),
        fits_i32(offsets.2 as int),
        fits_i32(offsets.3 as int),
    ensures
        ({
            let s = (screen.0 as int, screen.1 as int, screen.2 as int, screen.3 as int);
            let o = (offsets.0 as int, offsets.1 as int, offsets.2 as int, offsets.3 as int);
            &&& r.0 == dock_position_in_range(dock_position, s, o)
            &&& (r.1.0 as int, r.1.1 as int, r.1.2 as int, r.1.3 as int) == dock_position_spec(
                dock_position,
                s,
                o,
            )
        }),
{
    let (cx, cs) = if offsets.0 != 0 {
        (-1i64, 1i64)
    } else {
        (0i64, 0i64)
    };
    let half_x = screen.2 / 2;
    let half_y = screen.3 / 2;
    match dock_position {
        Position::Left => (
            fits_sum3_wide(screen.0, offsets.0, cx) && fits_sum2_wide(screen.1, offsets.1)
                && fits_sum3_wide(half_x, offsets.2, cs * 2) && fits_sum3_wide(
                screen.3,
                offsets.3,
                cs,
            ),
            (
                screen.0 + offsets.0 + cx,
                screen.1 + offsets.1,
                half_x + offsets.2 + cs * 2,
                screen.3 + offsets.3 + cs,
            ),
        ),
        Position::Right => (
            fits_sum3_wide(screen.0, half_x, offsets.0) && fits_sum2_wide(screen.1, offsets.1)
                && fits_sum3_wide(half_x, offsets.2, cs) && fits_sum3_wide(
                screen.3,
                offsets.3,
                cs,
            ),
            (
                screen.0 + half_x + offsets.0,
                screen.1 + offsets.1,
                half_x + offsets.2 + cs,
                screen.3 + offsets.3 + cs,
            ),
        ),
        Position::Top => (
            fits_sum3_wide(screen.0, offsets.0, cx) && fits_sum2_wide(screen.1, offsets.1)
                && fits_sum3_wide(screen.2, offsets.2, cs * 2) && fits_sum3_wide(
                half_y,
                offsets.3,
                cs,
            ),
            (
                screen.0 + offsets.0 + cx,
                screen.1 + offsets.1,
                screen.2 + offsets.2 + cs * 2,
                half_y + offsets.3 + cs,
            ),
        ),
        Position::Bottom => (
            fits_sum3_wide(screen.0, offsets.0, cx) && fits_sum3_wide(screen.1, half_y, offsets.1)
                && fits_sum3_wide(screen.2, offsets.2, cs * 2) && fits_sum3_wide(
                half_y,
                offsets.3,
                cs,
            ),
            (
                screen.0 + offsets.0 + cx,
                screen.1 + half_y + offsets.1,
                screen.2 + offsets.2 + cs * 2,
                half_y + offsets.3 + cs,
            ),
        ),
        Position::Full => (
            fits_sum3_wide(screen.0, offsets.0, cx) && fits_sum2_wide(screen.1, offsets.1)
                && fits_sum3_wide(screen.2, offsets.2, cs * 2) && fits_sum3_wide(
                screen.3,
                offsets.3,
                cs,
            ),
            (
                screen.0 + offsets.0 + cx,
                screen.1 + offsets.1,
                screen.2 + offsets.2 + cs * 2,
                screen.3 + offsets.3 + cs,
            ),
        ),
    }
}

fn same_placement(a: (i64, i64, i64, i64), b: (i64, i64, i64, i64)) -> (r: bool)
    ensures
        r == (a == b),
{
    a.0 == b.0 && a.1 == b.1 && a.2 == b.2 && a.3 == b.3
}

/// Whether a dock request for `dock_position` computes a placement on the
/// given measurements: no intermediate value overflows, and the request does
/// not alternate between two sides forever. Where it does not, the request
/// cannot be carried out.
pub fn check_dock_change_defined(
    window_bounds: Rect,
    shadow_bounds: Rect,
    work_area: Rect,
    dock_position: Position,
) -> (r: bool)
    ensures
        r == dock_change_defined(window_bounds, shadow_bounds, work_area, dock_position),
{
    let wl = window_bounds.left as i64;
    let wt = window_bounds.top as i64;
    let wr = window_bounds.right as i64;
    let wb = window_bounds.bottom as i64;
    let sl = shadow_bounds.left as i64;
    let st = shadow_bounds.top as i64;
    let sr = shadow_bounds.right as i64;
    let sb = shadow_bounds.bottom as i64;

    let pos_x = wl - sl;
    let pos_y = wt - st;
    let dx = wr - sr;
    let dy = wb - sb;
    if !(fits_wide(pos_x) && fits_wide(pos_y) && fits_sum2_wide(dx, -pos_x) && fits_wide(dx)
        && fits_sum2_wide(dy, -pos_y) && fits_wide(dy)) {
        return false;
    }
    let offsets = (pos_x, pos_y, dx - pos_x, dy - pos_y);

    let ix = sr - wl;
    let iy = sb - wt;
    if !(fits_wide(ix) && fits_sum3_wide(ix, offsets.2, offsets.0) && fits_wide(iy)
        && fits_sum3_wide(iy, offsets.3, offsets.1)) {
        return false;
    }
    let initial = (wl, wt, ix + offsets.2 + offsets.0, iy + offsets.3 + offsets.1);

    let width = work_area.right as i64 - work_area.left as i64;
    let height = work_area.bottom as i64 - work_area.top as i64;
    if !(fits_wide(width) && fits_wide(height)) {
        return false;
    }
    let screen = (work_area.left as i64, work_area.top as i64, width, height);

    let (in_range, docked) = dock_position_wide(dock_position, screen, offsets);
    if !in_range {
        return false;
    }
    if same_placement(docked, initial) {
        if let Some(opposite) = dock_position.get_opposite_position() {
            let (opposite_in_range, opposite_docked) = dock_position_wide(
                opposite,
                screen,
                offsets,
            );
            return opposite_in_range && !same_placement(opposite_docked, initial);
        }
    }
    true
}

/// Before docking, a window is placed exactly on its own window rectangle:
/// the frame offsets cancel out of its initial placement.
pub proof fn lemma_initial_transform_is_window_rect(window_bounds: Rect, shadow_bounds: Rect)
    ensures
        initial_transform_spec(
            window_bounds,
            shadow_bounds,
            shadow_offsets_spec(window_bounds, shadow_bounds),
        ) == rect_transform_spec(window_bounds),
{
}

/// For a window without frame offsets, the docked halves tile the screen
/// area: the left and right halves sit side by side with the same height and
/// width, the top and bottom halves one above the other with the same width
/// and height, and the full placement is the screen area itself.
pub proof fn lemma_halves_tile_screen(screen: (int, int, int, int))
    ensures
        ({
            let none = (0int, 0int, 0int, 0int);
            let left = dock_position_spec(Position::Left, screen, none);
            let right = dock_position_spec(Position::Right, screen, none);
            let top = dock_position_spec(Position::Top, screen, none);
            let bottom = dock_position_spec(Position::Bottom, screen, none);
            &&& left.0 == screen.0 && left.0 + left.2 == right.0
            &&& left.1 == right.1 && left.2 == right.2 && left.3 == right.3 && left.3 == screen.3
            &&& top.1 == screen.1 && top.1 + top.3 == bottom.1
            &&& top.0 == bottom.0 && top.2 == bottom.2 && top.3 == bottom.3 && top.2 == screen.2
            &&& dock_position_spec(Position::Full, screen, none) == screen
        }),
{
}

/// A dock request sends a window that already has the docked placement of a
/// position with an opposite side to the docked placement of that opposite
/// side; every other request gives the docked placement of the requested
/// position. The window's current placement is its own rectangle.
pub proof fn lemma_dock_request_toggles_to_opposite_side(
    window_bounds: Rect,
    shadow_bounds: Rect,
    work_area: Rect,
    dock_position: Position,
)
    ensures
        ({
            let offsets = shadow_offsets_spec(window_bounds, shadow_bounds);
            let screen = rect_transform_spec(work_area);
            let current = rect_transform_spec(window_bounds);
            let docked = dock_position_spec(dock_position, screen, offsets);
            let result = dock_change_spec(window_bounds, shadow_bounds, work_area, dock_position);
            &&& (docked == current && opposite_spec(dock_position) is Some) ==> result
                == dock_position_spec(opposite_spec(dock_position)->0, screen, offsets)
            &&& (docked != current || opposite_spec(dock_position) is None) ==> result == docked
        }),
{
    lemma_initial_transform_is_window_rect(window_bounds, shadow_bounds);
}

/// Moving the screen area moves every docked placement by the same amount:
/// docking depends on where the work area lies, not only on its size.
pub proof fn lemma_dock_position_follows_screen_origin(
    dock_position: Position,
    screen: (int, int, int, int),
    offsets: (int, int, int, int),
    dx: int,
    dy: int,
)
    ensures
        ({
            let moved = dock_position_spec(
                dock_position,
                (screen.0 + dx, screen.1 + dy, screen.2, screen.3),
                offsets,
            );
            let t = dock_position_spec(dock_position, screen, offsets);
            moved == (t.0 + dx, t.1 + dy, t.2, t.3)
        }),
{
}

/// For a window without frame offsets, every docked placement lies on the
/// screen area: its edges are within the area's edges.
pub proof fn lemma_docked_placement_within_screen(
    dock_position: Position,
    screen: (int, int, int, int),
)
    requires
        screen.2 >= 0,
        screen.3 >= 0,
    ensures
        ({
            let t = dock_position_spec(dock_position, screen, (0int, 0int, 0int, 0int));
            &&& t.2 >= 0 && t.3 >= 0
            &&& screen.0 <= t.0 && t.0 + t.2 <= screen.0 + screen.2
            &&& screen.1 <= t.1 && t.1 + t.3 <= screen.1 + screen.3
        }),
{
}

} // verus!
