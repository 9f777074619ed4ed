use vstd::prelude::*;

use crate::window::dock::manager::{
    dock_position_in_range, dock_position_spec, initial_transform_in_range,
    initial_transform_spec, shadow_offsets_in_range, shadow_offsets_spec, work_area_in_range,
};
use crate::window::dock_position::{DockPosition, as_position};
use crate::window::rect::{Rect, fits_i32};
use crate::window::window_transform::{WindowTransform, rect_transform_spec};

verus! {

/// How far, in pixels, a placement may move before the window is moved.
pub const CHANGE_THRESHOLD: i32 = 1;

/// `a - b` fits in `i32` and its absolute value can be taken in `i32`.
pub open spec fn difference_in_range(a: int, b: int) -> bool {
    fits_i32(a - b) && a - b != i32::MIN
}

pub open spec fn abs_spec(x: int) -> int {
    if x < 0 {
        -x
    } else {
        x
    }
}

/// Every difference between the two placements can be measured in `i32`.
pub open spec fn transform_differences_in_range(
    initial: (int, int, int, int),
    target: (int, int, int, int),
) -> bool {
    &&& difference_in_range(initial.0, target.0)
    &&& difference_in_range(initial.1, target.1)
    &&& difference_in_range(initial.2, target.2)
    &&& difference_in_range(initial.3, target.3)
}

/// Some coordinate of the placement moves by more than the threshold.
pub open spec fn transform_changed_spec(
    initial: (int, int, int, int),
    target: (int, int, int, int),
) -> bool {
    ||| abs_spec(initial.0 - target.0) > CHANGE_THRESHOLD
    ||| abs_spec(initial.1 - target.1) > CHANGE_THRESHOLD
    ||| abs_spec(initial.2 - target.2) > CHANGE_THRESHOLD
    ||| abs_spec(initial.3 - target.3) > CHANGE_THRESHOLD
}

/// The inputs on which docking a window to `dock_position` computes its
/// placement without overflow.
pub open spec fn dock_position_change_defined(
    window_bounds: Rect,
    shadow_bounds: Rect,
    work_area: Rect,
    dock_position: DockPosition,
) -> bool {
    let offsets = shadow_offsets_spec(window_bounds, shadow_bounds);
    let initial = initial_transform_spec(window_bounds, shadow_bounds, offsets);
    let screen = rect_transform_spec(work_area);
    let target = dock_position_spec(as_position(dock_position), screen, offsets);
    &&& shadow_offsets_in_range(window_bounds, shadow_bounds)
    &&& initial_transform_in_range(window_bounds, shadow_bounds, offsets)
    &&& work_area_in_range(work_area)
    &&& dock_position_in_range(as_position(dock_position), screen, offsets)
    &&& transform_differences_in_range(initial, target)
}

/// The placement a window is moved to when docked to `dock_position`, or
/// `None` where it is already within the threshold of that placement.
pub open spec fn dock_position_change_spec(
    window_bounds: Rect,
    shadow_bounds: Rect,
    work_area: Rect,
    dock_position: DockPosition,
) -> Option<(int, int, int, int)> {
    let offsets = shadow_offsets_spec(window_bounds, shadow_bounds);
    let initial = initial_transform_spec(window_bounds, shadow_bounds, offsets);
    let screen = rect_transform_spec(work_area);
    let target = dock_position_spec(as_position(dock_position), screen, offsets);
    if transform_changed_spec(initial, target) {
        Some(target)
    } else {
        None
    }
}

/// The placement that docks a window at `dock_position` of the screen area
/// `screen_transform`; every position has one.
pub fn get_transform_for_dock_position(
    dock_position: DockPosition,
    screen_transform: WindowTransform,
    shadow_offset_transform: WindowTransform,
) -> (r: Result<WindowTransform, ()>)
    requires
        dock_position_in_range(
            as_position(dock_position),
            screen_transform@,
            shadow_offset_transform@,
        ),
    ensures
        r matches Ok(t) && t@ == dock_position_spec(
            as_position(dock_position),
            screen_transform@,
            shadow_offset_transform@,
        ),
{
    let mut pos_correction: i32 = 0;
    let mut size_correction_x: i32 = 0;
    let mut size_correction_y: i32 = 0;

    let has_shadow_offset = shadow_offset_transform.pos_x != 0;

    if has_shadow_offset {
        pos_correction -= 1;
        size_correction_x += 1;
        size_correction_y += 1;
    }

    let half_cx = screen_transform.size_x / 2;
    let half_cy = screen_transform.size_y / 2;

    let dock_position_result: Option<(i32, i32, i32, i32)> = match dock_position {
        DockPosition::Left => Some(
            (
                screen_transform.pos_x + shadow_offset_transform.pos_x + pos_correction,
                screen_transform.pos_y + shadow_offset_transform.pos_y,
                half_cx + shadow_offset_transform.size_x + size_correction_x * 2,
                screen_transform.size_y + shadow_offset_transform.size_y + size_correction_y,
            ),
        ),
        DockPosition::Right => Some(
            (
                screen_transform.pos_x + half_cx + shadow_offset_transform.pos_x,
                screen_transform.pos_y + shadow_offset_transform.pos_y,
                half_cx + shadow_offset_transform.size_x + size_correction_x,
                screen_transform.size_y + shadow_offset_transform.size_y + size_correction_y,
            ),
        ),
        DockPosition::Top => Some(
            (
                screen_transform.pos_x + shadow_offset_transform.pos_x + pos_correction,
                screen_transform.pos_y + shadow_offset_transform.pos_y,
                screen_transform.size_x + shadow_offset_transform.size_x + size_correction_x * 2,
                half_cy + shadow_offset_transform.size_y + size_correction_y,
            ),
        ),
        DockPosition::Bottom => Some(
            (
                screen_transform.pos_x + shadow_offset_transform.pos_x + pos_correction,
                screen_transform.pos_y + half_cy + shadow_offset_transform.pos_y,
                screen_transform.size_x + shadow_offset_transform.size_x + size_correction_x * 2,
                half_cy + shadow_offset_transform.size_y + size_correction_y,
            ),
        ),
        DockPosition::Full => Some(
            (
                screen_transform.pos_x + shadow_offset_transform.pos_x + pos_correction,
                screen_transform.pos_y + shadow_offset_transform.pos_y,
                screen_transform.size_x + shadow_offset_transform.size_x + size_correction_x * 2,
                screen_transform.size_y + shadow_offset_transform.size_y + size_correction_y,
            ),
        ),
    };

    if let Some((pos_x, pos_y, size_x, size_y)) = dock_position_result {
        Ok(WindowTransform::new(pos_x, pos_y, size_x, size_y))
    } else {
        Err(())
    }
}

/// Whether moving a window from `initial_transform` to `final_transform`
/// changes some coordinate by more than the threshold; only then is the
/// window moved.
pub fn check_if_transform_changed(
    initial_transform: WindowTransform,
    final_transform: WindowTransform,
) -> (r: bool)
    requires
        transform_differences_in_range(initial_transform@, final_transform@),
    ensures
        r == transform_changed_spec(initial_transform@, final_transform@),
{
    let has_pos_x_changed = abs_i32(initial_transform.pos_x - final_transform.pos_x)
        > CHANGE_THRESHOLD;
    let has_pos_y_changed = abs_i32(initial_transform.pos_y - final_transform.pos_y)
        > CHANGE_THRESHOLD;
    let has_size_x_changed = abs_i32(initial_transform.size_x - final_transform.size_x)
        > CHANGE_THRESHOLD;
    let has_size_y_changed = abs_i32(initial_transform.size_y - final_transform.size_y)
        > CHANGE_THRESHOLD;

    has_pos_x_changed || has_pos_y_changed || has_size_x_changed || has_size_y_changed
}

fn abs_i32(x: i32) -> (r: i32)
    requires
        x != i32::MIN,
    ensures
        r == abs_spec(x as int),
{
    if x < 0 {
        -x
    } else {
        x
    }
}

/// The placement a window with the given window bounds, frame bounds and
/// monitor work area is moved to when docked to `dock_position`, or `None`
/// where the window already sits within the threshold of that placement.
pub fn get_dock_position_change(
    window_bounds: Rect,
    shadow_bounds: Rect,
    work_area: Rect,
    dock_position: DockPosition,
) -> (r: Option<WindowTransform>)
    requires
        dock_position_change_defined(window_bounds, shadow_bounds, work_area, dock_position),
    ensures
        match r {
            Some(t) => dock_position_change_spec(
                window_bounds,
                shadow_bounds,
                work_area,
                dock_position,
            ) == Some(t@),
            None => dock_position_change_spec(
                window_bounds,
                shadow_bounds,
                work_area,
                dock_position,
            ) is None,
        },
{
    let screen_transform = crate::window::dock::manager::get_transform_from_monitor_info(
        work_area,
    );
    let shadow_offset_transform = crate::window::dock::manager::get_shadow_offsets(
        window_bounds,
        shadow_bounds,
    );
    let initial_transform = crate::window::dock::manager::get_initial_window_transform(
        &window_bounds,
        &shadow_bounds,
        &shadow_offset_transform,
    );
    let final_transform_result = get_transform_for_dock_position(
        dock_position,
        screen_transform,
        shadow_offset_transform,
    );
    if let Ok(final_transform) = final_transform_result {
        if check_if_transform_changed(initial_transform, final_transform) {
            return Some(final_transform);
        }
    }
    None
}

/// The dock manager leaves a window where it is exactly when each of the
/// left edge, top edge, width and height of the window's rectangle is within
/// the threshold of the docked placement; otherwise it moves the window to
/// the docked placement.
pub proof fn lemma_dock_manager_moves_beyond_threshold(
    window_bounds: Rect,
    shadow_bounds: Rect,
    work_area: Rect,
    dock_position: DockPosition,
)
    ensures
        ({
            let target = dock_position_spec(
                as_position(dock_position),
                rect_transform_spec(work_area),
                shadow_offsets_spec(window_bounds, shadow_bounds),
            );
            let current = rect_transform_spec(window_bounds);
            let result = dock_position_change_spec(
                window_bounds,
                shadow_bounds,
                work_area,
                dock_position,
            );
            &&& result is None <==> {
                &&& -1 <= current.0 - target.0 <= 1
                &&& -1 <= current.1 - target.1 <= 1
                &&& -1 <= current.2 - target.2 <= 1
                &&& -1 <= current.3 - target.3 <= 1
            }
            &&& result matches Some(t) ==> t == target
        }),
{
    crate::window::dock::manager::lemma_initial_transform_is_window_rect(
        window_bounds,
        shadow_bounds,
    );
}

} // verus!
