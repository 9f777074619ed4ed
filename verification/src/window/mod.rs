pub mod rect;
pub mod window_transform;
pub mod dock;
pub mod dock_position;
pub mod dock_manager;
pub mod window_state;
pub mod window_manager;
pub mod monitor;

use vstd::prelude::*;

use crate::window::dock::manager::{
    dock_change_defined, dock_change_spec, get_transform_for_dock_change,
};
use crate::window::dock::position::Position;
use crate::window::rect::Rect;
use crate::window::window_transform::WindowTransform;

verus! {

/// The placement that docks the measured window to the left half of the
/// screen (or to the right half, where it is docked left already).
pub fn dock_left(window_bounds: Rect, shadow_bounds: Rect, work_area: Rect) -> (t: WindowTransform)
    requires
        dock_change_defined(window_bounds, shadow_bounds, work_area, Position::Left),
    ensures
        t@ == dock_change_spec(window_bounds, shadow_bounds, work_area, Position::Left),
{
    get_transform_for_dock_change(window_bounds, shadow_bounds, work_area, Position::Left)
}

/// The placement that docks the measured window to the right half of the
/// screen (or to the left half, where it is docked right already).
pub fn dock_right(window_bounds: Rect, shadow_bounds: Rect, work_area: Rect) -> (t: WindowTransform)
    requires
        dock_change_defined(window_bounds, shadow_bounds, work_area, Position::Right),
    ensures
        t@ == dock_change_spec(window_bounds, shadow_bounds, work_area, Position::Right),
{
    get_transform_for_dock_change(window_bounds, shadow_bounds, work_area, Position::Right)
}

/// The placement that docks the measured window to the top half of the
/// screen (or to the bottom half, where it is docked at the top already).
pub fn dock_top(window_bounds: Rect, shadow_bounds: Rect, work_area: Rect) -> (t: WindowTransform)
    requires
        dock_change_defined(window_bounds, shadow_bounds, work_area, Position::Top),
    ensures
        t@ == dock_change_spec(window_bounds, shadow_bounds, work_area, Position::Top),
{
    get_transform_for_dock_change(window_bounds, shadow_bounds, work_area, Position::Top)
}

/// The placement that docks the measured window to the bottom half of the
/// screen (or to the top half, where it is docked at the bottom already).
pub fn dock_bottom(window_bounds: Rect, shadow_bounds: Rect, work_area: Rect) -> (t: WindowTransform)
    requires
        dock_change_defined(window_bounds, shadow_bounds, work_area, Position::Bottom),
    ensures
        t@ == dock_change_spec(window_bounds, shadow_bounds, work_area, Position::Bottom),
{
    get_transform_for_dock_change(window_bounds, shadow_bounds, work_area, Position::Bottom)
}

/// The placement that makes the measured window fill the screen area.
pub fn dock_full(window_bounds: Rect, shadow_bounds: Rect, work_area: Rect) -> (t: WindowTransform)
    requires
        dock_change_defined(window_bounds, shadow_bounds, work_area, Position::Full),
    ensures
        t@ == dock_change_spec(window_bounds, shadow_bounds, work_area, Position::Full),
{
    get_transform_for_dock_change(window_bounds, shadow_bounds, work_area, Position::Full)
}

} // verus!
