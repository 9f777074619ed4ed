use snapt::window::dock_manager::{
    check_if_transform_changed, get_dock_position_change, get_transform_for_dock_position,
    CHANGE_THRESHOLD,
};
use snapt::window::dock_position::DockPosition;
use snapt::window::monitor::info::Info;
use snapt::window::rect::Rect;
use snapt::window::window_manager::{
    check_if_pos_or_size_changed, get_screen_transforms, get_shadow_offsets,
    get_transform_for_window_state, get_window_state_change,
};
use snapt::window::window_state::WindowState;
use snapt::window::window_transform::WindowTransform;
use snapt::window_transform::WindowTransform as Extent;

fn rect(left: i32, top: i32, right: i32, bottom: i32) -> Rect {
    Rect { left, top, right, bottom }
}

fn wt(pos_x: i32, pos_y: i32, size_x: i32, size_y: i32) -> WindowTransform {
    WindowTransform::new(pos_x, pos_y, size_x, size_y)
}

fn ext(x: i32, y: i32) -> Extent {
    Extent::new(x, y)
}

fn window() -> Rect {
    rect(100, 100, 900, 700)
}

fn frame() -> Rect {
    rect(107, 100, 893, 693)
}

fn work_area() -> Rect {
    rect(0, 0, 1920, 1040)
}

#[test]
fn dock_manager_positions() {
    let screen = wt(0, 0, 1920, 1040);
    let offsets = wt(-7, 0, 14, 7);
    assert_eq!(get_transform_for_dock_position(DockPosition::Left, screen, offsets), Ok(wt(-8, 0, 976, 1048)));
    assert_eq!(get_transform_for_dock_position(DockPosition::Right, screen, offsets), Ok(wt(953, 0, 975, 1048)));
    assert_eq!(get_transform_for_dock_position(DockPosition::Top, screen, offsets), Ok(wt(-8, 0, 1936, 528)));
    assert_eq!(get_transform_for_dock_position(DockPosition::Bottom, screen, offsets), Ok(wt(-8, 520, 1936, 528)));
    assert_eq!(get_transform_for_dock_position(DockPosition::Full, screen, offsets), Ok(wt(-8, 0, 1936, 1048)));
    let none = wt(0, 0, 0, 0);
    assert_eq!(get_transform_for_dock_position(DockPosition::Right, screen, none), Ok(wt(960, 0, 960, 1040)));
}

#[test]
fn change_threshold_is_one_pixel() {
    let initial = wt(10, 10, 500, 500);
    assert_eq!(CHANGE_THRESHOLD, 1);
    assert!(!check_if_transform_changed(initial, initial));
    assert!(!check_if_transform_changed(initial, wt(11, 9, 501, 499)));
    assert!(check_if_transform_changed(initial, wt(12, 10, 500, 500)));
    assert!(check_if_transform_changed(initial, wt(10, 10, 500, 498)));
}

#[test]
fn dock_manager_moves_only_when_placement_changes() {
    assert_eq!(
        get_dock_position_change(window(), frame(), work_area(), DockPosition::Left),
        Some(wt(-8, 0, 976, 1048))
    );
    // A window one pixel away from the left-docked placement stays put.
    let near_window = rect(-7, 0, 969, 1048);
    let near_frame = rect(0, 0, 962, 1041);
    assert_eq!(get_dock_position_change(near_window, near_frame, work_area(), DockPosition::Left), None);
    assert_eq!(
        get_dock_position_change(near_window, near_frame, work_area(), DockPosition::Right),
        Some(wt(953, 0, 975, 1048))
    );
}

#[test]
fn dock_position_names() {
    assert_eq!(DockPosition::Left.to_string(), "Left");
    assert_eq!(DockPosition::Right.to_string(), "Right");
    assert_eq!(DockPosition::Top.to_string(), "Top");
    assert_eq!(DockPosition::Bottom.to_string(), "Bottom");
    assert_eq!(DockPosition::Full.to_string(), "Full");
}

#[test]
fn extent_new() {
    let e = ext(3, -4);
    assert_eq!(e.x, 3);
    assert_eq!(e.y, -4);
}

#[test]
fn window_manager_offsets_and_screen() {
    assert_eq!(get_shadow_offsets(window(), frame()), (ext(-7, 0), ext(14, 7)));
    assert_eq!(get_screen_transforms(rect(1920, 0, 3840, 1040)), (ext(1920, 0), ext(1920, 1040)));
}

#[test]
fn window_manager_states() {
    let pos = ext(0, 0);
    let size = ext(1920, 1040);
    let po = ext(-7, 0);
    let so = ext(14, 7);
    assert_eq!(get_transform_for_window_state(pos, size, po, so, WindowState::Left), Ok((ext(-7, 0), ext(974, 1047))));
    assert_eq!(get_transform_for_window_state(pos, size, po, so, WindowState::Right), Ok((ext(953, 0), ext(974, 1047))));
    assert_eq!(get_transform_for_window_state(pos, size, po, so, WindowState::Top), Ok((ext(-7, 0), ext(1934, 527))));
    assert_eq!(get_transform_for_window_state(pos, size, po, so, WindowState::Bottom), Ok((ext(-7, 520), ext(1934, 527))));
    assert_eq!(get_transform_for_window_state(pos, size, po, so, WindowState::Full), Ok((ext(-7, 0), ext(1934, 1047))));
}

#[test]
fn window_manager_changes_only_differing_windows() {
    assert_eq!(
        get_window_state_change(window(), frame(), work_area(), WindowState::Left),
        Some((ext(-7, 0), ext(974, 1047)))
    );
    // Measured position (-7, 0) and size (right + 14, bottom + 7) = (974, 1047).
    let docked_window = rect(-7, 0, 960, 1040);
    let docked_frame = rect(0, 0, 953, 1033);
    assert_eq!(get_window_state_change(docked_window, docked_frame, work_area(), WindowState::Left), None);
    assert!(check_if_pos_or_size_changed(ext(1, 2), ext(3, 4), ext(1, 2), ext(3, 5)));
    assert!(!check_if_pos_or_size_changed(ext(1, 2), ext(3, 4), ext(1, 2), ext(3, 4)));
}

#[test]
fn window_state_names() {
    assert_eq!(WindowState::Left.to_string(), "Left");
    assert_eq!(WindowState::Right.to_string(), "Right");
    assert_eq!(WindowState::Top.to_string(), "Top");
    assert_eq!(WindowState::Bottom.to_string(), "Bottom");
    assert_eq!(WindowState::Full.to_string(), "Full");
}

#[test]
fn monitor_info_records_enumerated_rects() {
    let mut info = Info::new();
    assert_eq!(info.monitor_rects, None);
    info.add_monitor_rect(rect(0, 0, 1920, 1080));
    assert_eq!(info.monitor_rects, Some(vec![rect(0, 0, 1920, 1080)]));
    info.add_monitor_rect(rect(1920, 0, 3840, 1080));
    assert_eq!(info.monitor_rects, Some(vec![rect(0, 0, 1920, 1080), rect(1920, 0, 3840, 1080)]));

    let rects = vec![rect(-1280, 0, 0, 1024), rect(0, 0, 2560, 1440)];
    info.prepare_monitor_info(&rects);
    assert_eq!(info.monitor_rects, Some(rects.clone()));
    info.prepare_monitor_info(&vec![]);
    assert_eq!(info.monitor_rects, None);
}
