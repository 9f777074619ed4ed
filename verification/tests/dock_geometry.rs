use snapt::window::dock::manager::{
    check_dock_change_defined, check_if_window_can_be_transformed, get_average_window_point,
    get_initial_window_transform, get_shadow_offsets, get_transform_for_dock_change,
    get_transform_for_dock_position, get_transform_from_monitor_info,
    get_window_transform_corrections, WS_MAXIMIZEBOX,
};
use snapt::window::dock::position::Position;
use snapt::window::rect::{Point, Rect};
use snapt::window::window_transform::WindowTransform;
use snapt::window::{dock_bottom, dock_full, dock_left, dock_right, dock_top};

fn rect(left: i32, top: i32, right: i32, bottom: i32) -> Rect {
    Rect { left, top, right, bottom }
}

fn wt(pos_x: i32, pos_y: i32, size_x: i32, size_y: i32) -> WindowTransform {
    WindowTransform::new(pos_x, pos_y, size_x, size_y)
}

// A window with invisible resize borders of 7 pixels left, right and bottom.
fn window() -> Rect {
    rect(100, 100, 900, 700)
}

fn frame() -> Rect {
    rect(107, 100, 893, 693)
}

fn work_area() -> Rect {
    rect(0, 0, 1920, 1040)
}

#[test]
fn window_transform_new_and_to_rect() {
    let t = wt(10, 20, 300, 400);
    assert_eq!(t.pos_x, 10);
    assert_eq!(t.pos_y, 20);
    assert_eq!(t.size_x, 300);
    assert_eq!(t.size_y, 400);
    assert_eq!(t.to_rect(), rect(10, 20, 310, 420));
}

#[test]
fn transform_round_trips_through_rect() {
    let area = rect(-1280, 40, 0, 1064);
    let t = get_transform_from_monitor_info(area);
    assert_eq!(t, wt(-1280, 40, 1280, 1024));
    assert_eq!(t.to_rect(), area);
}

#[test]
fn maximizable_windows_can_be_docked() {
    assert!(check_if_window_can_be_transformed(WS_MAXIMIZEBOX));
    assert!(check_if_window_can_be_transformed(0x14CF_0000u32 as i32));
    assert!(!check_if_window_can_be_transformed(0));
    assert!(!check_if_window_can_be_transformed(0x94C0_0000u32 as i32));
}

#[test]
fn shadow_offsets_of_bordered_window() {
    assert_eq!(get_shadow_offsets(window(), frame()), wt(-7, 0, 14, 7));
    assert_eq!(get_shadow_offsets(window(), window()), wt(0, 0, 0, 0));
}

#[test]
fn initial_transform_is_the_window_rectangle() {
    let offsets = get_shadow_offsets(window(), frame());
    let initial = get_initial_window_transform(&window(), &frame(), &offsets);
    assert_eq!(initial, wt(100, 100, 800, 600));
    assert_eq!(initial.to_rect(), window());
}

#[test]
fn corrections_apply_only_with_shadow() {
    assert_eq!(get_window_transform_corrections(true), wt(-1, 0, 1, 1));
    assert_eq!(get_window_transform_corrections(false), wt(0, 0, 0, 0));
}

#[test]
fn average_point_is_window_center() {
    assert_eq!(get_average_window_point(window()), Point { x: 500, y: 400 });
    assert_eq!(get_average_window_point(rect(-101, -11, 0, 0)), Point { x: -51, y: -6 });
}

#[test]
fn dock_positions_with_shadow() {
    let screen = get_transform_from_monitor_info(work_area());
    let offsets = wt(-7, 0, 14, 7);
    assert_eq!(get_transform_for_dock_position(&Position::Left, screen, offsets), wt(-8, 0, 976, 1048));
    assert_eq!(get_transform_for_dock_position(&Position::Right, screen, offsets), wt(953, 0, 975, 1048));
    assert_eq!(get_transform_for_dock_position(&Position::Top, screen, offsets), wt(-8, 0, 1936, 528));
    assert_eq!(get_transform_for_dock_position(&Position::Bottom, screen, offsets), wt(-8, 520, 1936, 528));
    assert_eq!(get_transform_for_dock_position(&Position::Full, screen, offsets), wt(-8, 0, 1936, 1048));
}

#[test]
fn halves_tile_screen_without_shadow() {
    let screen = wt(0, 0, 1920, 1040);
    let none = wt(0, 0, 0, 0);
    let left = get_transform_for_dock_position(&Position::Left, screen, none);
    let right = get_transform_for_dock_position(&Position::Right, screen, none);
    let top = get_transform_for_dock_position(&Position::Top, screen, none);
    let bottom = get_transform_for_dock_position(&Position::Bottom, screen, none);
    assert_eq!(left, wt(0, 0, 960, 1040));
    assert_eq!(right, wt(960, 0, 960, 1040));
    assert_eq!(left.pos_x + left.size_x, right.pos_x);
    assert_eq!(top, wt(0, 0, 1920, 520));
    assert_eq!(bottom, wt(0, 520, 1920, 520));
    assert_eq!(top.pos_y + top.size_y, bottom.pos_y);
    assert_eq!(get_transform_for_dock_position(&Position::Full, screen, none), screen);
}

#[test]
fn dock_functions_move_window_to_each_position() {
    assert!(check_dock_change_defined(window(), frame(), work_area(), Position::Left));
    assert_eq!(dock_left(window(), frame(), work_area()), wt(-8, 0, 976, 1048));
    assert_eq!(dock_right(window(), frame(), work_area()), wt(953, 0, 975, 1048));
    assert_eq!(dock_top(window(), frame(), work_area()), wt(-8, 0, 1936, 528));
    assert_eq!(dock_bottom(window(), frame(), work_area()), wt(-8, 520, 1936, 528));
    assert_eq!(dock_full(window(), frame(), work_area()), wt(-8, 0, 1936, 1048));
}

#[test]
fn docking_a_docked_window_sends_it_to_the_other_side() {
    // The window already has the left-docked placement (-8, 0, 976, 1048).
    let docked_window = rect(-8, 0, 968, 1048);
    let docked_frame = rect(-1, 0, 961, 1041);
    assert_eq!(get_shadow_offsets(docked_window, docked_frame), wt(-7, 0, 14, 7));
    assert_eq!(dock_left(docked_window, docked_frame, work_area()), wt(953, 0, 975, 1048));
    assert_eq!(
        get_transform_for_dock_change(docked_window, docked_frame, work_area(), Position::Left),
        wt(953, 0, 975, 1048)
    );
    // Docking it to the right is an ordinary move.
    assert_eq!(dock_right(docked_window, docked_frame, work_area()), wt(953, 0, 975, 1048));
}

#[test]
fn docking_a_full_window_to_full_keeps_it() {
    let full_window = rect(-8, 0, 1928, 1048);
    let full_frame = rect(-1, 0, 1921, 1041);
    assert_eq!(dock_full(full_window, full_frame, work_area()), wt(-8, 0, 1936, 1048));
}

#[test]
fn dock_change_undefined_on_overflow_and_endless_alternation() {
    let huge = rect(i32::MIN, 0, i32::MAX, 1040);
    assert!(!check_dock_change_defined(window(), frame(), huge, Position::Left));
    // On a screen one pixel wide, left and right are the same placement: a
    // window already there would be sent back and forth without end.
    let narrow = rect(0, 0, 1, 100);
    let w = rect(0, 0, 0, 100);
    assert!(!check_dock_change_defined(w, w, narrow, Position::Left));
    assert!(!check_dock_change_defined(w, w, narrow, Position::Right));
    assert!(check_dock_change_defined(w, w, narrow, Position::Top));
    assert!(check_dock_change_defined(w, w, narrow, Position::Full));
}

#[test]
fn opposite_positions() {
    assert_eq!(Position::Left.get_opposite_position(), Some(Position::Right));
    assert_eq!(Position::Right.get_opposite_position(), Some(Position::Left));
    assert_eq!(Position::Top.get_opposite_position(), Some(Position::Bottom));
    assert_eq!(Position::Bottom.get_opposite_position(), Some(Position::Top));
    assert_eq!(Position::Full.get_opposite_position(), None);
    for p in [Position::Left, Position::Right, Position::Top, Position::Bottom] {
        let q = p.get_opposite_position().unwrap();
        assert_eq!(q.get_opposite_position(), Some(p));
    }
}

#[test]
fn position_names() {
    assert_eq!(Position::Left.to_string(), "Left");
    assert_eq!(Position::Right.to_string(), "Right");
    assert_eq!(Position::Top.to_string(), "Top");
    assert_eq!(Position::Bottom.to_string(), "Bottom");
    assert_eq!(Position::Full.to_string(), "Full");
}
