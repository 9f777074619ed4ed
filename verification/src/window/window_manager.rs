use vstd::prelude::*;

use crate::window::rect::{Rect, fits_i32, fits_sum2, fits_sum3, half_toward_zero};
use crate::window::window_state::WindowState;
use crate::window_transform::WindowTransform;

verus! {

/// The offsets between a window's rectangle and its visible frame: the
/// offset of the position and the offset of the size.
pub open spec fn state_shadow_offsets_spec(window_rect: Rect, shadow_rect: Rect) -> (
    (int, int),
    (int, int),
) {
    let pos_x = window_rect.left - shadow_rect.left;
    let pos_y = window_rect.top - shadow_rect.top;
    (
        (pos_x, pos_y),
        (window_rect.right - shadow_rect.right + (-1 * pos_x), window_rect.bottom
            - shadow_rect.bottom + (-1 * pos_y)),
    )
}

/// Every intermediate value of the shadow offsets fits in `i32`.
pub open spec fn state_shadow_offsets_in_range(window_rect: Rect, shadow_rect: Rect) -> bool {
    let pos_x = window_rect.left - shadow_rect.left;
    let pos_y = window_rect.top - shadow_rect.top;
    &&& fits_i32(pos_x)
    &&& fits_i32(pos_y)
    &&& fits_i32(-1 * pos_x)
    &&& fits_i32(-1 * pos_y)
    &&& fits_i32(window_rect.right - shadow_rect.right)
    &&& fits_sum2(window_rect.right - shadow_rect.right, -1 * pos_x)
    &&& fits_i32(window_rect.bottom - shadow_rect.bottom)
    &&& fits_sum2(window_rect.bottom - shadow_rect.bottom, -1 * pos_y)
}

/// The position and size of the screen area of a monitor's work area.
pub open spec fn screen_transforms_spec(work_area: Rect) -> ((int, int), (int, int)) {
    (
        (work_area.left as int, work_area.top as int),
        (work_area.right - work_area.left, work_area.bottom - work_area.top),
    )
}

/// The position and size that put a window into `state` on the screen area
/// at `screen_pos` of size `screen_size`, given the window's shadow offsets.
pub open spec fn window_state_transform_spec(
    screen_pos: (int, int),
    screen_size: (int, int),
    shadow_pos_offset: (int, int),
    shadow_size_offset: (int, int),
    state: WindowState,
) -> ((int, int), (int, int)) {
    let half_cx = half_toward_zero(screen_size.0);
    let half_cy = half_toward_zero(screen_size.1);
    match state {
        WindowState::Left => (
            (screen_pos.0 + shadow_pos_offset.0, screen_pos.1 + shadow_pos_offset.1),
            (half_cx + shadow_size_offset.0, screen_size.1 + shadow_size_offset.1),
        ),
        WindowState::Right => (
            (screen_pos.0 + half_cx + shadow_pos_offset.0, screen_pos.1 + shadow_pos_offset.1),
            (half_cx + shadow_size_offset.0, screen_size.1 + shadow_size_offset.1),
        ),
        WindowState::Top => (
            (screen_pos.0 + shadow_pos_offset.0, screen_pos.1 + shadow_pos_offset.1),
            (screen_size.0 + shadow_size_offset.0, half_cy + shadow_size_offset.1),
        ),
        WindowState::Bottom => (
            (screen_pos.0 + shadow_pos_offset.0, screen_pos.1 + half_cy + shadow_pos_offset.1),
            (screen_size.0 + shadow_size_offset.0, half_cy + shadow_size_offset.1),
        ),
        WindowState::Full => (
            (screen_pos.0 + shadow_pos_offset.0, screen_pos.1 + shadow_pos_offset.1),
            (screen_size.0 + shadow_size_offset.0, screen_size.1 + shadow_size_offset.1),
        ),
    }
}

/// Every intermediate sum of `window_state_transform_spec` fits in `i32`.
pub open spec fn window_state_transform_in_range(
    screen_pos: (int, int),
    screen_size: (int, int),
    shadow_pos_offset: (int, int),
    shadow_size_offset: (int, int),
    state: WindowState,
) -> bool {
    let half_cx = half_toward_zero(screen_size.0);
    let half_cy = half_toward_zero(screen_size.1);
    match state {
        WindowState::Left => {
            &&& fits_sum2(screen_pos.0, shadow_pos_offset.0)
            &&& fits_sum2(screen_pos.1, shadow_pos_offset.1)
            &&& fits_sum2(half_cx, shadow_size_offset.0)
            &&& fits_sum2(screen_size.1, shadow_size_offset.1)
        },
        WindowState::Right => {
            &&& fits_sum3(screen_pos.0, half_cx, shadow_pos_offset.0)
            &&& fits_sum2(screen_pos.1, shadow_pos_offset.1)
            &&& fits_sum2(half_cx, shadow_size_offset.0)
            &&& fits_sum2(screen_size.1, shadow_size_offset.1)
        },
        WindowState::Top => {
            &&& fits_sum2(screen_pos.0, shadow_pos_offset.0)
            &&& fits_sum2(screen_pos.1, shadow_pos_offset.1)
            &&& fits_sum2(screen_size.0, shadow_size_offset.0)
            &&& fits_sum2(half_cy, shadow_size_offset.1)
        },
        WindowState::Bottom => {
            &&& fits_sum2(screen_pos.0, shadow_pos_offset.0)
            &&& fits_sum3(screen_pos.1, half_cy, shadow_pos_offset.1)
            &&& fits_sum2(screen_size.0, shadow_size_offset.0)
            &&& fits_sum2(half_cy, shadow_size_offset.1)
        },
        WindowState::Full => {
            &&& fits_sum2(screen_pos.0, shadow_pos_offset.0)
            &&& fits_sum2(screen_pos.1, shadow_pos_offset.1)
            &&& fits_sum2(screen_size.0, shadow_size_offset.0)
            &&& fits_sum2(screen_size.1, shadow_size_offset.1)
        },
    }
}

/// The size the window manager measures a window with before it moves it:
/// the far edges of its rectangle corrected by the shadow size offset.
pub open spec fn initial_size_spec(window_bounds: Rect, shadow_size_offset: (int, int)) -> (
    int,
    int,
) {
    (window_bounds.right + shadow_size_offset.0, window_bounds.bottom + shadow_size_offset.1)
}

/// The inputs on which putting a window into `state` computes without overflow.
pub open spec fn window_state_change_defined(
    window_bounds: Rect,
    shadow_bounds: Rect,
    work_area: Rect,
    state: WindowState,
) -> bool {
    let (screen_pos, screen_size) = screen_transforms_spec(work_area);
    let (shadow_pos_offset, shadow_size_offset) = state_shadow_offsets_spec(
        window_bounds,
        shadow_bounds,
    );
    &&& fits_i32(work_area.right - work_area.left)
    &&& fits_i32(work_area.bottom - work_area.top)
    &&& state_shadow_offsets_in_range(window_bounds, shadow_bounds)
    &&& fits_sum2(window_bounds.right as int, shadow_size_offset.0)
    &&& fits_sum2(window_bounds.bottom as int, shadow_size_offset.1)
    &&& window_state_transform_in_range(
        screen_pos,
        screen_size,
        shadow_pos_offset,
        shadow_size_offset,
        state,
    )
}

/// The position and size a window is moved to when put into `state`, or
/// `None` where the measured position and size are already those.
pub open spec fn window_state_change_spec(
    window_bounds: Rect,
    shadow_bounds: Rect,
    work_area: Rect,
    state: WindowState,
) -> Option<((int, int), (int, int))> {
    let (screen_pos, screen_size) = screen_transforms_spec(work_area);
    let (shadow_pos_offset, shadow_size_offset) = state_shadow_offsets_spec(
        window_bounds,
        shadow_bounds,
    );
    let pos_i = (window_bounds.left as int, window_bounds.top as int);
    let size_i = initial_size_spec(window_bounds, shadow_size_offset);
    let target = window_state_transform_spec(
        screen_pos,
        screen_size,
        shadow_pos_offset,
        shadow_size_offset,
        state,
    );
    if pos_i != target.0 || size_i != target.1 {
        Some(target)
    } else {
        None
    }
}

/// The offsets between a window's rectangle and its visible frame, as a
/// position offset and a size offset.
pub fn get_shadow_offsets(window_rect: Rect, shadow_rect: Rect) -> (r: (
    WindowTransform,
    WindowTransform,
))
    requires
        state_shadow_offsets_in_range(window_rect, shadow_rect),
    ensures
        (r.0@, r.1@) == state_shadow_offsets_spec(window_rect, shadow_rect),
{
    let shadow_pos_offset = WindowTransform::new(
        window_rect.left - shadow_rect.left,
        window_rect.top - shadow_rect.top,
    );
    let shadow_size_offset = WindowTransform::new(
        window_rect.right - shadow_rect.right + (-1 * shadow_pos_offset.x),
        window_rect.bottom - shadow_rect.bottom + (-1 * shadow_pos_offset.y),
    );
    (shadow_pos_offset, shadow_size_offset)
}

/// The position and size that put a window into `state` on the given screen
/// area; every state has one.
pub fn get_transform_for_window_state(
    screen_pos: WindowTransform,
    screen_size: WindowTransform,
    shadow_pos_offset: WindowTransform,
    shadow_size_offset: WindowTransform,
    state: WindowState,
) -> (r: Result<(WindowTransform, WindowTransform), ()>)
    requires
        window_state_transform_in_range(
            screen_pos@,
            screen_size@,
            shadow_pos_offset@,
            shadow_size_offset@,
            state,
        ),
    ensures
        r matches Ok((pos, size)) && (pos@, size@) == window_state_transform_spec(
            screen_pos@,
            screen_size@,
            shadow_pos_offset@,
            shadow_size_offset@,
            state,
        ),
{
    let half_cx = screen_size.x / 2;
    let half_cy = screen_size.y / 2;

    let state_result: Option<(i32, i32, i32, i32)> = match state {
        WindowState::Left => Some(
            (
                screen_pos.x + shadow_pos_offset.x,
                screen_pos.y + shadow_pos_offset.y,
                half_cx + shadow_size_offset.x,
                screen_size.y + shadow_size_offset.y,
            ),
        ),
        WindowState::Right => Some(
            (
                screen_pos.x + half_cx + shadow_pos_offset.x,
                screen_pos.y + shadow_pos_offset.y,
                half_cx + shadow_size_offset.x,
                screen_size.y + shadow_size_offset.y,
            ),
        ),
        WindowState::Top => Some(
            (
                screen_pos.x + shadow_pos_offset.x,
                screen_pos.y + shadow_pos_offset.y,
                screen_size.x + shadow_size_offset.x,
                half_cy + shadow_size_offset.y,
            ),
        ),
        WindowState::Bottom => Some(
            (
                screen_pos.x + shadow_pos_offset.x,
                screen_pos.y + half_cy + shadow_pos_offset.y,
                screen_size.x + shadow_size_offset.x,
                half_cy + shadow_size_offset.y,
            ),
        ),
        WindowState::Full => Some(
            (
                screen_pos.x + shadow_pos_offset.x,
                screen_pos.y + shadow_pos_offset.y,
                screen_size.x + shadow_size_offset.x,
                screen_size.y + shadow_size_offset.y,
            ),
        ),
    };

    if let Some((pos_x, pos_y, size_x, size_y)) = state_result {
        Ok((WindowTransform::new(pos_x, pos_y), WindowTransform::new(size_x, size_y)))
    } else {
        Err(())
    }
}

/// The position and size of the screen area of a monitor's work area.
pub fn get_screen_transforms(work_area: Rect) -> (r: (WindowTransform, WindowTransform))
    requires
        fits_i32(work_area.right - work_area.left),
        fits_i32(work_area.bottom - work_area.top),
    ensures
        (r.0@, r.1@) == screen_transforms_spec(work_area),
{
    (
        WindowTransform::new(work_area.left, work_area.top),
        WindowTransform::new(work_area.right - work_area.left, work_area.bottom - work_area.top),
    )
}

/// Whether the target position or size differs from the measured one; only
/// then is the window moved.
pub fn check_if_pos_or_size_changed(
    pos_i: WindowTransform,
    size_i: WindowTransform,
    pos_f: WindowTransform,
    size_f: WindowTransform,
) -> (r: bool)
    ensures
        r == (pos_i@ != pos_f@ || size_i@ != size_f@),
{
    pos_i.x != pos_f.x || pos_i.y != pos_f.y || size_i.x != size_f.x || size_i.y != size_f.y
}

/// The position and size a window with the given window bounds, frame bounds
/// and monitor work area is moved to when put into `state`, or `None` where
/// it already has them.
pub fn get_window_state_change(
    window_bounds: Rect,
    shadow_bounds: Rect,
    work_area: Rect,
    state: WindowState,
) -> (r: Option<(WindowTransform, WindowTransform)>)
    requires
        window_state_change_defined(window_bounds, shadow_bounds, work_area, state),
    ensures
        match r {
            Some((pos, size)) => window_state_change_spec(
                window_bounds,
                shadow_bounds,
                work_area,
                state,
            ) == Some((pos@, size@)),
            None => window_state_change_spec(window_bounds, shadow_bounds, work_area, state) is None,
        },
{
    let (screen_pos, screen_size) = get_screen_transforms(work_area);
    let (shadow_pos_offset, shadow_size_offset) = get_shadow_offsets(window_bounds, shadow_bounds);

    let pos_i = WindowTransform::new(window_bounds.left, window_bounds.top);
    let size_i = WindowTransform::new(
        window_bounds.right + shadow_size_offset.x,
        window_bounds.bottom + shadow_size_offset.y,
    );

    let transform_result = get_transform_for_window_state(
        screen_pos,
        screen_size,
        shadow_pos_offset,
        shadow_size_offset,
        state,
    );

    if let Ok((pos_f, size_f)) = transform_result {
        if check_if_pos_or_size_changed(pos_i, size_i, pos_f, size_f) {
            return Some((pos_f, size_f));
        }
    }
    None
}

/// The window manager leaves a window where it is exactly when its measured
/// position (its top-left corner) and its measured size (its right and
/// bottom edges plus the size offset of its frame) both equal the target;
/// otherwise it moves the window to the target.
pub proof fn lemma_window_moves_unless_in_place(
    window_bounds: Rect,
    shadow_bounds: Rect,
    work_area: Rect,
    state: WindowState,
)
    ensures
        ({
            let pos_offset = (
                window_bounds.left - shadow_bounds.left,
                window_bounds.top - shadow_bounds.top,
            );
            let size_offset = (
                window_bounds.right - shadow_bounds.right - pos_offset.0,
                window_bounds.bottom - shadow_bounds.bottom - pos_offset.1,
            );
            let target = window_state_transform_spec(
                (work_area.left as int, work_area.top as int),
                (work_area.right - work_area.left, work_area.bottom - work_area.top),
                pos_offset,
                size_offset,
                state,
            );
            let measured_pos = (window_bounds.left as int, window_bounds.top as int);
            let measured_size = (
                window_bounds.right + size_offset.0,
                window_bounds.bottom + size_offset.1,
            );
            let result = window_state_change_spec(window_bounds, shadow_bounds, work_area, state);
            &&& result is None <==> (measured_pos == target.0 && measured_size == target.1)
            &&& result matches Some(t) ==> t == target
        }),
{
}

/// Moving the screen area moves the target position by the same amount and
/// keeps the target size.
pub proof fn lemma_window_state_follows_screen_origin(
    screen_pos: (int, int),
    screen_size: (int, int),
    shadow_pos_offset: (int, int),
    shadow_size_offset: (int, int),
    state: WindowState,
    dx: int,
    dy: int,
)
    ensures
        ({
            let moved = window_state_transform_spec(
                (screen_pos.0 + dx, screen_pos.1 + dy),
                screen_size,
                shadow_pos_offset,
                shadow_size_offset,
                state,
            );
            let t = window_state_transform_spec(
                screen_pos,
                screen_size,
                shadow_pos_offset,
                shadow_size_offset,
                state,
            );
            moved == ((t.0.0 + dx, t.0.1 + dy), t.1)
        }),
{
}

/// Without frame offsets, the target of every state lies on the screen area.
pub proof fn lemma_window_state_within_screen(
    screen_pos: (int, int),
    screen_size: (int, int),
    state: WindowState,
)
    requires
        screen_size.0 >= 0,
        screen_size.1 >= 0,
    ensures
        ({
            let t = window_state_transform_spec(
                screen_pos,
                screen_size,
                (0int, 0int),
                (0int, 0int),
                state,
            );
            &&& t.1.0 >= 0 && t.1.1 >= 0
            &&& screen_pos.0 <= t.0.0 && t.0.0 + t.1.0 <= screen_pos.0 + screen_size.0
            &&& screen_pos.1 <= t.0.1 && t.0.1 + t.1.1 <= screen_pos.1 + screen_size.1
        }),
{
}

} // verus!
