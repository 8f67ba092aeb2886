use vstd::prelude::*;

use crate::state::{AppState, StateStore, WindowBounds};

verus! {

/// Outer position of a window, in physical pixels.
#[derive(PartialEq, Eq, Structural, Clone, Copy, Debug)]
pub struct WindowPosition {
    pub x: i32,
    pub y: i32,
}

/// Outer size of a window, in physical pixels.
#[derive(PartialEq, Eq, Structural, Clone, Copy, Debug)]
pub struct WindowSize {
    pub width: u32,
    pub height: u32,
}

/// The window notifications that the synchronizer follows.
#[derive(PartialEq, Eq, Structural, Clone, Copy, Debug)]
pub enum WindowNotification {
    Moved(WindowPosition),
    Resized(WindowSize),
    CloseRequested,
}

/// How to bring a window back to recorded bounds: always the position, the
/// size only where one was recorded.
#[derive(PartialEq, Eq, Structural, Clone, Copy, Debug)]
pub struct RestorePlan {
    pub size: Option<WindowSize>,
    pub position: WindowPosition,
}

/// Bounds with nothing recorded.
pub open spec fn zero_bounds() -> WindowBounds {
    WindowBounds { x: 0, y: 0, width: 0, height: 0 }
}

/// `state` with its bounds (zero bounds where none were recorded) moved to
/// `position` and resized to `size`, each where given.
pub open spec fn with_bounds(
    state: AppState,
    position: Option<WindowPosition>,
    size: Option<WindowSize>,
) -> AppState {
    let b = match state.window_bounds {
        Some(b) => b,
        None => zero_bounds(),
    };
    let moved = match position {
        Some(p) => WindowBounds { x: p.x, y: p.y, ..b },
        None => b,
    };
    let sized = match size {
        Some(s) => WindowBounds { width: s.width, height: s.height, ..moved },
        None => moved,
    };
    AppState { window_bounds: Some(sized), ..state }
}

/// The state after a notification, and the state to write to disk if any:
/// moves and resizes update the bounds in memory only; a close request
/// writes the whole state.
pub open spec fn after_notification(state: AppState, n: WindowNotification) -> (
    AppState,
    Option<AppState>,
) {
    match n {
        WindowNotification::Moved(p) => (with_bounds(state, Some(p), None), None),
        WindowNotification::Resized(s) => (with_bounds(state, None, Some(s)), None),
        WindowNotification::CloseRequested => (state, Some(state)),
    }
}

/// The plan that restores recorded bounds, if any: a zero width or height
/// leaves the size as it is.
pub open spec fn restore_plan_spec(state: AppState) -> Option<RestorePlan> {
    match state.window_bounds {
        Some(b) => Some(
            RestorePlan {
                size: if b.width > 0 && b.height > 0 {
                    Some(WindowSize { width: b.width, height: b.height })
                } else {
                    None
                },
                position: WindowPosition { x: b.x, y: b.y },
            },
        ),
        None => None,
    }
}

/// Records a new position and/or size of the window in the store.
pub fn update_bounds(
    store: &mut StateStore,
    position: Option<WindowPosition>,
    size: Option<WindowSize>,
)
    ensures
        final(store)@ == with_bounds(old(store)@, position, size),
{
    let mut state = store.get();
    let mut bounds = match state.window_bounds {
        Some(b) => b,
        None => WindowBounds { x: 0, y: 0, width: 0, height: 0 },
    };
    if let Some(pos) = position {
        bounds.x = pos.x;
        bounds.y = pos.y;
    }
    if let Some(sz) = size {
        bounds.width = sz.width;
        bounds.height = sz.height;
    }
    state.window_bounds = Some(bounds);
    store.set(state);
}

/// Follows one window notification; returns the state to write to disk when
/// the window is about to close.
pub fn handle_window_notification(store: &mut StateStore, n: WindowNotification) -> (r: Option<
    AppState,
>)
    ensures
        (final(store)@, r) == after_notification(old(store)@, n),
{
    match n {
        WindowNotification::Moved(p) => {
            update_bounds(store, Some(p), None);
            None
        },
        WindowNotification::Resized(s) => {
            update_bounds(store, None, Some(s));
            None
        },
        WindowNotification::CloseRequested => Some(store.get()),
    }
}

/// How to restore the window to the bounds recorded in `state`.
pub fn restore_plan(state: &AppState) -> (r: Option<RestorePlan>)
    ensures
        r == restore_plan_spec(*state),
{
    match state.window_bounds {
        Some(b) => {
            let size = if b.width > 0 && b.height > 0 {
                Some(WindowSize { width: b.width, height: b.height })
            } else {
                None
            };
            Some(RestorePlan { size, position: WindowPosition { x: b.x, y: b.y } })
        },
        None => None,
    }
}

/// A move to `(x, y)`, then a resize to `width` by `height`, then a close
/// request, write a state whose bounds are exactly those, whatever was
/// recorded before; the rest of the state is kept.
pub proof fn law_bounds_follow_notifications(
    start: AppState,
    x: i32,
    y: i32,
    width: u32,
    height: u32,
)
    ensures
        ({
            let (s1, w1) = after_notification(
                start,
                WindowNotification::Moved(WindowPosition { x, y }),
            );
            let (s2, w2) = after_notification(
                s1,
                WindowNotification::Resized(WindowSize { width, height }),
            );
            let (s3, w3) = after_notification(s2, WindowNotification::CloseRequested);
            &&& w1 is None
            &&& w2 is None
            &&& w3 == Some(s3)
            &&& s3.window_bounds == Some(WindowBounds { x, y, width, height })
            &&& s3.last_active_channel == start.last_active_channel
            &&& s3.updater_snooze_until == start.updater_snooze_until
        }),
{
}

} // verus!
