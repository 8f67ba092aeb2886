use vstd::prelude::*;

use crate::config::copy_text;

verus! {

/// Outer position and size of the main window. A zero width or height means
/// that no size was recorded.
#[derive(PartialEq, Eq, Structural, Clone, Copy, Debug)]
pub struct WindowBounds {
    pub x: i32,
    pub y: i32,
    pub width: u32,
    pub height: u32,
}

/// Window and session state kept between runs.
#[derive(Debug, PartialEq, Eq)]
pub struct AppState {
    pub window_bounds: Option<WindowBounds>,
    pub last_active_channel: Option<String>,
    /// Opaque timestamp until which update prompts are snoozed.
    pub updater_snooze_until: Option<String>,
}

/// Holds the current state.
pub struct StateStore {
    current: AppState,
}

/// The result of a load.
#[derive(Debug, PartialEq, Eq)]
pub struct LoadedState {
    /// The state, now held by the store.
    pub state: AppState,
    /// The state file is absent and must be created with `state`.
    pub create_file: bool,
}

impl AppState {
    /// The state of a first start: nothing recorded.
    pub open spec fn empty() -> AppState {
        AppState { window_bounds: None, last_active_channel: None, updater_snooze_until: None }
    }
}

impl Default for AppState {
    fn default() -> (r: AppState)
        ensures
            r == AppState::empty(),
    {
        AppState { window_bounds: None, last_active_channel: None, updater_snooze_until: None }
    }
}

impl Clone for AppState {
    fn clone(&self) -> (r: AppState)
        ensures
            r == *self,
    {
        AppState {
            window_bounds: self.window_bounds,
            last_active_channel: copy_text(&self.last_active_channel),
            updater_snooze_until: copy_text(&self.updater_snooze_until),
        }
    }
}

impl View for StateStore {
    type V = AppState;

    /// The value held.
    closed spec fn view(&self) -> AppState {
        self.current
    }
}

impl StateStore {
    /// A store holding the empty state.
    pub fn new() -> (r: StateStore)
        ensures
            r@ == AppState::empty(),
    {
        StateStore { current: AppState::default() }
    }

    /// A copy of the state held.
    pub fn get(&self) -> (r: AppState)
        ensures
            r == self@,
    {
        self.current.clone()
    }

    /// Holds `state` and returns it.
    pub fn set(&mut self, state: AppState) -> (r: AppState)
        ensures
            r == state,
            final(self)@ == state,
    {
        self.current = state.clone();
        state
    }

    /// Completes a load: `read` is the parsed state file, `None` where it is
    /// absent. The state read, or the empty state, is held and returned.
    pub fn load(&mut self, read: Option<AppState>) -> (r: LoadedState)
        ensures
            r.state == match read {
                Some(s) => s,
                None => AppState::empty(),
            },
            r.create_file == read is None,
            final(self)@ == r.state,
    {
        let create_file = read.is_none();
        let base = match read {
            Some(s) => s,
            None => AppState::default(),
        };
        let state = self.set(base);
        LoadedState { state, create_file }
    }
}

} // verus!
