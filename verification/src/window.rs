//! The main window's visibility state and the application context that owns it.

use vstd::prelude::*;

verus! {

/// State of the one main window. The window is created visible at startup and
/// is never destroyed while the process runs: a close request only hides it.
/// `Released` describes the window handle during teardown after an explicit
/// quit, when visibility operations become no-ops.
#[derive(Clone, Copy, Debug, PartialEq, Eq, Structural)]
pub enum WindowState {
    Visible,
    Hidden,
    Released,
}

/// The application context: the state every event handler reads and updates.
/// At most one of these exists per process; it owns the main window's state.
#[derive(Clone, Copy, Debug, PartialEq, Eq, Structural)]
pub struct AppState {
    pub window: WindowState,
}

impl AppState {
    /// The context of a freshly started first instance: the main window has
    /// just been created and is visible.
    pub fn new() -> (s: AppState)
        ensures
            s.window == WindowState::Visible,
    {
        AppState { window: WindowState::Visible }
    }

    /// Marks the window handle as released, as happens while the process tears
    /// down after an explicit quit. From then on visibility operations are
    /// no-ops.
    pub fn release_window(&mut self)
        ensures
            final(self).window == WindowState::Released,
    {
        self.window = WindowState::Released;
    }

    /// Whether the window handle is still valid, i.e. show/hide/focus requests
    /// can still reach a live window.
    pub open spec fn spec_window_live(self) -> bool {
        self.window != WindowState::Released
    }

    /// Executable form of `spec_window_live`.
    pub fn window_live(&self) -> (r: bool)
        ensures
            r == self.spec_window_live(),
    {
        match self.window {
            WindowState::Released => false,
            _ => true,
        }
    }
}

} // verus!
