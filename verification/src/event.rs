//! The closed set of lifecycle events the host event loop delivers, and the
//! actions the dispatcher answers them with.

use vstd::prelude::*;

use crate::launch::LaunchInvocation;

verus! {

/// Kind of a click on the tray icon.
#[derive(Clone, Copy, Debug, PartialEq, Eq, Structural)]
pub enum ClickKind {
    Left,
    Right,
    Other,
}

/// A lifecycle event, delivered serially by the host event loop.
#[derive(Clone, Debug, PartialEq, Eq)]
pub enum Event {
    /// The user asked to close the main window.
    WindowCloseRequested,
    /// The tray icon was clicked.
    TrayClick(ClickKind),
    /// A tray menu item was selected, identified by its id string.
    MenuSelect(String),
    /// Another launch attempt was redirected into this instance by the
    /// singleton guard, carrying that attempt's arguments and working
    /// directory.
    DuplicateLaunch(LaunchInvocation),
}

/// What the host must do in answer to an event. Handlers perform no I/O
/// themselves; they only return one of these.
#[derive(Clone, Debug, PartialEq, Eq)]
pub enum Action {
    /// Suppress the window's default close action and hide the window instead.
    HideWindow,
    /// Make the main window visible and give it input focus.
    ShowAndFocusWindow,
    /// Terminate the process with exit code 0.
    Exit,
    /// Raise the `single-instance` event towards the UI layer with the
    /// forwarded invocation as payload.
    EmitSingleInstance(LaunchInvocation),
}

} // verus!
