//! Lifecycle controller for a tray-resident desktop application.
//!
//! The library models the application's lifecycle as a small state machine:
//! a single main window whose close action hides rather than destroys it, a
//! system tray icon with a fixed menu whose quit entry is the only way to end
//! the process, a single-instance guard that redirects duplicate launches into
//! the running process, and a platform notification-state query. Every
//! decision the application makes is a verified function here; the host event
//! loop only performs the returned actions.

pub mod dispatch;
pub mod event;
pub mod launch;
pub mod notify;
pub mod tray;
pub mod window;
