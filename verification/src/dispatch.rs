//! The event dispatcher: a pure table from the current application state and
//! an incoming event to the next state and the action the host must perform.
//! Events are handled one at a time, in arrival order, to completion.

use vstd::prelude::*;
use vstd::string::StringExecFns;

use crate::event::{Action, ClickKind, Event};
use crate::launch::LaunchInvocation;
use crate::window::{AppState, WindowState};

verus! {

/// The state after handling one event. Only the two visibility transitions
/// exist: a close request hides a live window, a tray left-click shows it.
/// Everything else leaves the state unchanged; in particular, quitting is an
/// action, not a state change, and a released window stays released.
pub open spec fn spec_next(s: AppState, e: Event) -> AppState {
    match e {
        Event::WindowCloseRequested => {
            if s.spec_window_live() {
                AppState { window: WindowState::Hidden }
            } else {
                s
            }
        },
        Event::TrayClick(kind) => {
            if kind == ClickKind::Left && s.spec_window_live() {
                AppState { window: WindowState::Visible }
            } else {
                s
            }
        },
        Event::MenuSelect(_) => s,
        Event::DuplicateLaunch(_) => s,
    }
}

/// The action the host performs for one event. A close request on a live
/// window is suppressed and answered by hiding; a tray left-click on a live
/// window shows and focuses it; selecting the `quit` menu item exits
/// unconditionally; every other menu id is ignored; a forwarded duplicate
/// launch is re-emitted towards the UI layer with its exact payload. Events
/// aimed at a released window are silent no-ops.
pub open spec fn spec_action(s: AppState, e: Event) -> Option<Action> {
    match e {
        Event::WindowCloseRequested => {
            if s.spec_window_live() {
                Some(Action::HideWindow)
            } else {
                None
            }
        },
        Event::TrayClick(kind) => {
            if kind == ClickKind::Left && s.spec_window_live() {
                Some(Action::ShowAndFocusWindow)
            } else {
                None
            }
        },
        Event::MenuSelect(id) => {
            if id@ == "quit"@ {
                Some(Action::Exit)
            } else {
                None
            }
        },
        Event::DuplicateLaunch(invocation) => Some(Action::EmitSingleInstance(invocation)),
    }
}

/// The state after handling a whole sequence of events, in arrival order.
pub open spec fn spec_final_state(s: AppState, events: Seq<Event>) -> AppState
    decreases events.len(),
{
    if events.len() == 0 {
        s
    } else {
        spec_final_state(spec_next(s, events[0]), events.drop_first())
    }
}

/// The actions a sequence of events produces, one per event, in arrival order.
pub open spec fn spec_action_trace(s: AppState, events: Seq<Event>) -> Seq<Option<Action>>
    decreases events.len(),
{
    if events.len() == 0 {
        Seq::empty()
    } else {
        seq![spec_action(s, events[0])] + spec_action_trace(spec_next(s, events[0]), events.drop_first())
    }
}

/// A trace produces exactly one action slot per event, and extending the
/// events by one at the end extends the trace by that event's action at the
/// final state reached before it.
pub proof fn lemma_trace_snoc(s: AppState, events: Seq<Event>, e: Event)
    ensures
        spec_action_trace(s, events).len() == events.len(),
        spec_final_state(s, events.push(e)) == spec_next(spec_final_state(s, events), e),
        spec_action_trace(s, events.push(e)) == spec_action_trace(s, events).push(
            spec_action(spec_final_state(s, events), e),
        ),
    decreases events.len(),
{
    reveal_with_fuel(spec_action_trace, 2);
    reveal_with_fuel(spec_final_state, 2);
    if events.len() == 0 {
        assert(events.push(e).drop_first() =~= Seq::<Event>::empty());
        assert(spec_action_trace(s, events.push(e)) =~= spec_action_trace(s, events).push(
            spec_action(spec_final_state(s, events), e),
        ));
    } else {
        let s1 = spec_next(s, events[0]);
        assert(events.push(e).drop_first() =~= events.drop_first().push(e));
        lemma_trace_snoc(s1, events.drop_first(), e);
        assert(spec_action_trace(s, events.push(e)) =~= spec_action_trace(s, events).push(
            spec_action(spec_final_state(s, events), e),
        ));
    }
}

/// Whether a sequence of events, delivered in this state, ever makes the host
/// terminate the process: some event in it is answered with `Exit`.
pub open spec fn trace_terminates(s: AppState, events: Seq<Event>) -> bool {
    exists|i: int|
        0 <= i < spec_action_trace(s, events).len() && spec_action_trace(s, events)[i] == Some(
            Action::Exit,
        )
}

/// Closing the main window never terminates the process: however many close
/// requests arrive, and whatever state they arrive in, no action in the trace
/// is `Exit` — each request is answered by hiding the window, or by nothing.
pub proof fn lemma_close_requests_never_terminate(s: AppState, events: Seq<Event>)
    requires
        forall|i: int| 0 <= i < events.len() ==> events[i] == Event::WindowCloseRequested,
    ensures
        !trace_terminates(s, events),
        s.spec_window_live() ==> spec_final_state(s, events).spec_window_live(),
    decreases events.len(),
{
    reveal_with_fuel(spec_action_trace, 2);
    reveal_with_fuel(spec_final_state, 2);
    if events.len() > 0 {
        let s1 = spec_next(s, events[0]);
        lemma_close_requests_never_terminate(s1, events.drop_first());
        assert forall|i: int|
            0 <= i < spec_action_trace(s, events).len() implies spec_action_trace(s, events)[i]
            != Some(Action::Exit) by {
            if i > 0 {
                assert(spec_action_trace(s, events)[i] == spec_action_trace(
                    s1,
                    events.drop_first(),
                )[i - 1]);
            }
        }
    }
}

/// A close request on a live window hides it and suppresses the close; on a
/// released window it does nothing. In neither case is the answer `Exit`.
pub proof fn lemma_close_hides(s: AppState)
    ensures
        s.spec_window_live() ==> spec_next(s, Event::WindowCloseRequested).window
            == WindowState::Hidden && spec_action(s, Event::WindowCloseRequested) == Some(
            Action::HideWindow,
        ),
        !s.spec_window_live() ==> spec_next(s, Event::WindowCloseRequested) == s && spec_action(
            s,
            Event::WindowCloseRequested,
        ) is None,
        spec_action(s, Event::WindowCloseRequested) != Some(Action::Exit),
{
}

/// Selecting the `quit` menu item terminates the process, whatever the
/// window's visibility state is.
pub proof fn lemma_quit_always_terminates(s: AppState, id: String)
    requires
        id@ == "quit"@,
    ensures
        spec_action(s, Event::MenuSelect(id)) == Some(Action::Exit),
{
}

/// A duplicate launch forwarded by the singleton guard is always re-emitted
/// towards the UI layer with its exact arguments and working directory, and
/// changes nothing else.
pub proof fn lemma_duplicate_launch_delivered(s: AppState, invocation: LaunchInvocation)
    ensures
        spec_action(s, Event::DuplicateLaunch(invocation)) == Some(
            Action::EmitSingleInstance(invocation),
        ),
        spec_next(s, Event::DuplicateLaunch(invocation)) == s,
{
}

/// A left-click on the tray icon shows and focuses a hidden window; on an
/// already visible window it is idempotent: the state is unchanged and no
/// error arises. A second left-click never changes the state further.
pub proof fn lemma_tray_left_click_shows(s: AppState)
    ensures
        s.window == WindowState::Hidden ==> spec_next(s, Event::TrayClick(ClickKind::Left)).window
            == WindowState::Visible && spec_action(s, Event::TrayClick(ClickKind::Left)) == Some(
            Action::ShowAndFocusWindow,
        ),
        s.window == WindowState::Visible ==> spec_next(s, Event::TrayClick(ClickKind::Left)) == s
            && spec_action(s, Event::TrayClick(ClickKind::Left)) == Some(
            Action::ShowAndFocusWindow,
        ),
        spec_next(spec_next(s, Event::TrayClick(ClickKind::Left)), Event::TrayClick(ClickKind::Left))
            == spec_next(s, Event::TrayClick(ClickKind::Left)),
{
}

impl AppState {
    /// Handles one event: updates the state as `spec_next` says and returns
    /// the action `spec_action` says, which the host then performs.
    pub fn handle_event(&mut self, event: Event) -> (action: Option<Action>)
        ensures
            *final(self) == spec_next(*old(self), event),
            action == spec_action(*old(self), event),
    {
        match event {
            Event::WindowCloseRequested => {
                if self.window_live() {
                    self.window = WindowState::Hidden;
                    Some(Action::HideWindow)
                } else {
                    None
                }
            },
            Event::TrayClick(kind) => {
                if kind == ClickKind::Left && self.window_live() {
                    self.window = WindowState::Visible;
                    Some(Action::ShowAndFocusWindow)
                } else {
                    None
                }
            },
            Event::MenuSelect(id) => {
                let quit_id = String::from_str("quit");
                if id == quit_id {
                    Some(Action::Exit)
                } else {
                    None
                }
            },
            Event::DuplicateLaunch(invocation) => {
                Some(Action::EmitSingleInstance(invocation))
            },
        }
    }

    /// Handles a whole batch of events serially, in arrival order, each to
    /// completion before the next, and returns the per-event actions.
    pub fn run_events(&mut self, events: Vec<Event>) -> (actions: Vec<Option<Action>>)
        ensures
            *final(self) == spec_final_state(*old(self), events@),
            actions@ == spec_action_trace(*old(self), events@),
    {
        let ghost all: Seq<Event> = events@;
        let ghost mut done: Seq<Event> = Seq::empty();
        let mut pending = events;
        let mut actions: Vec<Option<Action>> = Vec::new();
        while pending.len() > 0
            invariant
                all == done + pending@,
                *self == spec_final_state(*old(self), done),
                actions@ == spec_action_trace(*old(self), done),
            decreases pending@.len(),
        {
            let e = pending.remove(0);
            proof {
                lemma_trace_snoc(*old(self), done, e);
                done = done.push(e);
            }
            let a = self.handle_event(e);
            actions.push(a);
        }
        proof {
            assert(done =~= all);
        }
        actions
    }
}

} // verus!
