//! The tray application's event dispatch and UI state.
//!
//! The UI thread forwards discrete events over a queue; a worker drains it
//! and acts. The decisions live here, verified: each event maps to exactly
//! one action, the checkbox state changes only on a checkbox click, and only
//! an exit request stops the loop. The surrounding application performs the
//! actions (registry toggle, preference write, process exit).

use vstd::prelude::*;

verus! {

/// The discrete UI events the tray application handles: the three known
/// interactions plus a catch-all for anything else the toolkit delivers.
#[derive(Clone, Copy, Debug, PartialEq, Eq, Structural)]
pub enum TrayEvent {
    /// The tray icon itself was clicked.
    IconClicked,
    /// The checkable "System Theme" menu item was clicked.
    CheckboxClicked,
    /// The "Exit" menu item was clicked.
    ExitRequested,
    /// Any other event: logged and ignored, never a crash.
    Other,
}

/// What the worker must do for one event.
#[derive(Clone, Copy, Debug, PartialEq, Eq, Structural)]
pub enum TrayAction {
    /// Toggle the appearance flags; `mirror` carries the checkbox state.
    ToggleTheme { mirror: bool },
    /// Render the checkbox as `checked` and persist that value.
    SetCheckboxAndPersist { checked: bool },
    /// Terminate the process.
    Exit,
    /// Do nothing.
    Ignore,
}

/// The action one event demands, given the checkbox state at dispatch time.
pub open spec fn dispatch_spec(e: TrayEvent, checkbox_checked: bool) -> TrayAction {
    match e {
        TrayEvent::IconClicked => TrayAction::ToggleTheme { mirror: checkbox_checked },
        TrayEvent::CheckboxClicked => (TrayAction::SetCheckboxAndPersist {
            checked: !checkbox_checked,
        }),
        TrayEvent::ExitRequested => TrayAction::Exit,
        TrayEvent::Other => TrayAction::Ignore,
    }
}

/// The checkbox state after one event: negated by a checkbox click, kept by
/// everything else.
pub open spec fn checkbox_after(e: TrayEvent, checkbox_checked: bool) -> bool {
    match e {
        TrayEvent::CheckboxClicked => !checkbox_checked,
        _ => checkbox_checked,
    }
}

/// Whether the loop keeps running after one event: only an exit request
/// stops it.
pub open spec fn running_after(e: TrayEvent, running: bool) -> bool {
    match e {
        TrayEvent::ExitRequested => false,
        _ => running,
    }
}

/// The tray application's own state: the rendered checkbox and whether the
/// event loop is still live.
#[derive(Clone, Copy, Debug, PartialEq, Eq, Structural)]
pub struct TrayApp {
    /// The checkable "System Theme" menu item's rendered state. It mirrors
    /// the persisted preference: initialized from it at startup, and every
    /// change is persisted in the same step.
    pub checkbox_checked: bool,
    /// False once an exit request has been handled.
    pub running: bool,
}

impl TrayApp {
    /// Builds the tray state at startup. The checkbox starts in the state
    /// the persisted preference dictates, never a hardcoded constant.
    pub fn startup(stored_preference: bool) -> (app: TrayApp)
        ensures
            app.checkbox_checked == stored_preference,
            app.running,
    {
        TrayApp { checkbox_checked: stored_preference, running: true }
    }

    /// Handles one event: returns the action the worker must perform and
    /// updates the tray state as that action demands.
    pub fn handle_event(&mut self, e: TrayEvent) -> (a: TrayAction)
        ensures
            a == dispatch_spec(e, old(self).checkbox_checked),
            final(self).checkbox_checked == checkbox_after(e, old(self).checkbox_checked),
            final(self).running == running_after(e, old(self).running),
    {
        match e {
            TrayEvent::IconClicked => TrayAction::ToggleTheme { mirror: self.checkbox_checked },
            TrayEvent::CheckboxClicked => {
                let new_state = !self.checkbox_checked;
                self.checkbox_checked = new_state;
                TrayAction::SetCheckboxAndPersist { checked: new_state }
            },
            TrayEvent::ExitRequested => {
                self.running = false;
                TrayAction::Exit
            },
            TrayEvent::Other => TrayAction::Ignore,
        }
    }
}

} // verus!
