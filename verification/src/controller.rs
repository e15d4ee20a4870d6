//! The window visibility controller: for each kind of event, the decision it
//! calls for. Every decision is a function of plain values: the event, the
//! time, a reading of the debounce clock and the window's flags as the host
//! reported them. Nothing here touches the window or the clock itself.

use crate::clock::elapsed;
use crate::clock::elapsed_between;
use crate::clock::DEBOUNCE_MILLIS;
use crate::window::VisibilityAction;
use vstd::prelude::*;

verus! {

/// What is left to do once the window action has been carried out.
#[derive(Clone, Copy, Debug, PartialEq, Eq, Structural)]
pub enum Followup {
    Nothing,
    /// Suppress the host's default handling of the close request, which
    /// would end the process.
    PreventClose,
    /// Empty the task store.
    ClearTasks,
    /// End the process: the user asked to quit.
    ExitProcess,
    /// Emit a diagnostic: the menu item is not one the controller knows.
    ReportUnhandled,
}

/// A decision, in the order in which it is carried out: first the clock is
/// written, then the window is acted on, then the follow-up is done.
#[derive(Clone, Copy, Debug, PartialEq, Eq, Structural)]
pub struct Decision {
    /// The timestamp to record in the debounce clock, if any.
    pub record_hide: Option<u64>,
    pub action: VisibilityAction,
    pub followup: Followup,
}

/// A decision that only acts on the window.
pub open spec fn only(action: VisibilityAction) -> Decision {
    Decision { record_hide: None, action, followup: Followup::Nothing }
}

/// A close request hides the window and keeps the process alive.
pub open spec fn close_decision() -> Decision {
    Decision {
        record_hide: None,
        action: VisibilityAction::Hide,
        followup: Followup::PreventClose,
    }
}

/// Losing the focus at `now` records `now` and hides the window.
pub open spec fn focus_lost_decision(now: u64) -> Decision {
    Decision {
        record_hide: Some(now),
        action: VisibilityAction::Hide,
        followup: Followup::Nothing,
    }
}

/// Whether a tray click at `now` is fallout of the focus-loss hide recorded
/// as `stored`: a hide was recorded, and less than the threshold has passed
/// since.
pub open spec fn is_spurious_click(stored: u64, now: u64) -> bool {
    match elapsed_between(stored, now) {
        Some(millis) => millis < DEBOUNCE_MILLIS,
        None => false,
    }
}

/// A spurious tray click is ignored; any other shows the window.
pub open spec fn tray_click_decision(stored: u64, now: u64) -> Decision {
    if is_spurious_click(stored, now) {
        only(VisibilityAction::Ignore)
    } else {
        only(VisibilityAction::Show)
    }
}

/// Toggling hides a window known to be visible and not minimized, and shows
/// it in every other case; a flag that could not be read (`None`) counts
/// towards showing.
pub open spec fn tray_toggle_decision(visible: Option<bool>, minimized: Option<bool>) -> Decision {
    if visible == Some(true) && minimized == Some(false) {
        only(VisibilityAction::Hide)
    } else {
        only(VisibilityAction::Show)
    }
}

/// What the tray menu's item `id` calls for.
pub open spec fn menu_decision(id: Seq<char>) -> Decision {
    if id == "open"@ {
        only(VisibilityAction::Show)
    } else if id == "clear"@ {
        Decision {
            record_hide: None,
            action: VisibilityAction::Ignore,
            followup: Followup::ClearTasks,
        }
    } else if id == "quit"@ {
        Decision {
            record_hide: None,
            action: VisibilityAction::Destroy,
            followup: Followup::ExitProcess,
        }
    } else {
        Decision {
            record_hide: None,
            action: VisibilityAction::Ignore,
            followup: Followup::ReportUnhandled,
        }
    }
}

/// Tearing down is unconditional.
pub open spec fn destroy_decision() -> Decision {
    only(VisibilityAction::Destroy)
}

/// The user asked the window to close: hide it instead, and suppress the
/// default close so that the process lives on. No debounce applies.
pub fn on_close_requested() -> (d: Decision)
    ensures
        d == close_decision(),
{
    Decision {
        record_hide: None,
        action: VisibilityAction::Hide,
        followup: Followup::PreventClose,
    }
}

/// The window lost the input focus at `now`: record that, then hide it.
pub fn on_focus_lost(now: u64) -> (d: Decision)
    ensures
        d == focus_lost_decision(now),
{
    Decision { record_hide: Some(now), action: VisibilityAction::Hide, followup: Followup::Nothing }
}

/// The tray icon was clicked at `now`, and the debounce clock read `stored`.
pub fn on_tray_click(stored: u64, now: u64) -> (d: Decision)
    ensures
        d == tray_click_decision(stored, now),
{
    let spurious = match elapsed(stored, now) {
        Some(millis) => millis < DEBOUNCE_MILLIS,
        None => false,
    };
    let action = if spurious {
        VisibilityAction::Ignore
    } else {
        VisibilityAction::Show
    };
    Decision { record_hide: None, action, followup: Followup::Nothing }
}

/// The tray icon was clicked under the toggling policy, which needs no
/// debounce. `visible` and `minimized` are the window's flags as just
/// queried, `None` where the query failed.
pub fn on_tray_toggle(visible: Option<bool>, minimized: Option<bool>) -> (d: Decision)
    ensures
        d == tray_toggle_decision(visible, minimized),
{
    let shown = match visible {
        Some(flag) => flag,
        None => false,
    };
    let unminimized = match minimized {
        Some(flag) => !flag,
        None => false,
    };
    let action = if shown && unminimized {
        VisibilityAction::Hide
    } else {
        VisibilityAction::Show
    };
    Decision { record_hide: None, action, followup: Followup::Nothing }
}

/// Whether two strings hold the same text.
fn same_text(a: &str, b: &str) -> (same: bool)
    ensures
        same == (a@ == b@),
{
    let left = a.to_owned();
    let right = b.to_owned();
    left == right
}

/// The tray menu's item `id` was selected.
pub fn on_menu_select(id: &str) -> (d: Decision)
    ensures
        d == menu_decision(id@),
{
    if same_text(id, "open") {
        Decision { record_hide: None, action: VisibilityAction::Show, followup: Followup::Nothing }
    } else if same_text(id, "clear") {
        Decision {
            record_hide: None,
            action: VisibilityAction::Ignore,
            followup: Followup::ClearTasks,
        }
    } else if same_text(id, "quit") {
        Decision {
            record_hide: None,
            action: VisibilityAction::Destroy,
            followup: Followup::ExitProcess,
        }
    } else {
        Decision {
            record_hide: None,
            action: VisibilityAction::Ignore,
            followup: Followup::ReportUnhandled,
        }
    }
}

/// The window is to be torn down, whatever its state.
pub fn on_destroy_requested() -> (d: Decision)
    ensures
        d == destroy_decision(),
{
    Decision { record_hide: None, action: VisibilityAction::Destroy, followup: Followup::Nothing }
}

} // verus!
