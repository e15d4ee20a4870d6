//! What holds of the controller's decisions taken together, stated over a
//! run of the application: the window's logical state and the value of the
//! debounce clock, as one decision after another shapes them.

use crate::clock::elapsed_between;
use crate::clock::stored_after;
use crate::clock::DEBOUNCE_MILLIS;
use crate::clock::NEVER_HIDDEN;
use crate::controller::close_decision;
use crate::controller::destroy_decision;
use crate::controller::focus_lost_decision;
use crate::controller::menu_decision;
use crate::controller::tray_click_decision;
use crate::controller::tray_toggle_decision;
use crate::controller::Decision;
use crate::controller::Followup;
use crate::window::planned_steps;
use crate::window::VisibilityAction;
use crate::window::WindowState;
use vstd::prelude::*;

verus! {

/// A moment in a run: the window's state and what the clock holds.
pub struct Run {
    pub window: WindowState,
    pub last_hide: u64,
}

impl Run {
    /// The run once `decision` has been carried out.
    pub open spec fn after(self, decision: Decision) -> Run {
        Run {
            window: self.window.after(decision.action),
            last_hide: match decision.record_hide {
                Some(timestamp) => timestamp,
                None => self.last_hide,
            },
        }
    }

    /// The flags that the host reports of the window at this moment, both
    /// read without failure.
    pub open spec fn visible_flag(self) -> Option<bool> {
        Some(self.window.shows_visible())
    }

    pub open spec fn minimized_flag(self) -> Option<bool> {
        Some(self.window.shows_minimized())
    }
}

/// The window loses the focus at `lost_at`, a time other than zero, and the
/// tray icon is clicked at `now`, no earlier. If less than the threshold
/// lies between the two, the click is ignored and a live window stays
/// hidden; otherwise the click shows it.
pub proof fn law_click_after_focus_loss(start: Run, lost_at: u64, now: u64)
    requires
        lost_at != NEVER_HIDDEN,
        lost_at <= now,
    ensures
        ({
            let hidden = start.after(focus_lost_decision(lost_at));
            let click = tray_click_decision(hidden.last_hide, now);
            let end = hidden.after(click);
            &&& start.window != WindowState::Destroyed ==> hidden.window == WindowState::Hidden
            &&& now - lost_at < DEBOUNCE_MILLIS ==> {
                &&& click.action == VisibilityAction::Ignore
                &&& end.window == hidden.window
            }
            &&& now - lost_at >= DEBOUNCE_MILLIS ==> {
                &&& click.action == VisibilityAction::Show
                &&& (start.window != WindowState::Destroyed ==> end.window == WindowState::Visible)
            }
        }),
{
}

/// While no focus-loss hide has been recorded, no tray click is ignored.
pub proof fn law_first_click_shows(now: u64)
    ensures
        tray_click_decision(NEVER_HIDDEN, now).action == VisibilityAction::Show,
{
}

/// A close request does not end the process: it asks for the default close
/// to be suppressed, and it leaves a live window hidden.
pub proof fn law_close_hides_and_keeps_alive(start: Run)
    ensures
        close_decision().followup == Followup::PreventClose,
        close_decision().followup != Followup::ExitProcess,
        start.window != WindowState::Destroyed ==> start.after(close_decision()).window
            == WindowState::Hidden,
        start.after(close_decision()).last_hide == start.last_hide,
{
}

/// Tearing the window down is idempotent: from any state the first
/// teardown ends in `Destroyed`, and so does a second; the second finds no
/// window and takes no step, so it has nothing to fail on.
pub proof fn law_destroy_is_idempotent(start: Run)
    ensures
        start.after(destroy_decision()).window == WindowState::Destroyed,
        start.after(destroy_decision()).after(destroy_decision()).window == WindowState::Destroyed,
        planned_steps(destroy_decision().action, false) == Seq::<crate::window::WindowStep>::empty(),
{
}

/// No decision brings a destroyed window back.
pub proof fn law_destroyed_is_terminal(start: Run, decision: Decision)
    requires
        start.window == WindowState::Destroyed,
    ensures
        start.after(decision).window == WindowState::Destroyed,
{
}

/// The clock reports nothing before the first recording. After a recording
/// at `at`, a time other than zero, it reports at any `now` from `at` on
/// exactly `now - at`, whatever was recorded before.
pub proof fn law_clock_reports_elapsed(earlier: Seq<u64>, at: u64, now: u64)
    requires
        at != NEVER_HIDDEN,
        at <= now,
    ensures
        elapsed_between(stored_after(Seq::empty()), now) == None::<u64>,
        elapsed_between(stored_after(earlier.push(at)), now) == Some((now - at) as u64),
{
}

/// Toggling shows a live window that is hidden or minimized and hides one
/// that is visible. So of two toggles in a row on a hidden window, the
/// first makes it visible and the second hides it again.
pub proof fn law_toggle_alternates(start: Run)
    requires
        start.window != WindowState::Destroyed,
    ensures
        ({
            let once = start.after(tray_toggle_decision(start.visible_flag(), start.minimized_flag()));
            let twice = once.after(tray_toggle_decision(once.visible_flag(), once.minimized_flag()));
            &&& start.window == WindowState::Visible ==> once.window == WindowState::Hidden
            &&& start.window != WindowState::Visible ==> once.window == WindowState::Visible
            &&& start.window == WindowState::Hidden ==> twice.window == WindowState::Hidden
            &&& once.last_hide == start.last_hide
        }),
{
}

/// A toggle that could not read one of the window's flags shows the window.
pub proof fn law_toggle_fails_open(visible: Option<bool>, minimized: Option<bool>)
    requires
        visible is None || minimized is None,
    ensures
        tray_toggle_decision(visible, minimized).action == VisibilityAction::Show,
{
}

/// A menu item that is none of the three known ones changes nothing: the
/// window and the clock stay as they are, and a diagnostic is asked for.
pub proof fn law_unknown_menu_item_changes_nothing(start: Run, id: Seq<char>)
    requires
        id != "open"@,
        id != "clear"@,
        id != "quit"@,
    ensures
        menu_decision(id).followup == Followup::ReportUnhandled,
        start.after(menu_decision(id)) == start,
{
}

} // verus!
