//! The event dispatcher: what arrives from the three event sources (the
//! window manager, the tray icon's pointer, the tray menu) is routed to the
//! controller, and the controller's decision is brought to the debounce
//! clock. What comes back is what remains for the host to carry out.

use crate::clock::DebounceClock;
use crate::controller::close_decision;
use crate::controller::focus_lost_decision;
use crate::controller::menu_decision;
use crate::controller::on_close_requested;
use crate::controller::on_focus_lost;
use crate::controller::on_menu_select;
use crate::controller::on_tray_click;
use crate::controller::only;
use crate::controller::tray_click_decision;
use crate::controller::Decision;
use crate::controller::Followup;
use crate::window::VisibilityAction;
use vstd::prelude::*;

verus! {

/// An event on the main window, as the window manager tags it.
#[derive(Clone, Copy, Debug, PartialEq, Eq, Structural)]
pub enum WindowEvent {
    /// The user asked the window to close.
    CloseRequested,
    /// The window gained (`true`) or lost (`false`) the input focus.
    Focused(bool),
    /// Any other event; none of them concerns visibility.
    Other,
}

#[derive(Clone, Copy, Debug, PartialEq, Eq, Structural)]
pub enum MouseButton {
    Left,
    Right,
    Middle,
}

#[derive(Clone, Copy, Debug, PartialEq, Eq, Structural)]
pub enum MouseButtonState {
    Up,
    Down,
}

/// A pointer event on the tray icon.
#[derive(Clone, Copy, Debug, PartialEq, Eq, Structural)]
pub enum TrayEvent {
    Click { button: MouseButton, button_state: MouseButtonState },
    /// Double clicks and pointer movement over the icon.
    Other,
}

/// What the host has to carry out for an event: the window action first,
/// then the follow-up.
#[derive(Clone, Copy, Debug, PartialEq, Eq, Structural)]
pub struct Reaction {
    pub action: VisibilityAction,
    pub followup: Followup,
}

/// What remains of a decision once the clock has been written.
pub open spec fn remainder(decision: Decision) -> Reaction {
    Reaction { action: decision.action, followup: decision.followup }
}

/// The decision that a window event at `now` calls for. Only a close
/// request and the loss of focus concern the controller.
pub open spec fn window_event_decision(event: WindowEvent, now: u64) -> Decision {
    match event {
        WindowEvent::CloseRequested => close_decision(),
        WindowEvent::Focused(false) => focus_lost_decision(now),
        _ => only(VisibilityAction::Ignore),
    }
}

/// Whether a tray event is the click that the controller answers: the left
/// button, at its release.
pub open spec fn is_primary_release(event: TrayEvent) -> bool {
    event == (TrayEvent::Click { button: MouseButton::Left, button_state: MouseButtonState::Up })
}

/// The decision that a tray event at `now` calls for when the debounce
/// clock reads `stored`.
pub open spec fn tray_event_decision(event: TrayEvent, stored: u64, now: u64) -> Decision {
    if is_primary_release(event) {
        tray_click_decision(stored, now)
    } else {
        only(VisibilityAction::Ignore)
    }
}

/// Routes a window event to the controller.
pub fn route_window_event(event: WindowEvent, now: u64) -> (d: Decision)
    ensures
        d == window_event_decision(event, now),
{
    match event {
        WindowEvent::CloseRequested => on_close_requested(),
        WindowEvent::Focused(false) => on_focus_lost(now),
        _ => Decision {
            record_hide: None,
            action: VisibilityAction::Ignore,
            followup: Followup::Nothing,
        },
    }
}

/// Routes a tray event to the controller, with a reading of the clock.
pub fn route_tray_event(event: TrayEvent, stored: u64, now: u64) -> (d: Decision)
    ensures
        d == tray_event_decision(event, stored, now),
{
    match event {
        TrayEvent::Click { button: MouseButton::Left, button_state: MouseButtonState::Up } => {
            on_tray_click(stored, now)
        },
        _ => Decision {
            record_hide: None,
            action: VisibilityAction::Ignore,
            followup: Followup::Nothing,
        },
    }
}

/// Writes to the clock what a decision asks to be recorded, and hands back
/// the rest. The clock is written only where the decision says so.
pub fn commit(clock: &DebounceClock, decision: Decision) -> (r: Reaction)
    ensures
        r == remainder(decision),
{
    match decision.record_hide {
        Some(timestamp) => {
            clock.record_hide(timestamp);
        },
        None => {},
    }
    Reaction { action: decision.action, followup: decision.followup }
}

/// Handles an event on the main window that arrived at `now`. The loss of
/// focus is the one event that writes the clock.
pub fn dispatch_window_event(clock: &DebounceClock, event: WindowEvent, now: u64) -> (r: Reaction)
    ensures
        r == remainder(window_event_decision(event, now)),
{
    let decision = route_window_event(event, now);
    commit(clock, decision)
}

/// Handles a pointer event on the tray icon that arrived at `now`. The
/// click is the one event that reads the clock; what it reads is not known
/// here, so the reaction is the one called for by some reading.
pub fn dispatch_tray_event(clock: &DebounceClock, event: TrayEvent, now: u64) -> (r: Reaction)
    ensures
        exists|stored: u64| r == remainder(#[trigger] tray_event_decision(event, stored, now)),
        !is_primary_release(event) ==> r == remainder(only(VisibilityAction::Ignore)),
{
    match event {
        TrayEvent::Click { button: MouseButton::Left, button_state: MouseButtonState::Up } => {
            let stored = clock.snapshot();
            let decision = route_tray_event(event, stored, now);
            commit(clock, decision)
        },
        _ => {
            assert(tray_event_decision(event, 0, now) == only(VisibilityAction::Ignore));
            Reaction { action: VisibilityAction::Ignore, followup: Followup::Nothing }
        },
    }
}

/// Handles the selection of the tray menu's item `id`. No menu item reads
/// or writes the clock.
pub fn dispatch_menu_event(id: &str) -> (r: Reaction)
    ensures
        r == remainder(menu_decision(id@)),
{
    let decision = on_menu_select(id);
    Reaction { action: decision.action, followup: decision.followup }
}

} // verus!
