use entrainde::clock::DebounceClock;
use entrainde::controller::on_focus_lost;
use entrainde::controller::Followup;
use entrainde::dispatch::commit;
use entrainde::dispatch::dispatch_menu_event;
use entrainde::dispatch::dispatch_tray_event;
use entrainde::dispatch::dispatch_window_event;
use entrainde::dispatch::route_tray_event;
use entrainde::dispatch::route_window_event;
use entrainde::dispatch::MouseButton;
use entrainde::dispatch::MouseButtonState;
use entrainde::dispatch::Reaction;
use entrainde::dispatch::TrayEvent;
use entrainde::dispatch::WindowEvent;
use entrainde::tasks::clear_all_tasks;
use entrainde::tasks::Task;
use entrainde::window::steps_for;
use entrainde::window::VisibilityAction;
use entrainde::window::WindowState;
use entrainde::window::WindowStep;

const CLICK: TrayEvent =
    TrayEvent::Click { button: MouseButton::Left, button_state: MouseButtonState::Up };

fn just(action: VisibilityAction) -> Reaction {
    Reaction { action, followup: Followup::Nothing }
}

#[test]
fn click_soon_after_focus_loss_leaves_window_hidden() {
    let clock = DebounceClock::new();
    let mut state = WindowState::Visible;

    let lost = dispatch_window_event(&clock, WindowEvent::Focused(false), 1_000);
    assert_eq!(lost, just(VisibilityAction::Hide));
    state = state.apply(lost.action);
    assert_eq!(state, WindowState::Hidden);

    let early = dispatch_tray_event(&clock, CLICK, 1_150);
    assert_eq!(early, just(VisibilityAction::Ignore));
    assert_eq!(steps_for(early.action, true), vec![]);
    state = state.apply(early.action);
    assert_eq!(state, WindowState::Hidden);

    let late = dispatch_tray_event(&clock, CLICK, 1_250);
    assert_eq!(late, just(VisibilityAction::Show));
    assert_eq!(
        steps_for(late.action, true),
        vec![WindowStep::Reposition, WindowStep::Unminimize, WindowStep::Show, WindowStep::Focus]
    );
    state = state.apply(late.action);
    assert_eq!(state, WindowState::Visible);
}

#[test]
fn debounce_gate_opens_at_exactly_the_threshold() {
    for lost_at in [1_u64, 1_000, 1_700_000_000_000] {
        let clock = DebounceClock::new();
        dispatch_window_event(&clock, WindowEvent::Focused(false), lost_at);
        for gap in [0_u64, 1, 199] {
            assert_eq!(
                dispatch_tray_event(&clock, CLICK, lost_at + gap),
                just(VisibilityAction::Ignore)
            );
        }
        for gap in [200_u64, 201, 60_000] {
            assert_eq!(
                dispatch_tray_event(&clock, CLICK, lost_at + gap),
                just(VisibilityAction::Show)
            );
        }
    }
}

#[test]
fn click_without_earlier_focus_loss_shows() {
    let clock = DebounceClock::new();
    assert_eq!(dispatch_tray_event(&clock, CLICK, 10), just(VisibilityAction::Show));
}

#[test]
fn only_the_left_release_counts_as_a_click() {
    let clock = DebounceClock::new();
    let others = [
        TrayEvent::Click { button: MouseButton::Left, button_state: MouseButtonState::Down },
        TrayEvent::Click { button: MouseButton::Right, button_state: MouseButtonState::Up },
        TrayEvent::Click { button: MouseButton::Right, button_state: MouseButtonState::Down },
        TrayEvent::Click { button: MouseButton::Middle, button_state: MouseButtonState::Up },
        TrayEvent::Click { button: MouseButton::Middle, button_state: MouseButtonState::Down },
        TrayEvent::Other,
    ];
    for event in others {
        assert_eq!(dispatch_tray_event(&clock, event, 5_000), just(VisibilityAction::Ignore));
        assert_eq!(route_tray_event(event, 0, 5_000).action, VisibilityAction::Ignore);
    }
    assert_eq!(route_tray_event(CLICK, 0, 5_000).action, VisibilityAction::Show);
    assert_eq!(route_tray_event(CLICK, 4_900, 5_000).action, VisibilityAction::Ignore);
}

#[test]
fn close_request_keeps_the_process_alive() {
    let clock = DebounceClock::new();
    let reaction = dispatch_window_event(&clock, WindowEvent::CloseRequested, 3_000);
    assert_eq!(
        reaction,
        Reaction { action: VisibilityAction::Hide, followup: Followup::PreventClose }
    );
    assert_eq!(clock.snapshot(), 0);
    assert_eq!(dispatch_tray_event(&clock, CLICK, 3_010), just(VisibilityAction::Show));
}

#[test]
fn only_focus_loss_writes_the_clock() {
    let clock = DebounceClock::new();
    dispatch_window_event(&clock, WindowEvent::Focused(true), 1_000);
    assert_eq!(clock.snapshot(), 0);
    dispatch_window_event(&clock, WindowEvent::Other, 2_000);
    assert_eq!(clock.snapshot(), 0);
    dispatch_window_event(&clock, WindowEvent::CloseRequested, 3_000);
    assert_eq!(clock.snapshot(), 0);
    dispatch_tray_event(&clock, CLICK, 4_000);
    assert_eq!(clock.snapshot(), 0);
    dispatch_menu_event("open");
    assert_eq!(clock.snapshot(), 0);
    dispatch_window_event(&clock, WindowEvent::Focused(false), 5_000);
    assert_eq!(clock.snapshot(), 5_000);
    dispatch_tray_event(&clock, CLICK, 5_100);
    assert_eq!(clock.snapshot(), 5_000);
}

#[test]
fn window_events_other_than_close_and_focus_loss_are_ignored() {
    assert_eq!(route_window_event(WindowEvent::Focused(true), 9).action, VisibilityAction::Ignore);
    assert_eq!(route_window_event(WindowEvent::Focused(true), 9).record_hide, None);
    assert_eq!(route_window_event(WindowEvent::Other, 9).action, VisibilityAction::Ignore);
    assert_eq!(route_window_event(WindowEvent::Focused(false), 9), on_focus_lost(9));
}

#[test]
fn commit_records_what_the_decision_asks() {
    let clock = DebounceClock::new();
    let reaction = commit(&clock, on_focus_lost(77));
    assert_eq!(reaction, just(VisibilityAction::Hide));
    assert_eq!(clock.snapshot(), 77);
}

#[test]
fn menu_events_are_routed_by_identifier() {
    assert_eq!(dispatch_menu_event("open"), just(VisibilityAction::Show));
    assert_eq!(
        dispatch_menu_event("quit"),
        Reaction { action: VisibilityAction::Destroy, followup: Followup::ExitProcess }
    );
    assert_eq!(
        dispatch_menu_event("clear"),
        Reaction { action: VisibilityAction::Ignore, followup: Followup::ClearTasks }
    );
}

#[test]
fn bogus_menu_item_changes_nothing() {
    let clock = DebounceClock::new();
    clock.record_hide(123);
    let reaction = dispatch_menu_event("bogus");
    assert_eq!(
        reaction,
        Reaction { action: VisibilityAction::Ignore, followup: Followup::ReportUnhandled }
    );
    assert_eq!(steps_for(reaction.action, true), vec![]);
    assert_eq!(WindowState::Visible.apply(reaction.action), WindowState::Visible);
    assert_eq!(clock.snapshot(), 123);
}

#[test]
fn menu_clear_empties_a_store_of_three() {
    let mut held = vec![
        Task { name: String::from("write report"), timestamp: 1_700_000_000 },
        Task { name: String::from("call back"), timestamp: 1_700_000_100 },
        Task { name: String::from("water plants"), timestamp: 1_700_000_200 },
    ];
    let mut saves = 0;
    let reaction = dispatch_menu_event("clear");
    assert_eq!(reaction.action, VisibilityAction::Ignore);
    assert_eq!(reaction.followup, Followup::ClearTasks);
    let outcome = clear_all_tasks(|tasks| {
        held = tasks;
        saves += 1;
        Ok(())
    });
    assert_eq!(outcome, Ok(()));
    assert_eq!(held.len(), 0);
    assert_eq!(saves, 1);
}

#[test]
fn quit_destroys_whatever_the_state() {
    let reaction = dispatch_menu_event("quit");
    for state in [
        WindowState::Hidden,
        WindowState::Visible,
        WindowState::Minimized,
        WindowState::Destroyed,
    ] {
        assert_eq!(state.apply(reaction.action), WindowState::Destroyed);
    }
}
