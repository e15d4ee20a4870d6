use entrainde::window::attempt_all;
use entrainde::window::destroy_main_window;
use entrainde::window::hide_main_window;
use entrainde::window::show_main_window;
use entrainde::window::steps_for;
use entrainde::window::VisibilityAction;
use entrainde::window::WindowState;
use entrainde::window::WindowStep;

const STATES: [WindowState; 4] =
    [WindowState::Hidden, WindowState::Visible, WindowState::Minimized, WindowState::Destroyed];

const ACTIONS: [VisibilityAction; 4] = [
    VisibilityAction::Show,
    VisibilityAction::Hide,
    VisibilityAction::Destroy,
    VisibilityAction::Ignore,
];

#[test]
fn show_attempts_four_steps_in_order() {
    assert_eq!(
        show_main_window(true),
        vec![WindowStep::Reposition, WindowStep::Unminimize, WindowStep::Show, WindowStep::Focus]
    );
}

#[test]
fn hide_and_destroy_take_one_step() {
    assert_eq!(hide_main_window(true), vec![WindowStep::Hide]);
    assert_eq!(destroy_main_window(true), vec![WindowStep::Destroy]);
}

#[test]
fn missing_window_takes_no_step() {
    assert_eq!(show_main_window(false), vec![]);
    assert_eq!(hide_main_window(false), vec![]);
    assert_eq!(destroy_main_window(false), vec![]);
    for action in ACTIONS {
        assert_eq!(steps_for(action, false), vec![]);
    }
}

#[test]
fn steps_follow_the_action() {
    assert_eq!(steps_for(VisibilityAction::Show, true), show_main_window(true));
    assert_eq!(steps_for(VisibilityAction::Hide, true), vec![WindowStep::Hide]);
    assert_eq!(steps_for(VisibilityAction::Destroy, true), vec![WindowStep::Destroy]);
    assert_eq!(steps_for(VisibilityAction::Ignore, true), vec![]);
}

#[test]
fn state_is_read_off_the_flags() {
    assert_eq!(WindowState::observe(true, false, false), WindowState::Hidden);
    assert_eq!(WindowState::observe(true, false, true), WindowState::Hidden);
    assert_eq!(WindowState::observe(true, true, false), WindowState::Visible);
    assert_eq!(WindowState::observe(true, true, true), WindowState::Minimized);
    assert_eq!(WindowState::observe(false, true, false), WindowState::Destroyed);
    assert_eq!(WindowState::observe(false, false, true), WindowState::Destroyed);
}

#[test]
fn actions_move_a_live_window() {
    for state in [WindowState::Hidden, WindowState::Visible, WindowState::Minimized] {
        assert_eq!(state.apply(VisibilityAction::Show), WindowState::Visible);
        assert_eq!(state.apply(VisibilityAction::Hide), WindowState::Hidden);
        assert_eq!(state.apply(VisibilityAction::Destroy), WindowState::Destroyed);
        assert_eq!(state.apply(VisibilityAction::Ignore), state);
    }
}

#[test]
fn destroyed_is_terminal() {
    for action in ACTIONS {
        assert_eq!(WindowState::Destroyed.apply(action), WindowState::Destroyed);
    }
    for state in STATES {
        assert_eq!(state.is_terminal(), state == WindowState::Destroyed);
    }
}

#[test]
fn destroy_twice_ends_destroyed_both_times() {
    for state in STATES {
        let once = state.apply(VisibilityAction::Destroy);
        assert_eq!(once, WindowState::Destroyed);
        let twice = once.apply(VisibilityAction::Destroy);
        assert_eq!(twice, WindowState::Destroyed);
    }
    assert_eq!(destroy_main_window(false), vec![]);
}

#[test]
fn failed_step_does_not_stop_the_rest() {
    let attempted = std::cell::RefCell::new(Vec::new());
    let outcomes = attempt_all(&show_main_window(true), |step| {
        attempted.borrow_mut().push(step);
        step != WindowStep::Reposition && step != WindowStep::Show
    });
    assert_eq!(outcomes, vec![false, true, false, true]);
    assert_eq!(
        attempted.into_inner(),
        vec![WindowStep::Reposition, WindowStep::Unminimize, WindowStep::Show, WindowStep::Focus]
    );
}

#[test]
fn every_step_is_attempted_once_when_all_fail() {
    let calls = std::cell::Cell::new(0);
    let outcomes = attempt_all(&show_main_window(true), |_| {
        calls.set(calls.get() + 1);
        false
    });
    assert_eq!(outcomes, vec![false, false, false, false]);
    assert_eq!(calls.get(), 4);
}

#[test]
fn nothing_is_attempted_on_a_missing_window() {
    let calls = std::cell::Cell::new(0);
    let outcomes = attempt_all(&show_main_window(false), |_| {
        calls.set(calls.get() + 1);
        true
    });
    assert_eq!(outcomes, vec![]);
    assert_eq!(calls.get(), 0);
}
