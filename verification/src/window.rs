//! The main window as the controller sees it: its logical state, the actions
//! that move it from one state to another, and the host steps an action takes.

use vstd::prelude::*;

verus! {

/// What a decision asks to be done with the main window.
#[derive(Clone, Copy, Debug, PartialEq, Eq, Structural)]
pub enum VisibilityAction {
    Show,
    Hide,
    Destroy,
    Ignore,
}

/// The logical state of the main window. It is never stored: it is read off
/// the live window each time a decision needs it.
#[derive(Clone, Copy, Debug, PartialEq, Eq, Structural)]
pub enum WindowState {
    Hidden,
    Visible,
    Minimized,
    Destroyed,
}

/// One call on the host's window. An action is carried out as a sequence of
/// these, each a best effort: see `attempt_all`.
#[derive(Clone, Copy, Debug, PartialEq, Eq, Structural)]
pub enum WindowStep {
    /// Move the window to where the tray icon is.
    Reposition,
    Unminimize,
    Show,
    Focus,
    Hide,
    Destroy,
}

impl WindowState {
    /// The state that a live window's two flags stand for.
    pub open spec fn of_flags(visible: bool, minimized: bool) -> WindowState {
        if !visible {
            WindowState::Hidden
        } else if minimized {
            WindowState::Minimized
        } else {
            WindowState::Visible
        }
    }

    /// The state after `action` has been carried out. `Destroyed` is
    /// terminal: nothing leaves it.
    pub open spec fn after(self, action: VisibilityAction) -> WindowState {
        match (self, action) {
            (WindowState::Destroyed, _) => WindowState::Destroyed,
            (_, VisibilityAction::Show) => WindowState::Visible,
            (_, VisibilityAction::Hide) => WindowState::Hidden,
            (_, VisibilityAction::Destroy) => WindowState::Destroyed,
            (_, VisibilityAction::Ignore) => self,
        }
    }

    /// Whether a window in this state is shown to the host as visible;
    /// a minimized window is.
    pub open spec fn shows_visible(self) -> bool {
        self == WindowState::Visible || self == WindowState::Minimized
    }

    /// Whether a window in this state is shown to the host as minimized.
    pub open spec fn shows_minimized(self) -> bool {
        self == WindowState::Minimized
    }

    /// Reads the state off what the host reported: `found` says whether the
    /// window still exists, the two flags are its visibility and whether it
    /// is minimized.
    pub fn observe(found: bool, visible: bool, minimized: bool) -> (state: WindowState)
        ensures
            state == if found {
                WindowState::of_flags(visible, minimized)
            } else {
                WindowState::Destroyed
            },
    {
        if !found {
            WindowState::Destroyed
        } else if !visible {
            WindowState::Hidden
        } else if minimized {
            WindowState::Minimized
        } else {
            WindowState::Visible
        }
    }

    /// Moves the state along by one action.
    pub fn apply(self, action: VisibilityAction) -> (next: WindowState)
        ensures
            next == self.after(action),
    {
        match self {
            WindowState::Destroyed => WindowState::Destroyed,
            _ => match action {
                VisibilityAction::Show => WindowState::Visible,
                VisibilityAction::Hide => WindowState::Hidden,
                VisibilityAction::Destroy => WindowState::Destroyed,
                VisibilityAction::Ignore => self,
            },
        }
    }

    /// Whether the window exists no more.
    pub fn is_terminal(self) -> (terminal: bool)
        ensures
            terminal == (self == WindowState::Destroyed),
    {
        match self {
            WindowState::Destroyed => true,
            _ => false,
        }
    }
}

/// The steps that show the window, in the order in which they are attempted.
pub open spec fn show_sequence() -> Seq<WindowStep> {
    seq![WindowStep::Reposition, WindowStep::Unminimize, WindowStep::Show, WindowStep::Focus]
}

/// The steps that carry out `action` on a window that exists.
pub open spec fn sequence_of(action: VisibilityAction) -> Seq<WindowStep> {
    match action {
        VisibilityAction::Show => show_sequence(),
        VisibilityAction::Hide => seq![WindowStep::Hide],
        VisibilityAction::Destroy => seq![WindowStep::Destroy],
        VisibilityAction::Ignore => Seq::empty(),
    }
}

/// The steps that carry out `action`, given whether the window was found.
/// A window that is gone takes no step at all: that is a success, not an
/// error.
pub open spec fn planned_steps(action: VisibilityAction, found: bool) -> Seq<WindowStep> {
    if found {
        sequence_of(action)
    } else {
        Seq::empty()
    }
}

/// The steps that show the main window: move it to the tray icon, take it
/// out of the minimized state, make it visible, give it the input focus.
/// None if the window was not found.
pub fn show_main_window(found: bool) -> (steps: Vec<WindowStep>)
    ensures
        steps@ == planned_steps(VisibilityAction::Show, found),
{
    let mut steps: Vec<WindowStep> = Vec::new();
    if found {
        steps.push(WindowStep::Reposition);
        steps.push(WindowStep::Unminimize);
        steps.push(WindowStep::Show);
        steps.push(WindowStep::Focus);
    }
    steps
}

/// The one step that hides the main window; none if it was not found.
pub fn hide_main_window(found: bool) -> (steps: Vec<WindowStep>)
    ensures
        steps@ == planned_steps(VisibilityAction::Hide, found),
{
    let mut steps: Vec<WindowStep> = Vec::new();
    if found {
        steps.push(WindowStep::Hide);
    }
    steps
}

/// The one step that tears the main window down; none if it was not found,
/// which makes a second destruction a no-op.
pub fn destroy_main_window(found: bool) -> (steps: Vec<WindowStep>)
    ensures
        steps@ == planned_steps(VisibilityAction::Destroy, found),
{
    let mut steps: Vec<WindowStep> = Vec::new();
    if found {
        steps.push(WindowStep::Destroy);
    }
    steps
}

/// The steps that carry out any action.
pub fn steps_for(action: VisibilityAction, found: bool) -> (steps: Vec<WindowStep>)
    ensures
        steps@ == planned_steps(action, found),
{
    match action {
        VisibilityAction::Show => show_main_window(found),
        VisibilityAction::Hide => hide_main_window(found),
        VisibilityAction::Destroy => destroy_main_window(found),
        VisibilityAction::Ignore => Vec::new(),
    }
}

/// Attempts every step in order, each as a best effort: `perform` carries
/// a step out on the host and says whether it succeeded, and a step that
/// failed neither stops the steps after it nor is tried again. The outcomes
/// come back step by step; no failure is handed on as an error.
pub fn attempt_all<F: Fn(WindowStep) -> bool>(steps: &Vec<WindowStep>, perform: F) -> (outcomes: Vec<
    bool,
>)
    requires
        forall|step: WindowStep| call_requires(perform, (step,)),
    ensures
        outcomes.len() == steps.len(),
        forall|i: int|
            0 <= i < steps.len() ==> call_ensures(perform, (steps[i],), #[trigger] outcomes[i]),
{
    let mut outcomes: Vec<bool> = Vec::new();
    let mut i: usize = 0;
    while i < steps.len()
        invariant
            i <= steps.len(),
            outcomes.len() == i,
            forall|step: WindowStep| call_requires(perform, (step,)),
            forall|k: int| 0 <= k < i ==> call_ensures(perform, (steps[k],), #[trigger] outcomes[k]),
        decreases steps.len() - i,
    {
        let succeeded = perform(steps[i]);
        outcomes.push(succeeded);
        i = i + 1;
    }
    outcomes
}

} // verus!
