//! Window-visibility coordination for a desktop companion that lives in the
//! tray: for every close request, loss of focus, tray click and menu
//! selection, what is to become of the main window.
//!
//! - `clock`: the debounce clock, an atomic register of the last hide that
//!   a loss of focus caused, and what a reading of it means.
//! - `window`: the window's logical states, the actions on it and the host
//!   steps that an action takes, each a best effort.
//! - `controller`: the decision for each kind of event, on plain values.
//! - `dispatch`: the routing of the three event sources to the controller,
//!   and of its decisions to the clock.
//! - `laws`: what holds of the decisions taken together.
//! - `tasks`, `search`, `text`: the task log that the tray menu can clear,
//!   its daily cleanup and the search in it.

pub mod clock;
pub mod controller;
pub mod dispatch;
pub mod laws;
pub mod search;
pub mod tasks;
pub mod text;
pub mod window;
