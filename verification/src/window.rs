//! The main window as the platform reports it, and the actions the shell may
//! ask the platform to carry out on it.

use vstd::prelude::*;

verus! {

/// A report of the main window's status.
#[derive(Clone, Copy, Debug, PartialEq, Eq, Structural)]
pub struct WindowState {
    pub visible: bool,
    pub focused: bool,
}

impl WindowState {
    /// The window while it is hidden.
    pub open spec fn hidden() -> WindowState {
        WindowState { visible: false, focused: false }
    }

    /// The window while it is shown and holds the focus.
    pub open spec fn shown() -> WindowState {
        WindowState { visible: true, focused: true }
    }
}

/// One request to the windowing platform.
#[derive(Clone, Copy, Debug, PartialEq, Eq, Structural)]
pub enum WindowAction {
    Show,
    SetFocus,
    Hide,
}

impl WindowAction {
    /// The window after the platform has granted the action.
    pub open spec fn effect(self, window: WindowState) -> WindowState {
        match self {
            WindowAction::Show => WindowState { visible: true, focused: window.focused },
            WindowAction::SetFocus => WindowState { visible: window.visible, focused: true },
            WindowAction::Hide => WindowState { visible: false, focused: false },
        }
    }

    /// Carries the action out on a report, as a platform that grants it would.
    pub fn apply(self, window: WindowState) -> (after: WindowState)
        ensures
            after == self.effect(window),
    {
        match self {
            WindowAction::Show => WindowState { visible: true, focused: window.focused },
            WindowAction::SetFocus => WindowState { visible: window.visible, focused: true },
            WindowAction::Hide => WindowState { visible: false, focused: false },
        }
    }
}

} // verus!
