//! What the shell settles at startup.
//!
//! Two things can go wrong while the process starts. Without the main window
//! nothing can work, so that failure ends the process. Without the global
//! shortcut the shell runs on with one input source less.

use vstd::prelude::*;
use crate::error::ShellError;

verus! {

/// The label under which the main window is known to the platform.
pub const MAIN_WINDOW_LABEL: &'static str = "main";

/// The title of the main window.
pub const MAIN_WINDOW_TITLE: &'static str = "DAO Copilot";

/// The key combination of the global shortcut.
pub const TOGGLE_SHORTCUT: &'static str = "Cmd+Shift+Space";

/// Whether the global shortcut is bound for the lifetime of the process.
#[derive(Clone, Copy, Debug, PartialEq, Eq, Structural)]
pub enum ShortcutBinding {
    Bound,
    Absent,
}

/// How the attempt to bind the global shortcut ended: the binding, and the
/// failure to log where there was one.
#[derive(Debug, PartialEq, Eq)]
pub struct ShortcutSetup {
    pub binding: ShortcutBinding,
    pub warning: Option<ShellError>,
}

/// Whether startup may go on, given whether the main window was found.
pub open spec fn spec_require_window(found: bool) -> Result<(), ShellError> {
    if found {
        Ok(())
    } else {
        Err(ShellError::StartupFailure)
    }
}

/// What follows from the platform's answer to the shortcut's registration.
pub open spec fn spec_settle_shortcut(registration: Result<(), String>) -> ShortcutSetup {
    match registration {
        Ok(_) => ShortcutSetup { binding: ShortcutBinding::Bound, warning: None },
        Err(message) => ShortcutSetup {
            binding: ShortcutBinding::Absent,
            warning: Some(ShellError::ShortcutRegistrationFailure { message }),
        },
    }
}

/// Checks that the main window was found. Its absence is the one fatal
/// failure of startup.
#[verifier::when_used_as_spec(spec_require_window)]
pub fn require_window(found: bool) -> (checked: Result<(), ShellError>)
    ensures
        checked == spec_require_window(found),
{
    if found {
        Ok(())
    } else {
        Err(ShellError::StartupFailure)
    }
}

/// Settles the global shortcut from the platform's answer to its
/// registration. A refusal is kept as a warning for the log and leaves the
/// shortcut absent; it is never retried.
#[verifier::when_used_as_spec(spec_settle_shortcut)]
pub fn settle_shortcut(registration: Result<(), String>) -> (setup: ShortcutSetup)
    ensures
        setup == spec_settle_shortcut(registration),
{
    match registration {
        Ok(_) => ShortcutSetup { binding: ShortcutBinding::Bound, warning: None },
        Err(message) => ShortcutSetup {
            binding: ShortcutBinding::Absent,
            warning: Some(ShellError::ShortcutRegistrationFailure { message }),
        },
    }
}

} // verus!
