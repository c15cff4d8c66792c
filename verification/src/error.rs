//! The failures that the shell reports.

use vstd::prelude::*;
use vstd::string::StringExecFns;
use crate::window::WindowAction;

verus! {

/// The status with which the process ends.
#[derive(Clone, Copy, Debug, PartialEq, Eq, Structural)]
pub enum ExitStatus {
    Success,
    Failure,
}

impl ExitStatus {
    /// The status as the number handed to the operating system.
    pub open spec fn spec_code(self) -> i32 {
        match self {
            ExitStatus::Success => 0,
            ExitStatus::Failure => 1,
        }
    }

    #[verifier::when_used_as_spec(spec_code)]
    pub fn code(self) -> (code: i32)
        ensures
            code == self.spec_code(),
    {
        match self {
            ExitStatus::Success => 0,
            ExitStatus::Failure => 1,
        }
    }
}

/// A failure of the shell, by where it arose.
#[derive(Debug, PartialEq, Eq)]
pub enum ShellError {
    /// The windowing platform refused to show, hide or focus the window.
    PlatformActionFailure { action: WindowAction, message: String },
    /// The global shortcut could not be bound at startup.
    ShortcutRegistrationFailure { message: String },
    /// The main window could not be obtained at startup.
    StartupFailure,
}

impl ShellError {
    /// The status with which the process has to end on this failure, if
    /// it has to.
    pub open spec fn spec_exit_status(&self) -> Option<ExitStatus> {
        match self {
            ShellError::StartupFailure => Some(ExitStatus::Failure),
            _ => None,
        }
    }

    /// The text of the descriptor that stands for this failure.
    pub open spec fn spec_describe(&self) -> Seq<char> {
        match self {
            ShellError::PlatformActionFailure { message, .. } => message@,
            ShellError::ShortcutRegistrationFailure { message } => {
                "Failed to register global shortcut: "@ + message@
            },
            ShellError::StartupFailure => "main window is not available"@,
        }
    }

    /// Tells a fatal failure from one that the process survives. Only a
    /// failure of startup is fatal; the process then ends with the failure
    /// status.
    #[verifier::when_used_as_spec(spec_exit_status)]
    pub fn exit_status(&self) -> (status: Option<ExitStatus>)
        ensures
            status == self.spec_exit_status(),
    {
        match self {
            ShellError::StartupFailure => Some(ExitStatus::Failure),
            _ => None,
        }
    }

    /// The descriptor handed to whoever displays or logs the failure. For a
    /// refused platform action it is the platform's own message.
    pub fn describe(&self) -> (text: String)
        ensures
            text@ == self.spec_describe(),
    {
        match self {
            ShellError::PlatformActionFailure { message, .. } => message.clone(),
            ShellError::ShortcutRegistrationFailure { message } => {
                String::from_str("Failed to register global shortcut: ").concat(message.as_str())
            },
            ShellError::StartupFailure => String::from_str("main window is not available"),
        }
    }
}

} // verus!
