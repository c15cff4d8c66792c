use dao_copilot::controller::Step;
use dao_copilot::dispatch::{get_platform_info, greet, toggle_window_visibility, PlatformInfo};
use dao_copilot::error::{ExitStatus, ShellError};
use dao_copilot::startup::{
    require_window, settle_shortcut, ShortcutBinding, ShortcutSetup, MAIN_WINDOW_LABEL,
    MAIN_WINDOW_TITLE, TOGGLE_SHORTCUT,
};
use dao_copilot::text::same_text;
use dao_copilot::window::WindowAction;

#[test]
fn greet_formats_the_name() {
    assert_eq!(greet("Ada"), "Hello, Ada! Welcome to DAO Copilot powered by Tauri.");
}

#[test]
fn greet_takes_any_text() {
    assert_eq!(greet(""), "Hello, ! Welcome to DAO Copilot powered by Tauri.");
    assert_eq!(
        greet("Zo\u{00eb} {}"),
        "Hello, Zo\u{00eb} {}! Welcome to DAO Copilot powered by Tauri."
    );
}

#[test]
fn platform_info_reports_what_it_is_given() {
    assert_eq!(
        get_platform_info("linux", "x86_64", "0.1.0"),
        PlatformInfo {
            platform: String::from("linux"),
            arch: String::from("x86_64"),
            version: String::from("0.1.0"),
            is_tauri: true,
        }
    );
    assert!(get_platform_info("", "", "").is_tauri);
}

#[test]
fn frontend_toggle_starts_by_observing_the_window() {
    assert_eq!(toggle_window_visibility(), Step::Observe);
}

#[test]
fn startup_needs_the_main_window() {
    assert_eq!(require_window(true), Ok(()));
    assert_eq!(require_window(false), Err(ShellError::StartupFailure));
}

#[test]
fn registered_shortcut_is_bound() {
    assert_eq!(
        settle_shortcut(Ok(())),
        ShortcutSetup { binding: ShortcutBinding::Bound, warning: None }
    );
}

#[test]
fn refused_shortcut_is_absent_and_logged() {
    let setup = settle_shortcut(Err(String::from("already taken")));
    assert_eq!(setup.binding, ShortcutBinding::Absent);
    let warning = setup.warning.unwrap();
    assert_eq!(
        warning,
        ShellError::ShortcutRegistrationFailure { message: String::from("already taken") }
    );
    assert_eq!(warning.exit_status(), None);
    assert_eq!(warning.describe(), "Failed to register global shortcut: already taken");
}

#[test]
fn toggle_still_works_after_a_refused_shortcut() {
    let setup = settle_shortcut(Err(String::from("already taken")));
    assert_eq!(setup.binding, ShortcutBinding::Absent);
    assert_eq!(require_window(true), Ok(()));
    assert_eq!(toggle_window_visibility(), Step::Observe);
}

#[test]
fn only_the_startup_failure_is_fatal() {
    assert_eq!(ShellError::StartupFailure.exit_status(), Some(ExitStatus::Failure));
    assert_eq!(
        ShellError::ShortcutRegistrationFailure { message: String::new() }.exit_status(),
        None
    );
    assert_eq!(
        ShellError::PlatformActionFailure { action: WindowAction::Show, message: String::new() }
            .exit_status(),
        None
    );
}

#[test]
fn failures_are_described() {
    assert_eq!(
        ShellError::PlatformActionFailure {
            action: WindowAction::Hide,
            message: String::from("window closed"),
        }
        .describe(),
        "window closed"
    );
    assert_eq!(
        ShellError::ShortcutRegistrationFailure { message: String::new() }.describe(),
        "Failed to register global shortcut: "
    );
    assert_eq!(ShellError::StartupFailure.describe(), "main window is not available");
}

#[test]
fn exit_status_codes() {
    assert_eq!(ExitStatus::Success.code(), 0);
    assert_eq!(ExitStatus::Failure.code(), 1);
}

#[test]
fn startup_constants() {
    assert_eq!(MAIN_WINDOW_LABEL, "main");
    assert_eq!(MAIN_WINDOW_TITLE, "DAO Copilot");
    assert_eq!(TOGGLE_SHORTCUT, "Cmd+Shift+Space");
}

#[test]
fn same_text_compares_characters() {
    assert!(same_text("", ""));
    assert!(same_text("quit", "quit"));
    assert!(same_text("gr\u{00fc}n \u{1f600}", "gr\u{00fc}n \u{1f600}"));
    assert!(!same_text("quit", "quiT"));
    assert!(!same_text("quit", "qui"));
    assert!(!same_text("qui", "quit"));
    assert!(!same_text("", " "));
    assert!(!same_text("\u{00e9}", "e\u{0301}"));
    assert!(!same_text("\u{00e9}", "\u{00e8}"));
}
