use dao_copilot::controller::{run_granted, Operation};
use dao_copilot::error::ExitStatus;
use dao_copilot::router::{route, tray_menu, Event, Reaction, TrayMenuEntry, TrayMenuItem};
use dao_copilot::window::{WindowAction, WindowState};

fn click(id: &str) -> Event {
    Event::TrayMenuItemClick { id: String::from(id) }
}

#[test]
fn menu_identifiers_are_parsed() {
    assert_eq!(TrayMenuItem::parse("show"), TrayMenuItem::Show);
    assert_eq!(TrayMenuItem::parse("hide"), TrayMenuItem::Hide);
    assert_eq!(TrayMenuItem::parse("quit"), TrayMenuItem::Quit);
}

#[test]
fn other_identifiers_are_unknown() {
    for id in ["", "Quit", "SHOW", "quit ", " hide", "sho", "shows", "exit", "qu\u{00ef}t", "show\0"] {
        assert_eq!(TrayMenuItem::parse(id), TrayMenuItem::Unknown, "{:?}", id);
    }
}

#[test]
fn items_have_identifiers_and_titles() {
    assert_eq!(TrayMenuItem::Show.identifier(), Some("show"));
    assert_eq!(TrayMenuItem::Hide.identifier(), Some("hide"));
    assert_eq!(TrayMenuItem::Quit.identifier(), Some("quit"));
    assert_eq!(TrayMenuItem::Unknown.identifier(), None);
    assert_eq!(TrayMenuItem::Show.title(), Some("Show"));
    assert_eq!(TrayMenuItem::Hide.title(), Some("Hide"));
    assert_eq!(TrayMenuItem::Quit.title(), Some("Quit"));
    assert_eq!(TrayMenuItem::Unknown.title(), None);
}

#[test]
fn identifiers_are_read_back() {
    for item in [TrayMenuItem::Show, TrayMenuItem::Hide, TrayMenuItem::Quit] {
        let id = item.identifier().unwrap();
        assert_eq!(TrayMenuItem::parse(id), item);
    }
}

#[test]
fn tray_menu_is_show_hide_separator_quit() {
    assert_eq!(
        tray_menu(),
        vec![
            TrayMenuEntry::Item(TrayMenuItem::Show),
            TrayMenuEntry::Item(TrayMenuItem::Hide),
            TrayMenuEntry::Separator,
            TrayMenuEntry::Item(TrayMenuItem::Quit),
        ]
    );
}

#[test]
fn every_menu_item_is_routed() {
    for entry in tray_menu() {
        if let TrayMenuEntry::Item(item) = entry {
            let id = item.identifier().unwrap();
            assert!(item.title().is_some());
            assert_ne!(route(&click(id)), Reaction::Ignore);
        }
    }
}

#[test]
fn left_click_toggles() {
    assert_eq!(route(&Event::TrayLeftClick), Reaction::Run(Operation::Toggle));
}

#[test]
fn shortcut_toggles() {
    assert_eq!(route(&Event::ShortcutActivated), Reaction::Run(Operation::Toggle));
}

#[test]
fn show_item_shows_and_focuses() {
    assert_eq!(route(&click("show")), Reaction::Run(Operation::ShowAndFocus));
    assert_eq!(TrayMenuItem::Show.reaction(), Reaction::Run(Operation::ShowAndFocus));
}

#[test]
fn hide_item_hides() {
    assert_eq!(route(&click("hide")), Reaction::Run(Operation::Hide));
    assert_eq!(TrayMenuItem::Hide.reaction(), Reaction::Run(Operation::Hide));
}

#[test]
fn quit_item_terminates_with_success() {
    assert_eq!(route(&click("quit")), Reaction::Terminate(ExitStatus::Success));
    assert_eq!(TrayMenuItem::Quit.reaction(), Reaction::Terminate(ExitStatus::Success));
    assert_eq!(ExitStatus::Success.code(), 0);
}

#[test]
fn quit_does_not_depend_on_the_window() {
    // The router sees no window at all: the reaction is the same while the
    // window is hidden, shown, or shown without focus.
    for _window in [
        WindowState { visible: false, focused: false },
        WindowState { visible: true, focused: true },
        WindowState { visible: true, focused: false },
    ] {
        assert_eq!(route(&click("quit")), Reaction::Terminate(ExitStatus::Success));
    }
}

#[test]
fn unknown_item_and_other_events_are_ignored() {
    assert_eq!(route(&click("about")), Reaction::Ignore);
    assert_eq!(route(&click("")), Reaction::Ignore);
    assert_eq!(route(&Event::Other), Reaction::Ignore);
    assert_eq!(TrayMenuItem::Unknown.reaction(), Reaction::Ignore);
}

#[test]
fn show_item_on_visible_window_keeps_it_visible_and_asks_for_focus() {
    let visible = WindowState { visible: true, focused: false };
    match route(&click("show")) {
        Reaction::Run(operation) => {
            let (after, asked) = run_granted(operation, visible);
            assert!(after.visible);
            assert!(after.focused);
            assert!(asked.contains(&WindowAction::SetFocus));
        }
        other => panic!("unexpected reaction {:?}", other),
    }
}
