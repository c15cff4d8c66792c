//! The event router.
//!
//! Tray and shortcut events arrive from the desktop in raw form. The
//! router turns each into the shell's reaction: a controller operation, the
//! end of the process, or nothing.

use vstd::prelude::*;
use crate::controller::{granted_run, lemma_granted_run, Operation};
use crate::error::{ExitStatus, ShellError};
use crate::text::same_text;
use crate::window::{WindowAction, WindowState};

verus! {

/// An item of the tray menu, as read from the identifier of a click.
#[derive(Clone, Copy, Debug, PartialEq, Eq, Structural)]
pub enum TrayMenuItem {
    Show,
    Hide,
    Quit,
    /// Any identifier that the menu does not define.
    Unknown,
}

/// One line of the tray menu.
#[derive(Clone, Copy, Debug, PartialEq, Eq, Structural)]
pub enum TrayMenuEntry {
    Item(TrayMenuItem),
    Separator,
}

/// An event from the desktop.
#[derive(Debug, PartialEq, Eq)]
pub enum Event {
    /// A left click on the tray icon.
    TrayLeftClick,
    /// A click on the item of the tray menu that has this identifier.
    TrayMenuItemClick { id: String },
    /// The global shortcut was pressed.
    ShortcutActivated,
    /// Any other event.
    Other,
}

/// What the shell does about an event.
#[derive(Clone, Copy, Debug, PartialEq, Eq, Structural)]
pub enum Reaction {
    /// Run the operation on the window.
    Run(Operation),
    /// End the process at once with the status.
    Terminate(ExitStatus),
    /// Do nothing.
    Ignore,
}

impl TrayMenuItem {
    /// The item that an identifier names.
    pub open spec fn spec_parse(id: Seq<char>) -> TrayMenuItem {
        if id == "show"@ {
            TrayMenuItem::Show
        } else if id == "hide"@ {
            TrayMenuItem::Hide
        } else if id == "quit"@ {
            TrayMenuItem::Quit
        } else {
            TrayMenuItem::Unknown
        }
    }

    /// The identifier under which the menu defines the item.
    pub open spec fn spec_identifier(self) -> Option<Seq<char>> {
        match self {
            TrayMenuItem::Show => Some("show"@),
            TrayMenuItem::Hide => Some("hide"@),
            TrayMenuItem::Quit => Some("quit"@),
            TrayMenuItem::Unknown => None,
        }
    }

    /// The text that the menu shows for the item.
    pub open spec fn spec_title(self) -> Option<Seq<char>> {
        match self {
            TrayMenuItem::Show => Some("Show"@),
            TrayMenuItem::Hide => Some("Hide"@),
            TrayMenuItem::Quit => Some("Quit"@),
            TrayMenuItem::Unknown => None,
        }
    }

    /// The reaction to a click on the item.
    pub open spec fn spec_reaction(self) -> Reaction {
        match self {
            TrayMenuItem::Show => Reaction::Run(Operation::ShowAndFocus),
            TrayMenuItem::Hide => Reaction::Run(Operation::Hide),
            TrayMenuItem::Quit => Reaction::Terminate(ExitStatus::Success),
            TrayMenuItem::Unknown => Reaction::Ignore,
        }
    }

    /// Reads the identifier of a clicked item. Identifiers are compared to
    /// the letter; one that the menu does not define gives `Unknown`.
    pub fn parse(id: &str) -> (item: TrayMenuItem)
        ensures
            item == Self::spec_parse(id@),
    {
        if same_text(id, "show") {
            TrayMenuItem::Show
        } else if same_text(id, "hide") {
            TrayMenuItem::Hide
        } else if same_text(id, "quit") {
            TrayMenuItem::Quit
        } else {
            TrayMenuItem::Unknown
        }
    }

    /// The identifier under which the menu defines the item; `Unknown` has
    /// none.
    pub fn identifier(self) -> (id: Option<&'static str>)
        ensures
            match id {
                Some(text) => self.spec_identifier() == Some(text@),
                None => self.spec_identifier() is None,
            },
    {
        match self {
            TrayMenuItem::Show => Some("show"),
            TrayMenuItem::Hide => Some("hide"),
            TrayMenuItem::Quit => Some("quit"),
            TrayMenuItem::Unknown => None,
        }
    }

    /// The text that the menu shows for the item; `Unknown` has none.
    pub fn title(self) -> (title: Option<&'static str>)
        ensures
            match title {
                Some(text) => self.spec_title() == Some(text@),
                None => self.spec_title() is None,
            },
    {
        match self {
            TrayMenuItem::Show => Some("Show"),
            TrayMenuItem::Hide => Some("Hide"),
            TrayMenuItem::Quit => Some("Quit"),
            TrayMenuItem::Unknown => None,
        }
    }

    /// The reaction to a click on the item.
    #[verifier::when_used_as_spec(spec_reaction)]
    pub fn reaction(self) -> (reaction: Reaction)
        ensures
            reaction == self.spec_reaction(),
    {
        match self {
            TrayMenuItem::Show => Reaction::Run(Operation::ShowAndFocus),
            TrayMenuItem::Hide => Reaction::Run(Operation::Hide),
            TrayMenuItem::Quit => Reaction::Terminate(ExitStatus::Success),
            TrayMenuItem::Unknown => Reaction::Ignore,
        }
    }
}

/// The tray menu, line by line.
pub open spec fn spec_tray_menu() -> Seq<TrayMenuEntry> {
    seq![
        TrayMenuEntry::Item(TrayMenuItem::Show),
        TrayMenuEntry::Item(TrayMenuItem::Hide),
        TrayMenuEntry::Separator,
        TrayMenuEntry::Item(TrayMenuItem::Quit),
    ]
}

/// The fixed menu of the tray icon: show and hide, a separator, and quit.
pub fn tray_menu() -> (menu: Vec<TrayMenuEntry>)
    ensures
        menu@ == spec_tray_menu(),
{
    let mut menu: Vec<TrayMenuEntry> = Vec::new();
    menu.push(TrayMenuEntry::Item(TrayMenuItem::Show));
    menu.push(TrayMenuEntry::Item(TrayMenuItem::Hide));
    menu.push(TrayMenuEntry::Separator);
    menu.push(TrayMenuEntry::Item(TrayMenuItem::Quit));
    assert(menu@ =~= spec_tray_menu());
    menu
}

/// The reaction to an event.
pub open spec fn spec_route(event: Event) -> Reaction {
    match event {
        Event::TrayLeftClick => Reaction::Run(Operation::Toggle),
        Event::TrayMenuItemClick { id } => TrayMenuItem::spec_parse(id@).spec_reaction(),
        Event::ShortcutActivated => Reaction::Run(Operation::Toggle),
        Event::Other => Reaction::Ignore,
    }
}

/// Routes an event. A left click on the tray icon and the global shortcut
/// toggle the window; the menu items show, hide and quit; anything else,
/// a click on an unknown item too, is ignored.
pub fn route(event: &Event) -> (reaction: Reaction)
    ensures
        reaction == spec_route(*event),
{
    match event {
        Event::TrayLeftClick => Reaction::Run(Operation::Toggle),
        Event::TrayMenuItemClick { id } => TrayMenuItem::parse(id.as_str()).reaction(),
        Event::ShortcutActivated => Reaction::Run(Operation::Toggle),
        Event::Other => Reaction::Ignore,
    }
}

/// What handling an event comes to on a platform that grants every action:
/// the window afterwards, the actions asked of the platform, and the status
/// with which the process ends, if it does.
pub struct Handling {
    pub window: WindowState,
    pub performed: Seq<WindowAction>,
    pub exit: Option<ExitStatus>,
}

/// Handles `event` with `window` as the window's status, against a platform
/// that grants every action.
pub open spec fn granted_handling(event: Event, window: WindowState) -> Handling {
    match spec_route(event) {
        Reaction::Run(operation) => {
            let trace = granted_run(operation.spec_start(), window);
            Handling { window: trace.window, performed: trace.performed, exit: None }
        },
        Reaction::Terminate(status) => Handling {
            window,
            performed: Seq::empty(),
            exit: Some(status),
        },
        Reaction::Ignore => Handling { window, performed: Seq::empty(), exit: None },
    }
}

/// The menu's identifiers are told apart: each item that the menu defines is
/// read back from its own identifier.
pub proof fn lemma_identifier_names_item(item: TrayMenuItem)
    requires
        item != TrayMenuItem::Unknown,
    ensures
        item.spec_identifier() is Some,
        TrayMenuItem::spec_parse(item.spec_identifier().unwrap()) == item,
{
    reveal_strlit("show");
    reveal_strlit("hide");
    reveal_strlit("quit");
    assert("show"@.len() == 4 && "hide"@.len() == 4 && "quit"@.len() == 4);
    assert("show"@[0] == 's' && "hide"@[0] == 'h' && "quit"@[0] == 'q');
}

/// Every item of the tray menu has an identifier and a title, and a click
/// on it is not ignored.
pub proof fn lemma_menu_items_are_routed(line: int)
    requires
        0 <= line < spec_tray_menu().len(),
    ensures
        spec_tray_menu()[line] matches TrayMenuEntry::Item(item) ==> {
            &&& item.spec_identifier() is Some
            &&& item.spec_title() is Some
            &&& TrayMenuItem::spec_parse(item.spec_identifier().unwrap()).spec_reaction()
                != Reaction::Ignore
        },
{
    match spec_tray_menu()[line] {
        TrayMenuEntry::Item(item) => {
            lemma_identifier_names_item(item);
        },
        TrayMenuEntry::Separator => {},
    }
}

/// A click on the menu's quit item ends the process with the success status,
/// whatever the window's status, and asks nothing of the platform.
pub proof fn lemma_quit_terminates(event: Event, window: WindowState)
    requires
        event matches Event::TrayMenuItemClick { id } && id@ == "quit"@,
    ensures
        spec_route(event) == Reaction::Terminate(ExitStatus::Success),
        granted_handling(event, window).exit == Some(ExitStatus::Success),
        granted_handling(event, window).window == window,
        granted_handling(event, window).performed == Seq::<WindowAction>::empty(),
{
    lemma_identifier_names_item(TrayMenuItem::Quit);
}

/// A click on the menu's show item while the window is visible leaves it
/// visible, asks the platform for the focus, and ends nothing.
pub proof fn lemma_show_item_on_visible_window(event: Event, window: WindowState)
    requires
        event matches Event::TrayMenuItemClick { id } && id@ == "show"@,
        window.visible,
    ensures
        spec_route(event) == Reaction::Run(Operation::ShowAndFocus),
        granted_handling(event, window).window.visible,
        granted_handling(event, window).window.focused,
        granted_handling(event, window).performed.contains(WindowAction::SetFocus),
        granted_run(Operation::ShowAndFocus.spec_start(), window).result == Ok::<(), ShellError>(
            (),
        ),
        granted_handling(event, window).exit is None,
{
    lemma_identifier_names_item(TrayMenuItem::Show);
    lemma_granted_run(Operation::ShowAndFocus, window);
    let script = Operation::ShowAndFocus.script(window.visible);
    assert(script[1] == WindowAction::SetFocus);
}

} // verus!
