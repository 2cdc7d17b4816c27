//! The tray's context menu: the identifiers its items are routed by, and the
//! displayed state of the two items that change, the launch-at-login
//! checkbox and the show/hide entry.

use vstd::prelude::*;
use vstd::string::StringExecFns;
use crate::visibility::{WindowProbe, WindowVisibility};

verus! {

/// Text of the menu entry that toggles the window. It names what a click on
/// it will do, so it reads "Hide" while the window is shown.
#[derive(Clone, Copy, Debug, PartialEq, Eq, Structural)]
pub enum ShowHideLabel {
    Show,
    Hide,
}

impl ShowHideLabel {
    /// The label that belongs to a window in state `visibility`.
    pub open spec fn of_visibility(visibility: WindowVisibility) -> ShowHideLabel {
        match visibility {
            WindowVisibility::Visible => ShowHideLabel::Hide,
            WindowVisibility::Hidden => ShowHideLabel::Show,
        }
    }

    /// The characters shown in the menu.
    pub open spec fn chars(self) -> Seq<char> {
        match self {
            ShowHideLabel::Show => "Show"@,
            ShowHideLabel::Hide => "Hide"@,
        }
    }

    pub fn for_visibility(visibility: WindowVisibility) -> (label: ShowHideLabel)
        ensures
            label == ShowHideLabel::of_visibility(visibility),
    {
        match visibility {
            WindowVisibility::Visible => ShowHideLabel::Hide,
            WindowVisibility::Hidden => ShowHideLabel::Show,
        }
    }

    pub fn text(self) -> (s: &'static str)
        ensures
            s@ == self.chars(),
    {
        match self {
            ShowHideLabel::Show => "Show",
            ShowHideLabel::Hide => "Hide",
        }
    }
}

/// The commands of the context menu.
#[derive(Clone, Copy, Debug, PartialEq, Eq, Structural)]
pub enum MenuCommand {
    ToggleAutostart,
    ToggleWindow,
    Quit,
}

impl MenuCommand {
    /// The identifier under which the command's menu item is registered.
    pub open spec fn id_chars(self) -> Seq<char> {
        match self {
            MenuCommand::ToggleAutostart => "toggle-autostart"@,
            MenuCommand::ToggleWindow => "toggle-window"@,
            MenuCommand::Quit => "quit"@,
        }
    }

    /// The command that an identifier stands for, if any.
    pub open spec fn decode(id: Seq<char>) -> Option<MenuCommand> {
        if id == MenuCommand::ToggleAutostart.id_chars() {
            Some(MenuCommand::ToggleAutostart)
        } else if id == MenuCommand::ToggleWindow.id_chars() {
            Some(MenuCommand::ToggleWindow)
        } else if id == MenuCommand::Quit.id_chars() {
            Some(MenuCommand::Quit)
        } else {
            None
        }
    }

    pub fn id(self) -> (s: &'static str)
        ensures
            s@ == self.id_chars(),
    {
        match self {
            MenuCommand::ToggleAutostart => "toggle-autostart",
            MenuCommand::ToggleWindow => "toggle-window",
            MenuCommand::Quit => "quit",
        }
    }

    /// Decodes the identifier of a selected menu item. An identifier that
    /// names no command gives `None`.
    pub fn from_id(id: &str) -> (command: Option<MenuCommand>)
        ensures
            command == MenuCommand::decode(id@),
    {
        if same_text(id, MenuCommand::ToggleAutostart.id()) {
            Some(MenuCommand::ToggleAutostart)
        } else if same_text(id, MenuCommand::ToggleWindow.id()) {
            Some(MenuCommand::ToggleWindow)
        } else if same_text(id, MenuCommand::Quit.id()) {
            Some(MenuCommand::Quit)
        } else {
            None
        }
    }
}

/// Whether two strings hold the same characters.
pub fn same_text(a: &str, b: &str) -> (same: bool)
    ensures
        same == (a@ == b@),
{
    let left = String::from_str(a);
    let right = String::from_str(b);
    left == right
}

/// Every command is found again from its own identifier.
pub proof fn lemma_decode_id(command: MenuCommand)
    ensures
        MenuCommand::decode(command.id_chars()) == Some(command),
{
    reveal_strlit("toggle-autostart");
    reveal_strlit("toggle-window");
    reveal_strlit("quit");
    assert("toggle-autostart"@.len() == 16);
    assert("toggle-window"@.len() == 13);
    assert("quit"@.len() == 4);
}

/// The label of the main window; close requests of other windows are not
/// intercepted.
pub open spec fn main_window_chars() -> Seq<char> {
    "main"@
}

pub fn main_window_label() -> (s: &'static str)
    ensures
        s@ == main_window_chars(),
{
    "main"
}

pub fn is_main_window(label: &str) -> (b: bool)
    ensures
        b == (label@ == main_window_chars()),
{
    same_text(label, main_window_label())
}

/// The name of the notification that tells observers the launch-at-login
/// state; its payload is the new state.
pub open spec fn autostart_changed_chars() -> Seq<char> {
    "autostart-changed"@
}

pub fn autostart_changed_event() -> (s: &'static str)
    ensures
        s@ == autostart_changed_chars(),
{
    "autostart-changed"
}

/// What the two changing menu items display.
#[derive(Clone, Copy, Debug, PartialEq, Eq, Structural)]
pub struct MenuDisplay {
    pub autostart_checked: bool,
    pub show_hide: ShowHideLabel,
}

impl MenuDisplay {
    /// The display with the checkbox showing `enabled`.
    pub open spec fn with_autostart(self, enabled: bool) -> MenuDisplay {
        MenuDisplay { autostart_checked: enabled, ..self }
    }

    /// The display with the show/hide entry fitting `visibility`.
    pub open spec fn with_visibility(self, visibility: WindowVisibility) -> MenuDisplay {
        MenuDisplay { show_hide: ShowHideLabel::of_visibility(visibility), ..self }
    }
}

/// The displayed state of the menu.
#[derive(Clone, Debug)]
pub struct TrayMenuModel {
    autostart_checked: bool,
    show_hide: ShowHideLabel,
}

impl View for TrayMenuModel {
    type V = MenuDisplay;

    closed spec fn view(&self) -> MenuDisplay {
        MenuDisplay { autostart_checked: self.autostart_checked, show_hide: self.show_hide }
    }
}

/// The display at startup: the checkbox shows the flag the provider
/// reported and is unchecked where it reported none; the label fits the
/// state the window reported, and a hidden window where it reported none.
pub open spec fn initial_display(provider: Option<bool>, window: WindowProbe) -> MenuDisplay {
    MenuDisplay {
        autostart_checked: match provider {
            Some(enabled) => enabled,
            None => false,
        },
        show_hide: ShowHideLabel::of_visibility(window.assumed()),
    }
}

impl TrayMenuModel {
    /// The menu at startup, and the launch-at-login state to announce to
    /// observers: the provider's flag where it reported one.
    pub fn initial_state(provider: Option<bool>, window: WindowProbe) -> (out: (TrayMenuModel, Option<bool>))
        ensures
            out.0@ == initial_display(provider, window),
            out.1 == provider,
    {
        let mut model = TrayMenuModel { autostart_checked: false, show_hide: ShowHideLabel::Show };
        match provider {
            Some(enabled) => model.sync_autostart(enabled),
            None => {},
        }
        model.sync_show_hide_label(window.visibility_or_hidden());
        (model, provider)
    }

    pub fn autostart_checked(&self) -> (b: bool)
        ensures
            b == self@.autostart_checked,
    {
        self.autostart_checked
    }

    pub fn show_hide_label(&self) -> (label: ShowHideLabel)
        ensures
            label == self@.show_hide,
    {
        self.show_hide
    }

    /// Makes the checkbox show `enabled`.
    pub fn sync_autostart(&mut self, enabled: bool)
        ensures
            final(self)@ == old(self)@.with_autostart(enabled),
    {
        self.autostart_checked = enabled;
    }

    /// Makes the show/hide entry fit a window in state `visibility`.
    pub fn sync_show_hide_label(&mut self, visibility: WindowVisibility)
        ensures
            final(self)@ == old(self)@.with_visibility(visibility),
    {
        self.show_hide = ShowHideLabel::for_visibility(visibility);
    }
}

/// Syncing the label a second time with the same state changes nothing, and
/// the label reads "Hide" for a shown window and "Show" for a hidden one.
pub proof fn lemma_label_sync_idempotent(display: MenuDisplay, visibility: WindowVisibility)
    ensures
        display.with_visibility(visibility).with_visibility(visibility) == display.with_visibility(
            visibility,
        ),
        display.with_visibility(visibility).show_hide.chars() == if visibility
            == WindowVisibility::Visible {
            "Hide"@
        } else {
            "Show"@
        },
{
}

} // verus!
