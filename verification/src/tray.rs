//! The tray's event router: the one entry point through which tray-icon,
//! menu, window and provider events reach the rest of the library.
//!
//! The router is a transition function. The host hands it an event together
//! with what it observed; the router moves to the next state and returns the
//! actions to perform, in order. Work that may block (asking or changing the
//! launch-at-login registration) is returned as an action whose outcome the
//! host hands back as a later event, so the flag is read when the toggle
//! runs and not when the menu item was selected.

use vstd::prelude::*;
use crate::autostart::{toggle, toggle_request, ProviderOp};
use crate::controller::{
    minimize_restore_ops, minimize_restore_target, show_hide_ops, show_hide_target,
    VisibilityController, WindowOp,
};
use crate::debounce::{after_activation, passes, ClickDebouncer};
use crate::menu::{
    initial_display, is_main_window, main_window_chars, MenuCommand, MenuDisplay, ShowHideLabel,
    TrayMenuModel,
};
use crate::visibility::{WindowProbe, WindowVisibility};

verus! {

/// The tray icon's tooltip.
#[derive(Clone, Copy, Debug, PartialEq, Eq, Structural)]
pub enum Tooltip {
    /// Shown while the window is visible.
    Visible,
    /// Shown while the window is hidden.
    Hidden,
    /// Shown where the window's state could not be found out.
    Generic,
}

impl Tooltip {
    /// The tooltip that belongs to a window in state `visibility`.
    pub open spec fn of_visibility(visibility: WindowVisibility) -> Tooltip {
        match visibility {
            WindowVisibility::Visible => Tooltip::Visible,
            WindowVisibility::Hidden => Tooltip::Hidden,
        }
    }

    /// The tooltip at startup.
    pub open spec fn of_probe(window: WindowProbe) -> Tooltip {
        match window {
            WindowProbe::Reported(v) => Tooltip::of_visibility(v),
            _ => Tooltip::Generic,
        }
    }

    /// The characters of the tooltip.
    pub open spec fn chars(self) -> Seq<char> {
        match self {
            Tooltip::Visible => "timeman \u{2014} visible"@,
            Tooltip::Hidden => "timeman \u{2014} hidden"@,
            Tooltip::Generic => "timeman"@,
        }
    }

    pub fn for_visibility(visibility: WindowVisibility) -> (t: Tooltip)
        ensures
            t == Tooltip::of_visibility(visibility),
    {
        match visibility {
            WindowVisibility::Visible => Tooltip::Visible,
            WindowVisibility::Hidden => Tooltip::Hidden,
        }
    }

    pub fn for_probe(window: WindowProbe) -> (t: Tooltip)
        ensures
            t == Tooltip::of_probe(window),
    {
        match window {
            WindowProbe::Reported(v) => Tooltip::for_visibility(v),
            _ => Tooltip::Generic,
        }
    }

    pub fn text(self) -> (s: &'static str)
        ensures
            s@ == self.chars(),
    {
        match self {
            Tooltip::Visible => "timeman \u{2014} visible",
            Tooltip::Hidden => "timeman \u{2014} hidden",
            Tooltip::Generic => "timeman",
        }
    }
}

/// A button of the pointing device.
#[derive(Clone, Copy, Debug, PartialEq, Eq, Structural)]
pub enum MouseButton {
    Left,
    Right,
    Middle,
}

/// Whether a button went down or came up.
#[derive(Clone, Copy, Debug, PartialEq, Eq, Structural)]
pub enum MouseButtonState {
    Up,
    Down,
}

/// An event as the host hands it to the router.
#[derive(Clone, Copy, Debug, PartialEq, Eq, Structural)]
pub enum TrayEvent {
    /// A button event on the tray icon at `now_ms` milliseconds of the
    /// host's monotonic clock, with the main window as it was found then.
    IconClick { button: MouseButton, button_state: MouseButtonState, now_ms: u64, window: WindowProbe },
    /// A menu item was selected; `command` is `None` for an identifier that
    /// names no command.
    MenuSelected { command: Option<MenuCommand>, window: WindowProbe },
    /// A window asked to be closed; `main_window` says whether it is the
    /// main window.
    CloseRequested { main_window: bool },
    /// The provider was asked for the registration; `None` where that
    /// failed.
    AutostartRead { flag: Option<bool> },
    /// The provider was asked to change the registration.
    AutostartWritten { op: ProviderOp, succeeded: bool },
}

/// One thing for the host to do.
#[derive(Clone, Copy, Debug, PartialEq, Eq, Structural)]
pub enum Action {
    /// Perform an operation on the main window.
    Window(WindowOp),
    /// Set the text of the show/hide menu entry.
    SetShowHideLabel(ShowHideLabel),
    /// Set the tray icon's tooltip.
    SetTooltip(Tooltip),
    /// Set the launch-at-login checkbox.
    SetAutostartChecked(bool),
    /// Tell observers the launch-at-login state.
    EmitAutostartChanged(bool),
    /// Suppress the default handling of the close request.
    PreventClose,
    /// Off the event thread, ask the provider for the registration and hand
    /// the answer back as `TrayEvent::AutostartRead`.
    ReadAutostart,
    /// Off the event thread, make the request to the provider and hand the
    /// outcome back as `TrayEvent::AutostartWritten`.
    WriteAutostart(ProviderOp),
    /// End the process with this exit code.
    Exit(i32),
}

/// The state of the tray as the contracts see it.
pub struct TrayState {
    /// Time of the last accepted tray-icon click, in milliseconds.
    pub last_accepted: Option<nat>,
    /// Logical state of the main window.
    pub visibility: WindowVisibility,
    /// What the menu displays.
    pub menu: MenuDisplay,
    /// What the tooltip displays.
    pub tooltip: Tooltip,
}

/// The window operations as actions, in the same order.
pub open spec fn window_actions(ops: Seq<WindowOp>) -> Seq<Action> {
    Seq::new(ops.len(), |i: int| Action::Window(ops[i]))
}

/// The state at startup, from the flag the provider reported and the window
/// as it was found.
pub open spec fn startup_state(provider: Option<bool>, window: WindowProbe) -> TrayState {
    TrayState {
        last_accepted: None,
        visibility: window.assumed(),
        menu: initial_display(provider, window),
        tooltip: Tooltip::of_probe(window),
    }
}

/// The actions at startup: both menu items are brought to the startup
/// display, observers are told the provider's flag where it reported one,
/// and the tooltip is set.
pub open spec fn startup_actions(provider: Option<bool>, window: WindowProbe) -> Seq<Action> {
    let display = initial_display(provider, window);
    seq![
        Action::SetShowHideLabel(display.show_hide),
        Action::SetAutostartChecked(display.autostart_checked),
    ] + (match provider {
        Some(enabled) => seq![Action::EmitAutostartChanged(enabled)],
        None => seq![],
    }) + seq![Action::SetTooltip(Tooltip::of_probe(window))]
}

/// A release of the left button that the debouncer lets pass. The time is
/// recorded; where a window exists it is toggled between shown and hidden,
/// and label and tooltip follow.
pub open spec fn accepted_click(s: TrayState, now: nat, window: WindowProbe) -> (TrayState, Seq<Action>) {
    let visibility = show_hide_target(s.visibility, window);
    if window == WindowProbe::Missing {
        (TrayState { last_accepted: Some(now), ..s }, seq![])
    } else {
        (
            TrayState {
                last_accepted: Some(now),
                visibility: visibility,
                menu: s.menu.with_visibility(visibility),
                tooltip: Tooltip::of_visibility(visibility),
            },
            window_actions(show_hide_ops(window)) + seq![
                Action::SetShowHideLabel(ShowHideLabel::of_visibility(visibility)),
                Action::SetTooltip(Tooltip::of_visibility(visibility)),
            ],
        )
    }
}

/// The menu's show/hide entry. Where a window exists it is toggled between
/// shown and minimised, and the label follows.
pub open spec fn window_toggled(s: TrayState, window: WindowProbe) -> (TrayState, Seq<Action>) {
    let visibility = minimize_restore_target(s.visibility, window);
    if window == WindowProbe::Missing {
        (s, seq![])
    } else {
        (
            TrayState { visibility: visibility, menu: s.menu.with_visibility(visibility), ..s },
            window_actions(minimize_restore_ops(window)) + seq![
                Action::SetShowHideLabel(ShowHideLabel::of_visibility(visibility)),
            ],
        )
    }
}

/// A close request of the main window: the close is suppressed, the window
/// is hidden instead, and the label follows.
pub open spec fn close_intercepted(s: TrayState) -> (TrayState, Seq<Action>) {
    (
        TrayState {
            visibility: WindowVisibility::Hidden,
            menu: s.menu.with_visibility(WindowVisibility::Hidden),
            ..s
        },
        seq![
            Action::PreventClose,
            Action::Window(WindowOp::Hide),
            Action::SetShowHideLabel(ShowHideLabel::Show),
        ],
    )
}

/// The transition function: the state after `event` and the actions it
/// calls for.
pub open spec fn step(s: TrayState, event: TrayEvent) -> (TrayState, Seq<Action>) {
    match event {
        TrayEvent::IconClick { button, button_state, now_ms, window } => {
            if button == MouseButton::Left && button_state == MouseButtonState::Up && passes(
                s.last_accepted,
                now_ms as nat,
            ) {
                accepted_click(s, now_ms as nat, window)
            } else {
                (s, seq![])
            }
        },
        TrayEvent::MenuSelected { command, window } => match command {
            Some(MenuCommand::ToggleAutostart) => (s, seq![Action::ReadAutostart]),
            Some(MenuCommand::ToggleWindow) => window_toggled(s, window),
            Some(MenuCommand::Quit) => (s, seq![Action::Exit(0i32)]),
            None => (s, seq![]),
        },
        TrayEvent::CloseRequested { main_window } => {
            if main_window {
                close_intercepted(s)
            } else {
                (s, seq![])
            }
        },
        TrayEvent::AutostartRead { flag } => match toggle_request(flag) {
            Some(op) => (s, seq![Action::WriteAutostart(op)]),
            None => (s, seq![]),
        },
        TrayEvent::AutostartWritten { op, succeeded } => {
            if succeeded {
                (
                    TrayState { menu: s.menu.with_autostart(op.outcome()), ..s },
                    seq![
                        Action::SetAutostartChecked(op.outcome()),
                        Action::EmitAutostartChanged(op.outcome()),
                    ],
                )
            } else {
                (s, seq![])
            }
        },
    }
}

/// Appends the window operations to the actions.
fn push_window_ops(actions: &mut Vec<Action>, ops: &Vec<WindowOp>)
    ensures
        final(actions)@ == old(actions)@ + window_actions(ops@),
{
    let ghost before = actions@;
    let mut i: usize = 0;
    while i < ops.len()
        invariant
            i <= ops.len(),
            actions@ == before + window_actions(ops@.take(i as int)),
        decreases ops.len() - i,
    {
        actions.push(Action::Window(ops[i]));
        assert(actions@ =~= before + window_actions(ops@.take(i + 1)));
        i += 1;
    }
    assert(ops@.take(i as int) =~= ops@);
}

/// Routes events and holds what they change: the debouncer, the window's
/// logical state, the menu's display and the tooltip.
#[derive(Clone, Debug)]
pub struct TrayEventRouter {
    debouncer: ClickDebouncer,
    controller: VisibilityController,
    menu: TrayMenuModel,
    tooltip: Tooltip,
}

impl View for TrayEventRouter {
    type V = TrayState;

    closed spec fn view(&self) -> TrayState {
        TrayState {
            last_accepted: self.debouncer@,
            visibility: self.controller@,
            menu: self.menu@,
            tooltip: self.tooltip,
        }
    }
}

impl TrayEventRouter {
    pub fn visibility(&self) -> (v: WindowVisibility)
        ensures
            v == self@.visibility,
    {
        self.controller.visibility()
    }

    pub fn autostart_checked(&self) -> (b: bool)
        ensures
            b == self@.menu.autostart_checked,
    {
        self.menu.autostart_checked()
    }

    pub fn show_hide_label(&self) -> (label: ShowHideLabel)
        ensures
            label == self@.menu.show_hide,
    {
        self.menu.show_hide_label()
    }

    pub fn tooltip(&self) -> (t: Tooltip)
        ensures
            t == self@.tooltip,
    {
        self.tooltip
    }

    pub fn last_accepted_click(&self) -> (t: Option<u64>)
        ensures
            t is Some == self@.last_accepted is Some,
            t is Some ==> t->0 as nat == self@.last_accepted->0,
    {
        self.debouncer.last_accepted()
    }

    /// Routes one event.
    pub fn route(&mut self, event: TrayEvent) -> (actions: Vec<Action>)
        ensures
            final(self)@ == step(old(self)@, event).0,
            actions@ == step(old(self)@, event).1,
    {
        let mut actions: Vec<Action> = Vec::new();
        match event {
            TrayEvent::IconClick { button, button_state, now_ms, window } => {
                if button == MouseButton::Left && button_state == MouseButtonState::Up {
                    if self.debouncer.accept(now_ms) {
                        let (visibility, ops) = self.controller.toggle_show_hide(window);
                        if window != WindowProbe::Missing {
                            self.menu.sync_show_hide_label(visibility);
                            self.tooltip = Tooltip::for_visibility(visibility);
                            push_window_ops(&mut actions, &ops);
                            actions.push(Action::SetShowHideLabel(self.menu.show_hide_label()));
                            actions.push(Action::SetTooltip(self.tooltip));
                        }
                    }
                }
            },
            TrayEvent::MenuSelected { command, window } => match command {
                Some(MenuCommand::ToggleAutostart) => {
                    actions.push(Action::ReadAutostart);
                },
                Some(MenuCommand::ToggleWindow) => {
                    let (visibility, ops) = self.controller.toggle_minimize_restore(window);
                    if window != WindowProbe::Missing {
                        self.menu.sync_show_hide_label(visibility);
                        push_window_ops(&mut actions, &ops);
                        actions.push(Action::SetShowHideLabel(self.menu.show_hide_label()));
                    }
                },
                Some(MenuCommand::Quit) => {
                    actions.push(Action::Exit(0));
                },
                None => {},
            },
            TrayEvent::CloseRequested { main_window } => {
                if main_window {
                    let ops = self.controller.hide_for_close();
                    self.menu.sync_show_hide_label(WindowVisibility::Hidden);
                    actions.push(Action::PreventClose);
                    push_window_ops(&mut actions, &ops);
                    actions.push(Action::SetShowHideLabel(self.menu.show_hide_label()));
                }
            },
            TrayEvent::AutostartRead { flag } => match toggle(flag) {
                Some(op) => {
                    actions.push(Action::WriteAutostart(op));
                },
                None => {},
            },
            TrayEvent::AutostartWritten { op, succeeded } => {
                if succeeded {
                    let enabled = op.enables();
                    self.menu.sync_autostart(enabled);
                    actions.push(Action::SetAutostartChecked(enabled));
                    actions.push(Action::EmitAutostartChanged(enabled));
                }
            },
        }
        assert(actions@ =~= step(old(self)@, event).1);
        actions
    }

    /// Routes the selection of the menu item registered under `id`.
    pub fn on_menu_id(&mut self, id: &str, window: WindowProbe) -> (actions: Vec<Action>)
        ensures
            final(self)@ == step(
                old(self)@,
                TrayEvent::MenuSelected { command: MenuCommand::decode(id@), window },
            ).0,
            actions@ == step(
                old(self)@,
                TrayEvent::MenuSelected { command: MenuCommand::decode(id@), window },
            ).1,
    {
        self.route(TrayEvent::MenuSelected { command: MenuCommand::from_id(id), window })
    }

    /// Routes the close request of the window labelled `label`.
    pub fn on_close_requested(&mut self, label: &str) -> (actions: Vec<Action>)
        ensures
            final(self)@ == step(
                old(self)@,
                TrayEvent::CloseRequested { main_window: label@ == main_window_chars() },
            ).0,
            actions@ == step(
                old(self)@,
                TrayEvent::CloseRequested { main_window: label@ == main_window_chars() },
            ).1,
    {
        self.route(TrayEvent::CloseRequested { main_window: is_main_window(label) })
    }
}

/// Sets the tray up: the router in its startup state and the actions that
/// bring menu, observers and tooltip in line with it. `provider` is the
/// launch-at-login flag as the provider reported it, `None` where it
/// reported none.
pub fn build_system_tray(provider: Option<bool>, window: WindowProbe) -> (out: (TrayEventRouter, Vec<Action>))
    ensures
        out.0@ == startup_state(provider, window),
        out.1@ == startup_actions(provider, window),
{
    let (menu, announce) = TrayMenuModel::initial_state(provider, window);
    let tooltip = Tooltip::for_probe(window);
    let mut actions: Vec<Action> = Vec::new();
    actions.push(Action::SetShowHideLabel(menu.show_hide_label()));
    actions.push(Action::SetAutostartChecked(menu.autostart_checked()));
    match announce {
        Some(enabled) => {
            actions.push(Action::EmitAutostartChanged(enabled));
        },
        None => {},
    }
    actions.push(Action::SetTooltip(tooltip));
    let router = TrayEventRouter {
        debouncer: ClickDebouncer::new(),
        controller: VisibilityController::with_visibility(window.visibility_or_hidden()),
        menu,
        tooltip,
    };
    assert(actions@ =~= startup_actions(provider, window));
    (router, actions)
}

} // verus!
