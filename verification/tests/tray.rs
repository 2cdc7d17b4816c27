use timeman::autostart::ProviderOp;
use timeman::controller::WindowOp;
use timeman::menu::ShowHideLabel;
use timeman::menu::MenuCommand;
use timeman::tray::{
    build_system_tray, Action, MouseButton, MouseButtonState, Tooltip, TrayEvent, TrayEventRouter,
};
use timeman::visibility::{WindowProbe, WindowVisibility};

fn hidden_tray(provider: Option<bool>) -> TrayEventRouter {
    build_system_tray(provider, WindowProbe::Reported(WindowVisibility::Hidden)).0
}

fn left_release(router: &TrayEventRouter, now_ms: u64) -> TrayEvent {
    TrayEvent::IconClick {
        button: MouseButton::Left,
        button_state: MouseButtonState::Up,
        now_ms,
        window: WindowProbe::Reported(router.visibility()),
    }
}

#[test]
fn tooltip_texts() {
    assert_eq!(Tooltip::Visible.text(), "timeman \u{2014} visible");
    assert_eq!(Tooltip::Hidden.text(), "timeman \u{2014} hidden");
    assert_eq!(Tooltip::Generic.text(), "timeman");
    assert_eq!(Tooltip::for_visibility(WindowVisibility::Visible), Tooltip::Visible);
    assert_eq!(Tooltip::for_visibility(WindowVisibility::Hidden), Tooltip::Hidden);
    assert_eq!(Tooltip::for_probe(WindowProbe::Missing), Tooltip::Generic);
    assert_eq!(Tooltip::for_probe(WindowProbe::QueryFailed), Tooltip::Generic);
    assert_eq!(
        Tooltip::for_probe(WindowProbe::Reported(WindowVisibility::Visible)),
        Tooltip::Visible
    );
}

#[test]
fn startup_with_autostart_enabled_checks_the_box_and_notifies_once() {
    let (router, actions) =
        build_system_tray(Some(true), WindowProbe::Reported(WindowVisibility::Hidden));
    assert!(router.autostart_checked());
    assert_eq!(router.visibility(), WindowVisibility::Hidden);
    assert_eq!(router.show_hide_label(), ShowHideLabel::Show);
    assert_eq!(router.tooltip(), Tooltip::Hidden);
    assert_eq!(router.last_accepted_click(), None);
    assert_eq!(
        actions,
        vec![
            Action::SetShowHideLabel(ShowHideLabel::Show),
            Action::SetAutostartChecked(true),
            Action::EmitAutostartChanged(true),
            Action::SetTooltip(Tooltip::Hidden),
        ]
    );
    let notifications =
        actions.iter().filter(|a| matches!(a, Action::EmitAutostartChanged(_))).count();
    assert_eq!(notifications, 1);
}

#[test]
fn startup_with_autostart_disabled_notifies_false() {
    let (router, actions) =
        build_system_tray(Some(false), WindowProbe::Reported(WindowVisibility::Visible));
    assert!(!router.autostart_checked());
    assert_eq!(router.visibility(), WindowVisibility::Visible);
    assert_eq!(
        actions,
        vec![
            Action::SetShowHideLabel(ShowHideLabel::Hide),
            Action::SetAutostartChecked(false),
            Action::EmitAutostartChanged(false),
            Action::SetTooltip(Tooltip::Visible),
        ]
    );
}

#[test]
fn startup_without_provider_answer_or_window() {
    let (router, actions) = build_system_tray(None, WindowProbe::Missing);
    assert!(!router.autostart_checked());
    assert_eq!(router.visibility(), WindowVisibility::Hidden);
    assert_eq!(router.tooltip(), Tooltip::Generic);
    assert_eq!(
        actions,
        vec![
            Action::SetShowHideLabel(ShowHideLabel::Show),
            Action::SetAutostartChecked(false),
            Action::SetTooltip(Tooltip::Generic),
        ]
    );
    let (router, actions) = build_system_tray(None, WindowProbe::QueryFailed);
    assert_eq!(router.tooltip(), Tooltip::Generic);
    assert_eq!(actions.len(), 3);
}

#[test]
fn left_click_on_hidden_window_shows_it() {
    let mut router = hidden_tray(Some(false));
    let actions = router.route(TrayEvent::IconClick {
        button: MouseButton::Left,
        button_state: MouseButtonState::Up,
        now_ms: 12_345,
        window: WindowProbe::Reported(WindowVisibility::Hidden),
    });
    assert_eq!(router.visibility(), WindowVisibility::Visible);
    assert_eq!(router.show_hide_label().text(), "Hide");
    assert_eq!(router.tooltip().text(), "timeman \u{2014} visible");
    assert_eq!(router.last_accepted_click(), Some(12_345));
    assert_eq!(
        actions,
        vec![
            Action::Window(WindowOp::Show),
            Action::Window(WindowOp::Unminimize),
            Action::Window(WindowOp::Focus),
            Action::SetShowHideLabel(ShowHideLabel::Hide),
            Action::SetTooltip(Tooltip::Visible),
        ]
    );
}

#[test]
fn left_click_on_visible_window_hides_it() {
    let mut router =
        build_system_tray(None, WindowProbe::Reported(WindowVisibility::Visible)).0;
    let actions = router.route(left_release(&router, 0));
    assert_eq!(router.visibility(), WindowVisibility::Hidden);
    assert_eq!(
        actions,
        vec![
            Action::Window(WindowOp::Hide),
            Action::SetShowHideLabel(ShowHideLabel::Show),
            Action::SetTooltip(Tooltip::Hidden),
        ]
    );
}

#[test]
fn left_click_with_failed_query_shows_the_window() {
    let mut router =
        build_system_tray(None, WindowProbe::Reported(WindowVisibility::Visible)).0;
    let actions = router.route(TrayEvent::IconClick {
        button: MouseButton::Left,
        button_state: MouseButtonState::Up,
        now_ms: 1,
        window: WindowProbe::QueryFailed,
    });
    assert_eq!(router.visibility(), WindowVisibility::Visible);
    assert_eq!(
        actions,
        vec![
            Action::Window(WindowOp::Show),
            Action::Window(WindowOp::Unminimize),
            Action::Window(WindowOp::Focus),
            Action::SetShowHideLabel(ShowHideLabel::Hide),
            Action::SetTooltip(Tooltip::Visible),
        ]
    );
}

#[test]
fn left_click_without_window_only_records_the_click() {
    let mut router = hidden_tray(Some(true));
    let actions = router.route(TrayEvent::IconClick {
        button: MouseButton::Left,
        button_state: MouseButtonState::Up,
        now_ms: 900,
        window: WindowProbe::Missing,
    });
    assert!(actions.is_empty());
    assert_eq!(router.visibility(), WindowVisibility::Hidden);
    assert_eq!(router.show_hide_label(), ShowHideLabel::Show);
    assert_eq!(router.tooltip(), Tooltip::Hidden);
    assert_eq!(router.last_accepted_click(), Some(900));
}

#[test]
fn spaced_left_clicks_alternate_from_hidden() {
    let mut router = hidden_tray(None);
    let mut seen: Vec<WindowVisibility> = Vec::new();
    for now in [0u64, 200, 400, 1_000, 1_200, 5_000] {
        let event = left_release(&router, now);
        router.route(event);
        seen.push(router.visibility());
        assert_eq!(router.show_hide_label(), ShowHideLabel::for_visibility(router.visibility()));
        assert_eq!(router.tooltip(), Tooltip::for_visibility(router.visibility()));
    }
    assert_eq!(
        seen,
        vec![
            WindowVisibility::Visible,
            WindowVisibility::Hidden,
            WindowVisibility::Visible,
            WindowVisibility::Hidden,
            WindowVisibility::Visible,
            WindowVisibility::Hidden,
        ]
    );
}

#[test]
fn second_click_within_interval_is_ignored() {
    let mut router = hidden_tray(None);
    let first = left_release(&router, 1_000);
    assert_eq!(router.route(first).len(), 5);
    let second = left_release(&router, 1_199);
    let actions = router.route(second);
    assert!(actions.is_empty());
    assert_eq!(router.visibility(), WindowVisibility::Visible);
    assert_eq!(router.show_hide_label(), ShowHideLabel::Hide);
    assert_eq!(router.tooltip(), Tooltip::Visible);
    assert_eq!(router.last_accepted_click(), Some(1_000));
    let third = left_release(&router, 1_200);
    assert_eq!(router.route(third).len(), 3);
    assert_eq!(router.visibility(), WindowVisibility::Hidden);
}

#[test]
fn press_and_other_buttons_are_ignored() {
    let mut router = hidden_tray(None);
    let window = WindowProbe::Reported(WindowVisibility::Hidden);
    let ignored = [
        (MouseButton::Left, MouseButtonState::Down),
        (MouseButton::Right, MouseButtonState::Up),
        (MouseButton::Right, MouseButtonState::Down),
        (MouseButton::Middle, MouseButtonState::Up),
        (MouseButton::Middle, MouseButtonState::Down),
    ];
    for (button, button_state) in ignored {
        let actions =
            router.route(TrayEvent::IconClick { button, button_state, now_ms: 10_000, window });
        assert!(actions.is_empty());
        assert_eq!(router.visibility(), WindowVisibility::Hidden);
        assert_eq!(router.last_accepted_click(), None);
    }
    let actions = router.route(left_release(&router, 10_001));
    assert_eq!(actions.len(), 5);
}

#[test]
fn close_request_on_main_window_hides_instead() {
    let mut router =
        build_system_tray(Some(true), WindowProbe::Reported(WindowVisibility::Visible)).0;
    let actions = router.on_close_requested("main");
    assert_eq!(
        actions,
        vec![
            Action::PreventClose,
            Action::Window(WindowOp::Hide),
            Action::SetShowHideLabel(ShowHideLabel::Show),
        ]
    );
    assert_eq!(router.visibility(), WindowVisibility::Hidden);
    assert_eq!(router.show_hide_label(), ShowHideLabel::Show);
    assert!(!actions.iter().any(|a| matches!(a, Action::Exit(_))));
    assert!(router.autostart_checked());
}

#[test]
fn close_request_on_other_window_is_not_intercepted() {
    let mut router =
        build_system_tray(None, WindowProbe::Reported(WindowVisibility::Visible)).0;
    assert!(router.on_close_requested("about").is_empty());
    assert_eq!(router.visibility(), WindowVisibility::Visible);
    assert!(router.route(TrayEvent::CloseRequested { main_window: false }).is_empty());
    assert_eq!(
        router.route(TrayEvent::CloseRequested { main_window: true }).len(),
        3
    );
}

#[test]
fn failed_enable_leaves_checkbox_and_sends_no_notification() {
    let mut router = hidden_tray(Some(false));
    let window = WindowProbe::Reported(WindowVisibility::Hidden);
    assert_eq!(router.on_menu_id("toggle-autostart", window), vec![Action::ReadAutostart]);
    assert_eq!(
        router.route(TrayEvent::AutostartRead { flag: Some(false) }),
        vec![Action::WriteAutostart(ProviderOp::Enable)]
    );
    let actions =
        router.route(TrayEvent::AutostartWritten { op: ProviderOp::Enable, succeeded: false });
    assert!(actions.is_empty());
    assert!(!router.autostart_checked());
}

#[test]
fn successful_toggle_syncs_checkbox_and_notifies() {
    let mut router = hidden_tray(Some(false));
    let window = WindowProbe::Missing;
    assert_eq!(router.on_menu_id("toggle-autostart", window), vec![Action::ReadAutostart]);
    assert!(!router.autostart_checked());
    assert_eq!(
        router.route(TrayEvent::AutostartRead { flag: Some(false) }),
        vec![Action::WriteAutostart(ProviderOp::Enable)]
    );
    assert!(!router.autostart_checked());
    assert_eq!(
        router.route(TrayEvent::AutostartWritten { op: ProviderOp::Enable, succeeded: true }),
        vec![Action::SetAutostartChecked(true), Action::EmitAutostartChanged(true)]
    );
    assert!(router.autostart_checked());

    assert_eq!(
        router.route(TrayEvent::AutostartRead { flag: Some(true) }),
        vec![Action::WriteAutostart(ProviderOp::Disable)]
    );
    assert_eq!(
        router.route(TrayEvent::AutostartWritten { op: ProviderOp::Disable, succeeded: true }),
        vec![Action::SetAutostartChecked(false), Action::EmitAutostartChanged(false)]
    );
    assert!(!router.autostart_checked());
}

#[test]
fn toggle_uses_the_flag_read_when_it_runs() {
    let mut router = hidden_tray(Some(false));
    assert_eq!(
        router.route(TrayEvent::AutostartRead { flag: Some(true) }),
        vec![Action::WriteAutostart(ProviderOp::Disable)]
    );
}

#[test]
fn failed_read_does_nothing() {
    let mut router = hidden_tray(Some(true));
    assert!(router.route(TrayEvent::AutostartRead { flag: None }).is_empty());
    assert!(router.autostart_checked());
}

#[test]
fn menu_toggle_window_minimizes_and_restores() {
    let mut router =
        build_system_tray(None, WindowProbe::Reported(WindowVisibility::Visible)).0;
    let actions =
        router.on_menu_id("toggle-window", WindowProbe::Reported(WindowVisibility::Visible));
    assert_eq!(
        actions,
        vec![Action::Window(WindowOp::Minimize), Action::SetShowHideLabel(ShowHideLabel::Show)]
    );
    assert_eq!(router.visibility(), WindowVisibility::Hidden);
    assert_eq!(router.tooltip(), Tooltip::Visible);

    let actions =
        router.on_menu_id("toggle-window", WindowProbe::Reported(WindowVisibility::Hidden));
    assert_eq!(
        actions,
        vec![
            Action::Window(WindowOp::Unminimize),
            Action::Window(WindowOp::Show),
            Action::Window(WindowOp::Focus),
            Action::SetShowHideLabel(ShowHideLabel::Hide),
        ]
    );
    assert_eq!(router.visibility(), WindowVisibility::Visible);
    assert_eq!(router.last_accepted_click(), None);
}

#[test]
fn menu_toggle_window_without_window_does_nothing() {
    let mut router = hidden_tray(None);
    assert!(router.on_menu_id("toggle-window", WindowProbe::Missing).is_empty());
    assert_eq!(router.visibility(), WindowVisibility::Hidden);
    assert_eq!(router.show_hide_label(), ShowHideLabel::Show);
}

#[test]
fn quit_exits_with_code_zero_in_every_state() {
    for provider in [None, Some(false), Some(true)] {
        for visibility in [WindowVisibility::Visible, WindowVisibility::Hidden] {
            for window in [
                WindowProbe::Missing,
                WindowProbe::QueryFailed,
                WindowProbe::Reported(visibility),
            ] {
                let mut router = build_system_tray(provider, WindowProbe::Reported(visibility)).0;
                assert_eq!(router.on_menu_id("quit", window), vec![Action::Exit(0)]);
                assert_eq!(router.visibility(), visibility);
                assert_eq!(router.autostart_checked(), provider == Some(true));
                let actions = router
                    .route(TrayEvent::MenuSelected { command: Some(MenuCommand::Quit), window });
                assert_eq!(actions, vec![Action::Exit(0)]);
            }
        }
    }
}

#[test]
fn unknown_menu_item_does_nothing() {
    let mut router = hidden_tray(Some(true));
    let window = WindowProbe::Reported(WindowVisibility::Hidden);
    assert!(router.on_menu_id("preferences", window).is_empty());
    assert!(router.route(TrayEvent::MenuSelected { command: None, window }).is_empty());
    assert_eq!(router.visibility(), WindowVisibility::Hidden);
    assert!(router.autostart_checked());
}

#[test]
fn acting_clicks_stay_apart_among_other_events() {
    let mut router = hidden_tray(Some(false));
    let times: [u64; 9] = [50, 120, 249, 250, 300, 449, 450, 40, 700];
    let mut acted: Vec<u64> = Vec::new();
    for now in times {
        let window = WindowProbe::Reported(router.visibility());
        assert!(router
            .route(TrayEvent::IconClick {
                button: MouseButton::Right,
                button_state: MouseButtonState::Up,
                now_ms: now,
                window,
            })
            .is_empty());
        let before = router.visibility();
        let actions = router.route(left_release(&router, now));
        if !actions.is_empty() {
            acted.push(now);
            assert_eq!(router.visibility(), before.toggled());
        } else {
            assert_eq!(router.visibility(), before);
        }
        assert_eq!(router.show_hide_label(), ShowHideLabel::for_visibility(router.visibility()));
        router.route(TrayEvent::AutostartRead { flag: None });
    }
    assert_eq!(acted, vec![50, 250, 450, 700]);
    assert_eq!(router.visibility(), WindowVisibility::Hidden);
    assert_eq!(router.last_accepted_click(), Some(700));
}

#[test]
fn label_follows_the_window_through_mixed_events() {
    let mut router = hidden_tray(None);
    let visible = WindowProbe::Reported(WindowVisibility::Visible);
    let hidden = WindowProbe::Reported(WindowVisibility::Hidden);
    let events = [
        TrayEvent::MenuSelected { command: Some(MenuCommand::ToggleWindow), window: hidden },
        TrayEvent::CloseRequested { main_window: true },
        TrayEvent::IconClick {
            button: MouseButton::Left,
            button_state: MouseButtonState::Up,
            now_ms: 10,
            window: WindowProbe::QueryFailed,
        },
        TrayEvent::MenuSelected { command: Some(MenuCommand::ToggleWindow), window: visible },
        TrayEvent::AutostartWritten { op: ProviderOp::Enable, succeeded: true },
        TrayEvent::MenuSelected { command: Some(MenuCommand::ToggleWindow), window: WindowProbe::QueryFailed },
        TrayEvent::CloseRequested { main_window: false },
    ];
    let expected = [
        WindowVisibility::Visible,
        WindowVisibility::Hidden,
        WindowVisibility::Visible,
        WindowVisibility::Hidden,
        WindowVisibility::Hidden,
        WindowVisibility::Visible,
        WindowVisibility::Visible,
    ];
    for (event, want) in events.into_iter().zip(expected) {
        router.route(event);
        assert_eq!(router.visibility(), want);
        assert_eq!(router.show_hide_label(), ShowHideLabel::for_visibility(want));
    }
    assert!(router.autostart_checked());
}
