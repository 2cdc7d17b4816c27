//! What holds of the tray over whole runs of events, proved from the
//! transition function.

use vstd::prelude::*;
use crate::autostart::ProviderOp;
use crate::debounce::{passes, DEBOUNCE_INTERVAL_MS};
use crate::menu::{MenuCommand, ShowHideLabel};
use crate::tray::{
    startup_state, step, Action, MouseButton, MouseButtonState, Tooltip, TrayEvent, TrayState,
};
use crate::visibility::{WindowProbe, WindowVisibility};

verus! {

/// Whether each time lies at least the debounce interval after the one
/// before it.
pub open spec fn spaced(times: Seq<u64>) -> bool {
    forall|i: int| 0 < i < times.len() ==> #[trigger] times[i] - times[i - 1] >= DEBOUNCE_INTERVAL_MS
}

/// A release of the left button on the tray icon at `now_ms`, with the
/// window reporting the state that `s` holds.
pub open spec fn left_release(s: TrayState, now_ms: u64) -> TrayEvent {
    TrayEvent::IconClick {
        button: MouseButton::Left,
        button_state: MouseButtonState::Up,
        now_ms,
        window: WindowProbe::Reported(s.visibility),
    }
}

/// The state after releases of the left button at `times`, one after the
/// other, starting in `s`.
pub open spec fn after_clicks(s: TrayState, times: Seq<u64>) -> TrayState
    decreases times.len(),
{
    if times.len() == 0 {
        s
    } else {
        let before = after_clicks(s, times.drop_last());
        step(before, left_release(before, times.last())).0
    }
}

/// `visibility` after `n` toggles.
pub open spec fn toggled_times(visibility: WindowVisibility, n: nat) -> WindowVisibility {
    if n % 2 == 0 {
        visibility
    } else {
        visibility.flipped()
    }
}

/// Whether the show/hide entry fits the window's logical state.
pub open spec fn label_in_sync(s: TrayState) -> bool {
    s.menu.show_hide == ShowHideLabel::of_visibility(s.visibility)
}

/// Clicks that are spaced by the debounce interval, the first of them
/// passing the debouncer, each toggle the window; after the last of them
/// its time is the one recorded, and label and tooltip fit the window.
pub proof fn lemma_spaced_clicks_toggle(s: TrayState, times: Seq<u64>)
    requires
        spaced(times),
        times.len() > 0 ==> passes(s.last_accepted, times[0] as nat),
    ensures
        after_clicks(s, times).visibility == toggled_times(s.visibility, times.len()),
        times.len() > 0 ==> after_clicks(s, times).last_accepted == Some(times.last() as nat),
        times.len() > 0 ==> label_in_sync(after_clicks(s, times)),
        times.len() > 0 ==> after_clicks(s, times).tooltip == Tooltip::of_visibility(
            after_clicks(s, times).visibility,
        ),
    decreases times.len(),
{
    if times.len() > 0 {
        let earlier = times.drop_last();
        assert forall|i: int| 0 < i < earlier.len() implies #[trigger] earlier[i] - earlier[i - 1]
            >= DEBOUNCE_INTERVAL_MS by {
            assert(earlier[i] == times[i]);
            assert(earlier[i - 1] == times[i - 1]);
        }
        if earlier.len() > 0 {
            assert(earlier[0] == times[0]);
        }
        lemma_spaced_clicks_toggle(s, earlier);
        let before = after_clicks(s, earlier);
        if earlier.len() > 0 {
            let last = times.len() - 1;
            assert(earlier.last() == times[last - 1]);
            assert(times[last] - times[last - 1] >= DEBOUNCE_INTERVAL_MS);
        }
        assert(passes(before.last_accepted, times.last() as nat));
    }
}

/// From startup with the window hidden, clicks that are spaced by the
/// debounce interval show and hide the window in turn: after each odd
/// number of them it is shown, after each even number hidden.
pub proof fn lemma_spaced_clicks_alternate(provider: Option<bool>, times: Seq<u64>, k: int)
    requires
        spaced(times),
        0 <= k <= times.len(),
    ensures
        after_clicks(
            startup_state(provider, WindowProbe::Reported(WindowVisibility::Hidden)),
            times.take(k),
        ).visibility == if k % 2 == 0 {
            WindowVisibility::Hidden
        } else {
            WindowVisibility::Visible
        },
{
    let first = times.take(k);
    assert forall|i: int| 0 < i < first.len() implies #[trigger] first[i] - first[i - 1]
        >= DEBOUNCE_INTERVAL_MS by {
        assert(first[i] == times[i]);
        assert(first[i - 1] == times[i - 1]);
    }
    lemma_spaced_clicks_toggle(
        startup_state(provider, WindowProbe::Reported(WindowVisibility::Hidden)),
        first,
    );
}

/// A click less than the debounce interval after an accepted one changes
/// nothing and calls for nothing, whichever button it is and whatever the
/// window reports.
pub proof fn lemma_rapid_click_ignored(
    s: TrayState,
    first_ms: u64,
    first_window: WindowProbe,
    second_ms: u64,
    second_button: MouseButton,
    second_state: MouseButtonState,
    second_window: WindowProbe,
)
    requires
        passes(s.last_accepted, first_ms as nat),
        second_ms - first_ms < DEBOUNCE_INTERVAL_MS,
    ensures
        ({
            let accepted = step(
                s,
                TrayEvent::IconClick {
                    button: MouseButton::Left,
                    button_state: MouseButtonState::Up,
                    now_ms: first_ms,
                    window: first_window,
                },
            ).0;
            let second = step(
                accepted,
                TrayEvent::IconClick {
                    button: second_button,
                    button_state: second_state,
                    now_ms: second_ms,
                    window: second_window,
                },
            );
            &&& second.0 == accepted
            &&& second.1 == Seq::<Action>::empty()
        }),
{
}

/// Only the release of the left button acts: a press, and any event of
/// another button, changes nothing, the debouncer's record included.
pub proof fn lemma_other_clicks_ignored(
    s: TrayState,
    button: MouseButton,
    button_state: MouseButtonState,
    now_ms: u64,
    window: WindowProbe,
)
    requires
        button != MouseButton::Left || button_state != MouseButtonState::Up,
    ensures
        step(s, TrayEvent::IconClick { button, button_state, now_ms, window }).0 == s,
        step(s, TrayEvent::IconClick { button, button_state, now_ms, window }).1
            == Seq::<Action>::empty(),
{
}

/// The show/hide entry fits the window at startup.
pub proof fn lemma_startup_label_in_sync(provider: Option<bool>, window: WindowProbe)
    ensures
        label_in_sync(startup_state(provider, window)),
{
}

/// No event brings the show/hide entry out of line with the window.
pub proof fn lemma_step_keeps_label_in_sync(s: TrayState, event: TrayEvent)
    requires
        label_in_sync(s),
    ensures
        label_in_sync(step(s, event).0),
{
}

/// Where an event changes what a menu item displays, the actions set that
/// item to what it now displays.
pub proof fn lemma_display_changes_are_performed(s: TrayState, event: TrayEvent)
    ensures
        step(s, event).0.menu.show_hide != s.menu.show_hide ==> step(s, event).1.contains(
            Action::SetShowHideLabel(step(s, event).0.menu.show_hide),
        ),
        step(s, event).0.menu.autostart_checked != s.menu.autostart_checked ==> step(
            s,
            event,
        ).1.contains(Action::SetAutostartChecked(step(s, event).0.menu.autostart_checked)),
        step(s, event).0.tooltip != s.tooltip ==> step(s, event).1.contains(
            Action::SetTooltip(step(s, event).0.tooltip),
        ),
{
    let next = step(s, event);
    let actions = next.1;
    if next.0.menu.show_hide != s.menu.show_hide {
        let wanted = Action::SetShowHideLabel(next.0.menu.show_hide);
        match event {
            TrayEvent::IconClick { .. } => {
                assert(actions[actions.len() - 2] == wanted);
            },
            TrayEvent::MenuSelected { .. } => {
                assert(actions[actions.len() - 1] == wanted);
            },
            TrayEvent::CloseRequested { .. } => {
                assert(actions[2] == wanted);
            },
            _ => {},
        }
    }
    if next.0.menu.autostart_checked != s.menu.autostart_checked {
        assert(actions[0] == Action::SetAutostartChecked(next.0.menu.autostart_checked));
    }
    if next.0.tooltip != s.tooltip {
        assert(actions[actions.len() - 1] == Action::SetTooltip(next.0.tooltip));
    }
}

/// The state after `events`, one after the other, starting in `s`.
pub open spec fn after_events(s: TrayState, events: Seq<TrayEvent>) -> TrayState
    decreases events.len(),
{
    if events.len() == 0 {
        s
    } else {
        step(after_events(s, events.drop_last()), events.last()).0
    }
}

/// Whether `event` is a click that acts in state `s`: a release of the left
/// button that the debouncer lets pass.
pub open spec fn is_accepted_click(s: TrayState, event: TrayEvent) -> bool {
    match event {
        TrayEvent::IconClick { button, button_state, now_ms, .. } => {
            &&& button == MouseButton::Left
            &&& button_state == MouseButtonState::Up
            &&& passes(s.last_accepted, now_ms as nat)
        },
        _ => false,
    }
}

/// Whether the `i`-th of `events` is a click that acts when the events come
/// one after the other, starting in `s`.
pub open spec fn accepted_at(s: TrayState, events: Seq<TrayEvent>, i: int) -> bool
    recommends
        0 <= i < events.len(),
{
    is_accepted_click(after_events(s, events.take(i)), events[i])
}

/// The time an icon click carries.
pub open spec fn click_time(event: TrayEvent) -> nat {
    match event {
        TrayEvent::IconClick { now_ms, .. } => now_ms as nat,
        _ => 0,
    }
}

/// Through every run of events the show/hide entry fits the window.
pub proof fn lemma_run_keeps_label_in_sync(s: TrayState, events: Seq<TrayEvent>)
    requires
        label_in_sync(s),
    ensures
        label_in_sync(after_events(s, events)),
    decreases events.len(),
{
    if events.len() > 0 {
        lemma_run_keeps_label_in_sync(s, events.drop_last());
        lemma_step_keeps_label_in_sync(after_events(s, events.drop_last()), events.last());
    }
}

/// Once a click was accepted, the recorded time never moves back: after any
/// further events it is at least the time of that click.
proof fn lemma_record_never_moves_back(s: TrayState, events: Seq<TrayEvent>, i: int, j: int)
    requires
        0 <= i < j <= events.len(),
        accepted_at(s, events, i),
    ensures
        after_events(s, events.take(j)).last_accepted is Some,
        after_events(s, events.take(j)).last_accepted->0 >= click_time(events[i]),
    decreases j,
{
    assert(events.take(j).drop_last() =~= events.take(j - 1));
    assert(events.take(j).last() == events[j - 1]);
    if j - 1 > i {
        lemma_record_never_moves_back(s, events, i, j - 1);
    }
}

/// In every run of events, whatever else happens in between and whatever
/// the clock does, two clicks that act lie at least the debounce interval
/// apart.
pub proof fn lemma_accepted_clicks_apart(s: TrayState, events: Seq<TrayEvent>, i: int, j: int)
    requires
        0 <= i < j < events.len(),
        accepted_at(s, events, i),
        accepted_at(s, events, j),
    ensures
        click_time(events[j]) - click_time(events[i]) >= DEBOUNCE_INTERVAL_MS,
{
    lemma_record_never_moves_back(s, events, i, j);
}

/// The checkbox changes only when a request to the provider has succeeded,
/// and observers are told of exactly those changes: a failed read or a
/// failed request leaves the state as it is and calls for nothing.
pub proof fn lemma_failed_provider_call_changes_nothing(s: TrayState, op: ProviderOp)
    ensures
        step(s, TrayEvent::AutostartRead { flag: None }).0 == s,
        step(s, TrayEvent::AutostartRead { flag: None }).1 == Seq::<Action>::empty(),
        step(s, TrayEvent::AutostartWritten { op, succeeded: false }).0 == s,
        step(s, TrayEvent::AutostartWritten { op, succeeded: false }).1 == Seq::<Action>::empty(),
{
}

/// Quitting ends the process with exit code 0 in every state.
pub proof fn lemma_quit_exits(s: TrayState, window: WindowProbe)
    ensures
        step(s, TrayEvent::MenuSelected { command: Some(MenuCommand::Quit), window }).0 == s,
        step(s, TrayEvent::MenuSelected { command: Some(MenuCommand::Quit), window }).1
            == seq![Action::Exit(0i32)],
{
}

/// Only quitting ends the process.
pub proof fn lemma_only_quit_exits(s: TrayState, event: TrayEvent, code: i32)
    requires
        step(s, event).1.contains(Action::Exit(code)),
    ensures
        event matches TrayEvent::MenuSelected { command: Some(MenuCommand::Quit), .. },
        code == 0,
{
}

} // verus!
