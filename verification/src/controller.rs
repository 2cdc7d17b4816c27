//! The rules by which the main window is shown, hidden, minimised and
//! restored. Each decision returns the operations the host performs on the
//! operating-system window, in order, and the logical state that results.

use vstd::prelude::*;
use crate::visibility::{WindowProbe, WindowVisibility};

verus! {

/// One operation on the operating-system window.
#[derive(Clone, Copy, Debug, PartialEq, Eq, Structural)]
pub enum WindowOp {
    Show,
    Hide,
    Minimize,
    Unminimize,
    Focus,
}

/// State after the tray icon's toggle: a window that reports itself shown
/// is hidden, one that reports itself hidden or does not answer is shown,
/// and without a window nothing changes.
pub open spec fn show_hide_target(current: WindowVisibility, probe: WindowProbe) -> WindowVisibility {
    match probe {
        WindowProbe::Missing => current,
        WindowProbe::QueryFailed => WindowVisibility::Visible,
        WindowProbe::Reported(v) => v.flipped(),
    }
}

/// Operations of the tray icon's toggle: hiding takes the window off the
/// task bar; showing brings it up, restores it and gives it the focus.
pub open spec fn show_hide_ops(probe: WindowProbe) -> Seq<WindowOp> {
    match probe {
        WindowProbe::Missing => seq![],
        WindowProbe::Reported(WindowVisibility::Visible) => seq![WindowOp::Hide],
        _ => seq![WindowOp::Show, WindowOp::Unminimize, WindowOp::Focus],
    }
}

/// State after the menu's toggle; the same targets as the tray icon's.
pub open spec fn minimize_restore_target(current: WindowVisibility, probe: WindowProbe) -> WindowVisibility {
    show_hide_target(current, probe)
}

/// Operations of the menu's toggle: a shown window is minimised and so
/// stays on the task bar; otherwise it is restored, shown and focused.
pub open spec fn minimize_restore_ops(probe: WindowProbe) -> Seq<WindowOp> {
    match probe {
        WindowProbe::Missing => seq![],
        WindowProbe::Reported(WindowVisibility::Visible) => seq![WindowOp::Minimize],
        _ => seq![WindowOp::Unminimize, WindowOp::Show, WindowOp::Focus],
    }
}

/// Holds the logical state of the main window.
#[derive(Clone, Debug)]
pub struct VisibilityController {
    current: WindowVisibility,
}

impl View for VisibilityController {
    type V = WindowVisibility;

    closed spec fn view(&self) -> WindowVisibility {
        self.current
    }
}

impl VisibilityController {
    /// The controller at startup: the window is hidden.
    pub fn new() -> (c: VisibilityController)
        ensures
            c@ == WindowVisibility::Hidden,
    {
        VisibilityController { current: WindowVisibility::Hidden }
    }

    /// A controller for a window that is in the state `visibility`.
    pub fn with_visibility(visibility: WindowVisibility) -> (c: VisibilityController)
        ensures
            c@ == visibility,
    {
        VisibilityController { current: visibility }
    }

    pub fn visibility(&self) -> (v: WindowVisibility)
        ensures
            v == self@,
    {
        self.current
    }

    /// The tray icon's toggle between shown and hidden-to-tray.
    pub fn toggle_show_hide(&mut self, probe: WindowProbe) -> (out: (WindowVisibility, Vec<WindowOp>))
        ensures
            final(self)@ == show_hide_target(old(self)@, probe),
            out.0 == final(self)@,
            out.1@ == show_hide_ops(probe),
    {
        let mut ops: Vec<WindowOp> = Vec::new();
        match probe {
            WindowProbe::Missing => {},
            WindowProbe::Reported(WindowVisibility::Visible) => {
                ops.push(WindowOp::Hide);
                self.current = WindowVisibility::Hidden;
            },
            _ => {
                ops.push(WindowOp::Show);
                ops.push(WindowOp::Unminimize);
                ops.push(WindowOp::Focus);
                self.current = WindowVisibility::Visible;
            },
        }
        assert(ops@ =~= show_hide_ops(probe));
        (self.current, ops)
    }

    /// The menu's toggle between shown and minimised.
    pub fn toggle_minimize_restore(&mut self, probe: WindowProbe) -> (out: (WindowVisibility, Vec<WindowOp>))
        ensures
            final(self)@ == minimize_restore_target(old(self)@, probe),
            out.0 == final(self)@,
            out.1@ == minimize_restore_ops(probe),
    {
        let mut ops: Vec<WindowOp> = Vec::new();
        match probe {
            WindowProbe::Missing => {},
            WindowProbe::Reported(WindowVisibility::Visible) => {
                ops.push(WindowOp::Minimize);
                self.current = WindowVisibility::Hidden;
            },
            _ => {
                ops.push(WindowOp::Unminimize);
                ops.push(WindowOp::Show);
                ops.push(WindowOp::Focus);
                self.current = WindowVisibility::Visible;
            },
        }
        assert(ops@ =~= minimize_restore_ops(probe));
        (self.current, ops)
    }

    /// Hides the window in answer to a close request; the window itself is
    /// kept.
    pub fn hide_for_close(&mut self) -> (ops: Vec<WindowOp>)
        ensures
            final(self)@ == WindowVisibility::Hidden,
            ops@ == seq![WindowOp::Hide],
    {
        let mut ops: Vec<WindowOp> = Vec::new();
        ops.push(WindowOp::Hide);
        self.current = WindowVisibility::Hidden;
        assert(ops@ =~= seq![WindowOp::Hide]);
        ops
    }
}

/// Two toggles in a row, the window each time reporting the state the
/// controller holds, lead back to the state before the first.
pub proof fn lemma_toggle_twice_returns(current: WindowVisibility)
    ensures
        ({
            let once = show_hide_target(current, WindowProbe::Reported(current));
            show_hide_target(once, WindowProbe::Reported(once)) == current
        }),
{
}

/// The toggle never leaves a window hidden that did not report itself
/// shown: a failed query ends in `Visible`.
pub proof fn lemma_failed_query_shows(current: WindowVisibility)
    ensures
        show_hide_target(current, WindowProbe::QueryFailed) == WindowVisibility::Visible,
        minimize_restore_target(current, WindowProbe::QueryFailed) == WindowVisibility::Visible,
        show_hide_ops(WindowProbe::QueryFailed)
            == seq![WindowOp::Show, WindowOp::Unminimize, WindowOp::Focus],
{
}

} // verus!
