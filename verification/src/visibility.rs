//! Logical presentation state of the main window and what the host can
//! observe about the window at the moment an event arrives.

use vstd::prelude::*;

verus! {

/// Logical presentation state of the main window. It does not follow the
/// minimise or focus state of the operating-system window.
#[derive(Clone, Copy, Debug, PartialEq, Eq, Structural)]
pub enum WindowVisibility {
    Visible,
    Hidden,
}

impl WindowVisibility {
    /// The other state.
    pub open spec fn flipped(self) -> WindowVisibility {
        match self {
            WindowVisibility::Visible => WindowVisibility::Hidden,
            WindowVisibility::Hidden => WindowVisibility::Visible,
        }
    }

    /// The state that a window reporting `visible` is in.
    pub open spec fn of_flag(visible: bool) -> WindowVisibility {
        if visible {
            WindowVisibility::Visible
        } else {
            WindowVisibility::Hidden
        }
    }

    pub fn toggled(self) -> (r: WindowVisibility)
        ensures
            r == self.flipped(),
    {
        match self {
            WindowVisibility::Visible => WindowVisibility::Hidden,
            WindowVisibility::Hidden => WindowVisibility::Visible,
        }
    }

    pub fn from_is_visible(visible: bool) -> (r: WindowVisibility)
        ensures
            r == WindowVisibility::of_flag(visible),
    {
        if visible {
            WindowVisibility::Visible
        } else {
            WindowVisibility::Hidden
        }
    }

    pub fn is_visible(self) -> (b: bool)
        ensures
            b == (self == WindowVisibility::Visible),
            WindowVisibility::of_flag(b) == self,
    {
        match self {
            WindowVisibility::Visible => true,
            WindowVisibility::Hidden => false,
        }
    }
}

/// What the host found when it looked for the main window and asked it
/// whether it is shown.
#[derive(Clone, Copy, Debug, PartialEq, Eq, Structural)]
pub enum WindowProbe {
    /// No main window exists (any more).
    Missing,
    /// The window exists but would not say whether it is shown.
    QueryFailed,
    /// The window exists and reported its state.
    Reported(WindowVisibility),
}

impl WindowProbe {
    /// The probe for a window lookup: `None` where no window was found,
    /// `Some(None)` where the window's answer was an error, `Some(Some(v))`
    /// where it answered `v`.
    pub open spec fn of_lookup(lookup: Option<Option<bool>>) -> WindowProbe {
        match lookup {
            None => WindowProbe::Missing,
            Some(None) => WindowProbe::QueryFailed,
            Some(Some(v)) => WindowProbe::Reported(WindowVisibility::of_flag(v)),
        }
    }

    pub fn from_lookup(lookup: Option<Option<bool>>) -> (p: WindowProbe)
        ensures
            p == WindowProbe::of_lookup(lookup),
    {
        match lookup {
            None => WindowProbe::Missing,
            Some(None) => WindowProbe::QueryFailed,
            Some(Some(v)) => WindowProbe::Reported(WindowVisibility::from_is_visible(v)),
        }
    }

    /// The state to assume where nothing has been decided yet: what the
    /// window reported, and `Hidden` where it reported nothing.
    pub open spec fn assumed(self) -> WindowVisibility {
        match self {
            WindowProbe::Reported(v) => v,
            _ => WindowVisibility::Hidden,
        }
    }

    pub fn visibility_or_hidden(self) -> (v: WindowVisibility)
        ensures
            v == self.assumed(),
    {
        match self {
            WindowProbe::Reported(v) => v,
            _ => WindowVisibility::Hidden,
        }
    }
}

} // verus!
