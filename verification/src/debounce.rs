//! Suppression of tray-icon activations that follow one another too closely.
//!
//! Time is a count of milliseconds on a monotonic clock of the host's
//! choosing. The host guards the debouncer with a lock; `accept` takes
//! `&mut self`, so each decision sees the outcome of the one before it.

use vstd::prelude::*;

verus! {

/// Two accepted activations lie at least this many milliseconds apart.
pub const DEBOUNCE_INTERVAL_MS: u64 = 200;

/// The time of the last accepted activation, if there was one.
#[derive(Clone, Debug)]
pub struct ClickDebouncer {
    last_accepted: Option<u64>,
}

impl View for ClickDebouncer {
    type V = Option<nat>;

    closed spec fn view(&self) -> Option<nat> {
        match self.last_accepted {
            None => None,
            Some(t) => Some(t as nat),
        }
    }
}

/// Whether an activation at `now` passes a debouncer that last accepted at
/// `last`: always where nothing was accepted yet, else iff at least the
/// interval has passed. A clock reading before `last` does not pass.
pub open spec fn passes(last: Option<nat>, now: nat) -> bool {
    match last {
        None => true,
        Some(t) => now - t >= DEBOUNCE_INTERVAL_MS as int,
    }
}

/// The record of a debouncer after an activation at `now`.
pub open spec fn after_activation(last: Option<nat>, now: nat) -> Option<nat> {
    if passes(last, now) {
        Some(now)
    } else {
        last
    }
}

impl ClickDebouncer {
    /// A debouncer that has accepted nothing yet: the first activation
    /// passes, whenever it comes.
    pub fn new() -> (d: ClickDebouncer)
        ensures
            d@ is None,
    {
        ClickDebouncer { last_accepted: None }
    }

    pub fn last_accepted(&self) -> (t: Option<u64>)
        ensures
            t is Some == self@ is Some,
            t is Some ==> t->0 as nat == self@->0,
    {
        self.last_accepted
    }

    /// Decides on an activation at `now`, and records it where it passes.
    pub fn accept(&mut self, now: u64) -> (accepted: bool)
        ensures
            accepted == passes(old(self)@, now as nat),
            final(self)@ == after_activation(old(self)@, now as nat),
    {
        let pass = match self.last_accepted {
            None => true,
            Some(t) => now >= t && now - t >= DEBOUNCE_INTERVAL_MS,
        };
        if pass {
            self.last_accepted = Some(now);
        }
        pass
    }
}

/// An activation that is accepted right after another accepted one lies at
/// least the interval after it.
pub proof fn lemma_accepted_apart(last: Option<nat>, first: nat, second: nat)
    requires
        passes(last, first),
        passes(after_activation(last, first), second),
    ensures
        second - first >= DEBOUNCE_INTERVAL_MS as int,
{
}

/// An activation less than the interval after an accepted one is refused and
/// leaves the record as it is.
pub proof fn lemma_close_activation_refused(last: Option<nat>, first: nat, second: nat)
    requires
        passes(last, first),
        second - first < DEBOUNCE_INTERVAL_MS as int,
    ensures
        !passes(after_activation(last, first), second),
        after_activation(after_activation(last, first), second) == after_activation(last, first),
{
}

} // verus!
