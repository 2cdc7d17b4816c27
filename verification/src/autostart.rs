//! Decisions around the launch-at-login provider. The provider itself is
//! the host's: it reads the registration from the operating system and
//! writes it, and either may fail. This module says which request to make
//! and what a toggle asks for.

use vstd::prelude::*;

verus! {

/// A request to the provider to change the registration.
#[derive(Clone, Copy, Debug, PartialEq, Eq, Structural)]
pub enum ProviderOp {
    Enable,
    Disable,
}

impl ProviderOp {
    /// The request that brings the registration to `enabled`.
    pub open spec fn toward(enabled: bool) -> ProviderOp {
        if enabled {
            ProviderOp::Enable
        } else {
            ProviderOp::Disable
        }
    }

    /// The registration that holds once the request has succeeded.
    pub open spec fn outcome(self) -> bool {
        self == ProviderOp::Enable
    }

    pub fn enables(self) -> (b: bool)
        ensures
            b == self.outcome(),
            ProviderOp::toward(b) == self,
    {
        match self {
            ProviderOp::Enable => true,
            ProviderOp::Disable => false,
        }
    }
}

/// The request a toggle makes after the provider was asked for the current
/// registration: the opposite of what it reported, and none where the read
/// failed.
pub open spec fn toggle_request(flag: Option<bool>) -> Option<ProviderOp> {
    match flag {
        Some(enabled) => Some(ProviderOp::toward(!enabled)),
        None => None,
    }
}

/// The request that sets the registration to `enabled`.
pub fn set_enabled(enabled: bool) -> (op: ProviderOp)
    ensures
        op == ProviderOp::toward(enabled),
        op.outcome() == enabled,
{
    if enabled {
        ProviderOp::Enable
    } else {
        ProviderOp::Disable
    }
}

/// The request of a toggle, from the flag as it was read when the toggle
/// runs.
pub fn toggle(flag: Option<bool>) -> (op: Option<ProviderOp>)
    ensures
        op == toggle_request(flag),
{
    match flag {
        Some(enabled) => Some(set_enabled(!enabled)),
        None => None,
    }
}

/// A toggle asks for the opposite of the registration that was read.
pub proof fn lemma_toggle_inverts(enabled: bool)
    ensures
        toggle_request(Some(enabled)) is Some,
        toggle_request(Some(enabled))->0.outcome() == !enabled,
{
}

} // verus!
