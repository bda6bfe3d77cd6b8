//! The two connection states and the firewall action that each one calls for.

use vstd::prelude::*;

verus! {

/// Whether the VPN is up, as the status probe saw it.
#[derive(Clone, Copy, Debug, PartialEq, Eq, Structural)]
pub enum ConnectionState {
    Connected,
    Disconnected,
}

/// The text under which a state is kept in the state store.
pub open spec fn state_name(s: ConnectionState) -> Seq<char> {
    match s {
        ConnectionState::Connected => "connected"@,
        ConnectionState::Disconnected => "disconnected"@,
    }
}

impl ConnectionState {
    pub fn name(&self) -> (r: &'static str)
        ensures
            r@ == state_name(*self),
    {
        match self {
            ConnectionState::Connected => "connected",
            ConnectionState::Disconnected => "disconnected",
        }
    }
}

/// What the profile actuator is asked to do.
#[derive(Clone, Copy, Debug, PartialEq, Eq, Structural)]
pub enum ProfileAction {
    /// Turn the firewall's active monitoring off.
    DisableMonitoring,
    /// Switch the firewall to the profile named "VPN Off".
    EnableVpnOff,
}

pub open spec fn action_for(s: ConnectionState) -> ProfileAction {
    match s {
        ConnectionState::Connected => ProfileAction::DisableMonitoring,
        ConnectionState::Disconnected => ProfileAction::EnableVpnOff,
    }
}

/// The action for a state; it depends on the state alone.
pub fn profile_action_for(state: ConnectionState) -> (r: ProfileAction)
    ensures
        r == action_for(state),
        state == ConnectionState::Connected ==> r == ProfileAction::DisableMonitoring,
        state == ConnectionState::Disconnected ==> r == ProfileAction::EnableVpnOff,
{
    match state {
        ConnectionState::Connected => ProfileAction::DisableMonitoring,
        ConnectionState::Disconnected => ProfileAction::EnableVpnOff,
    }
}

impl ProfileAction {
    /// The arguments handed to the firewall's control command.
    pub fn arguments(&self) -> (r: Vec<&'static str>)
        ensures
            *self == ProfileAction::DisableMonitoring ==> r@.len() == 2 && r@[0]@ == "profile"@
                && r@[1]@ == "-d"@,
            *self == ProfileAction::EnableVpnOff ==> r@.len() == 3 && r@[0]@ == "profile"@
                && r@[1]@ == "-a"@ && r@[2]@ == "VPN Off"@,
    {
        match self {
            ProfileAction::DisableMonitoring => vec!["profile", "-d"],
            ProfileAction::EnableVpnOff => vec!["profile", "-a", "VPN Off"],
        }
    }

    /// The log line written before the action on a transition.
    pub fn announcement(&self) -> (r: &'static str)
        ensures
            *self == ProfileAction::DisableMonitoring ==> r@ == "Disabling Little Snitch profile..."@,
            *self == ProfileAction::EnableVpnOff ==> r@ == "Enabling 'VPN Off' profile..."@,
    {
        match self {
            ProfileAction::DisableMonitoring => "Disabling Little Snitch profile...",
            ProfileAction::EnableVpnOff => "Enabling 'VPN Off' profile...",
        }
    }

    /// The log line written after the action on a transition.
    pub fn confirmation(&self) -> (r: &'static str)
        ensures
            *self == ProfileAction::DisableMonitoring ==> r@ == "Little Snitch profile disabled"@,
            *self == ProfileAction::EnableVpnOff ==> r@ == "Little Snitch profile 'VPN Off' enabled"@,
    {
        match self {
            ProfileAction::DisableMonitoring => "Little Snitch profile disabled",
            ProfileAction::EnableVpnOff => "Little Snitch profile 'VPN Off' enabled",
        }
    }
}

} // verus!
