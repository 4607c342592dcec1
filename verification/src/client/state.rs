//! Client connection states.

use vstd::prelude::*;

verus! {

/// The state of a client's connection to its broker.
#[derive(Debug, Clone, PartialEq, Eq, Structural)]
pub enum ConnectionState {
    Disconnected,
    Connecting,
    Connected,
    Disconnecting,
}

impl ConnectionState {
    /// Whether the client is connected.
    pub fn is_connected(&self) -> (r: bool)
        ensures
            r == (*self == ConnectionState::Connected),
    {
        match self {
            ConnectionState::Connected => true,
            _ => false,
        }
    }

    /// Whether the client is disconnected.
    pub fn is_disconnected(&self) -> (r: bool)
        ensures
            r == (*self == ConnectionState::Disconnected),
    {
        match self {
            ConnectionState::Disconnected => true,
            _ => false,
        }
    }

    /// Whether the client is connecting or disconnecting.
    pub fn is_transitional(&self) -> (r: bool)
        ensures
            r == (*self == ConnectionState::Connecting || *self == ConnectionState::Disconnecting),
    {
        match self {
            ConnectionState::Connecting => true,
            ConnectionState::Disconnecting => true,
            _ => false,
        }
    }

    /// The name of the state.
    pub fn description(&self) -> (r: &'static str)
        ensures
            *self == ConnectionState::Disconnected ==> r@ == "Disconnected"@,
            *self == ConnectionState::Connecting ==> r@ == "Connecting"@,
            *self == ConnectionState::Connected ==> r@ == "Connected"@,
            *self == ConnectionState::Disconnecting ==> r@ == "Disconnecting"@,
    {
        match self {
            ConnectionState::Disconnected => "Disconnected",
            ConnectionState::Connecting => "Connecting",
            ConnectionState::Connected => "Connected",
            ConnectionState::Disconnecting => "Disconnecting",
        }
    }
}

/// Every state is exactly one of connected, disconnected or in between.
pub proof fn lemma_state_kinds(s: ConnectionState)
    ensures
        (s == ConnectionState::Connected) as int + (s == ConnectionState::Disconnected) as int + (s
            == ConnectionState::Connecting || s == ConnectionState::Disconnecting) as int == 1,
{
}

} // verus!
