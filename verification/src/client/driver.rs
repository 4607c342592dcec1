//! What a client keeps between operations and the decisions it takes on
//! them. The socket work is done outside: it asks here before each step and
//! reports back what happened.

use vstd::prelude::*;
use crate::error::{Error, Result};
use crate::protocol::packet_id::{PacketIdCounter, next_id_after};
use crate::protocol::publish::PublishOptions;
use crate::protocol::qos::QoS;
use crate::string_map::{StringMap, insert_entry, remove_entry};
use crate::types::connect::{ConnAckPacket, ConnectReturnCode};
use crate::types::message::Message;
use super::connection::{assign_packet_id, check_connack, ensure_connected, ensure_disconnected};
use super::state::ConnectionState;

verus! {

/// The state of a client: its connection state, the packet ID it hands out
/// next, and the topics it is subscribed to with their QoS.
pub struct ClientCore {
    pub state: ConnectionState,
    pub packet_ids: PacketIdCounter,
    pub subscriptions: StringMap<QoS>,
}

impl ClientCore {
    /// A disconnected client with no subscription, whose first packet ID
    /// is 1.
    pub fn new() -> (r: Self)
        ensures
            r.state == ConnectionState::Disconnected,
            r.packet_ids.next == 1,
            r.subscriptions.view() == Seq::<(Seq<char>, QoS)>::empty(),
    {
        ClientCore { state: ConnectionState::Disconnected, packet_ids: PacketIdCounter::new(), subscriptions: StringMap::new() }
    }

    /// Before connecting: only a disconnected client may connect, and it is
    /// then connecting.
    pub fn start_connect(&mut self) -> (r: Result<()>)
        ensures
            old(self).state == ConnectionState::Disconnected ==> r is Ok && final(self).state
                == ConnectionState::Connecting,
            old(self).state != ConnectionState::Disconnected ==> (r matches Err(Error::Client(m)) && m@
                == "Client is not in disconnected state"@) && final(self).state == old(self).state,
            final(self).packet_ids == old(self).packet_ids,
            final(self).subscriptions.view() == old(self).subscriptions.view(),
    {
        match ensure_disconnected(&self.state) {
            Ok(()) => {
                self.state = ConnectionState::Connecting;
                Ok(())
            },
            Err(e) => Err(e),
        }
    }

    /// After the broker's CONNACK: an accepted connection is connected; a
    /// refused one is an error and the state stays as it was.
    pub fn finish_connect(&mut self, connack: &ConnAckPacket) -> (r: Result<()>)
        ensures
            connack.return_code == ConnectReturnCode::Accepted ==> r is Ok && final(self).state
                == ConnectionState::Connected,
            connack.return_code != ConnectReturnCode::Accepted ==> (r matches Err(Error::Connection(_)))
                && final(self).state == old(self).state,
            final(self).packet_ids == old(self).packet_ids,
            final(self).subscriptions.view() == old(self).subscriptions.view(),
    {
        match check_connack(connack) {
            Ok(()) => {
                self.state = ConnectionState::Connected;
                Ok(())
            },
            Err(e) => Err(e),
        }
    }

    /// Before disconnecting: a client that is not connected has nothing to
    /// do (`false`); a connected one is then disconnecting (`true`).
    pub fn start_disconnect(&mut self) -> (r: bool)
        ensures
            r == (old(self).state == ConnectionState::Connected),
            r ==> final(self).state == ConnectionState::Disconnecting,
            !r ==> final(self).state == old(self).state,
            final(self).packet_ids == old(self).packet_ids,
            final(self).subscriptions.view() == old(self).subscriptions.view(),
    {
        if self.state.is_connected() {
            self.state = ConnectionState::Disconnecting;
            true
        } else {
            false
        }
    }

    /// Once the DISCONNECT is sent, the client is disconnected.
    pub fn finish_disconnect(&mut self)
        ensures
            final(self).state == ConnectionState::Disconnected,
            final(self).packet_ids == old(self).packet_ids,
            final(self).subscriptions.view() == old(self).subscriptions.view(),
    {
        self.state = ConnectionState::Disconnected;
    }

    /// Before a SUBSCRIBE or UNSUBSCRIBE: the client must be connected; the
    /// request then takes the next packet ID.
    pub fn start_request(&mut self) -> (r: Result<u16>)
        ensures
            old(self).state == ConnectionState::Connected ==> (r matches Ok(id) && id == old(self).packet_ids.next)
                && final(self).packet_ids.next == next_id_after(old(self).packet_ids.next),
            old(self).state != ConnectionState::Connected ==> (r matches Err(Error::Client(m)) && m@
                == "Client is not connected"@) && final(self).packet_ids == old(self).packet_ids,
            final(self).state == old(self).state,
            final(self).subscriptions.view() == old(self).subscriptions.view(),
    {
        match ensure_connected(&self.state) {
            Ok(()) => Ok(self.packet_ids.next_packet_id()),
            Err(e) => Err(e),
        }
    }

    /// Once the broker acknowledged a SUBSCRIBE, the topic is recorded with
    /// its QoS.
    pub fn subscribed(&mut self, topic: String, qos: QoS)
        ensures
            final(self).subscriptions.view() == insert_entry(old(self).subscriptions.view(), topic@, qos),
            final(self).state == old(self).state,
            final(self).packet_ids == old(self).packet_ids,
    {
        self.subscriptions.insert(topic, qos);
    }

    /// Once the broker acknowledged an UNSUBSCRIBE, the topic is forgotten.
    pub fn unsubscribed(&mut self, topic: &str)
        ensures
            final(self).subscriptions.view() == remove_entry(old(self).subscriptions.view(), topic@),
            final(self).state == old(self).state,
            final(self).packet_ids == old(self).packet_ids,
    {
        let _ = self.subscriptions.remove(topic);
    }

    /// Before a PUBLISH: the client must be connected; a publication above
    /// QoS 0 then takes the next packet ID and one at QoS 0 has none.
    pub fn start_publish(&mut self, options: PublishOptions) -> (r: Result<PublishOptions>)
        ensures
            old(self).state != ConnectionState::Connected ==> (r matches Err(Error::Client(m)) && m@
                == "Client is not connected"@) && final(self).packet_ids == old(self).packet_ids,
            (old(self).state == ConnectionState::Connected && options.qos != QoS::AtMostOnce) ==> r == Ok::<
                PublishOptions,
                Error,
            >(PublishOptions { packet_id: Some(old(self).packet_ids.next), ..options })
                && final(self).packet_ids.next == next_id_after(old(self).packet_ids.next),
            (old(self).state == ConnectionState::Connected && options.qos == QoS::AtMostOnce) ==> r == Ok::<
                PublishOptions,
                Error,
            >(PublishOptions { packet_id: None, ..options }) && final(self).packet_ids == old(self).packet_ids,
            final(self).state == old(self).state,
            final(self).subscriptions.view() == old(self).subscriptions.view(),
    {
        match ensure_connected(&self.state) {
            Ok(()) => Ok(assign_packet_id(options, &mut self.packet_ids)),
            Err(e) => Err(e),
        }
    }
}

/// Whether a listening client goes on after an attempt to receive: it
/// stops only when the connection is gone.
pub fn listen_continues(outcome: &Result<Option<Message>>) -> (r: bool)
    ensures
        r == !(outcome matches Err(Error::Disconnected)),
{
    match outcome {
        Err(Error::Disconnected) => false,
        _ => true,
    }
}

} // verus!
