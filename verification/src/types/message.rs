//! Application-level messages.

use vstd::prelude::*;
use bytes::Bytes;
use crate::buffer::bytes_contents;

verus! {

/// An MQTT message as delivered to subscribers.
#[derive(Debug)]
pub struct Message {
    pub topic: String,
    pub payload: Bytes,
    pub qos: u8,
    pub retain: bool,
    pub dup: bool,
    pub packet_id: Option<u16>,
}

/// Abstract value of a `Message`.
pub struct MessageView {
    pub topic: Seq<char>,
    pub payload: Seq<u8>,
    pub qos: u8,
    pub retain: bool,
    pub dup: bool,
    pub packet_id: Option<u16>,
}

impl View for Message {
    type V = MessageView;

    open spec fn view(&self) -> MessageView {
        MessageView {
            topic: self.topic@,
            payload: bytes_contents(self.payload),
            qos: self.qos,
            retain: self.retain,
            dup: self.dup,
            packet_id: self.packet_id,
        }
    }
}

impl Clone for Message {
    /// A copy with the same topic, payload and flags.
    fn clone(&self) -> (r: Self)
        ensures
            r@ == self@,
    {
        Message {
            topic: self.topic.clone(),
            payload: self.payload.clone(),
            qos: self.qos,
            retain: self.retain,
            dup: self.dup,
            packet_id: self.packet_id,
        }
    }
}

} // verus!
