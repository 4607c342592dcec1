//! The message handler a client uses when none is set.

use vstd::prelude::*;
use vstd::utf8::{valid_utf8, decode_utf8};
use crate::buffer::bytes_to_vec;
use crate::text::string_from_utf8;
use crate::types::message::Message;

verus! {

/// The handler used when none is set: it reports the topic and QoS of each
/// message received, and its payload as text where the payload is UTF-8.
#[derive(Debug, Clone, Copy)]
pub struct DefaultMessageHandler;

impl DefaultMessageHandler {
    /// The payload of `message` as text, where it is valid UTF-8; `None`
    /// otherwise (then only the payload's length is reported).
    pub fn payload_text(&self, message: &Message) -> (r: Option<String>)
        ensures
            r is Some <==> valid_utf8(message@.payload),
            r matches Some(s) ==> s@ == decode_utf8(message@.payload),
    {
        match string_from_utf8(bytes_to_vec(&message.payload)) {
            Ok(s) => Some(s),
            Err(_) => None,
        }
    }
}

} // verus!
