//! Publish options.

use vstd::prelude::*;
use vstd::slice::slice_to_vec;
use super::qos::QoS;

verus! {

/// What to publish and how: topic, payload, QoS, flags and packet ID.
#[derive(Debug, Clone)]
pub struct PublishOptions {
    pub topic: String,
    pub payload: Vec<u8>,
    pub qos: QoS,
    pub retain: bool,
    pub dup: bool,
    pub packet_id: Option<u16>,
}

impl PublishOptions {
    /// Options for `payload` on `topic`: QoS 0, no flags, no packet ID.
    pub fn new(topic: &str, payload: &[u8]) -> (r: Self)
        ensures
            r.topic@ == topic@,
            r.payload@ == payload@,
            r.qos == QoS::AtMostOnce,
            !r.retain,
            !r.dup,
            r.packet_id is None,
    {
        PublishOptions {
            topic: topic.to_owned(),
            payload: slice_to_vec(payload),
            qos: QoS::AtMostOnce,
            retain: false,
            dup: false,
            packet_id: None,
        }
    }

    /// Sets the QoS.
    pub fn qos(self, qos: QoS) -> (r: Self)
        ensures
            r == (PublishOptions { qos, ..self }),
    {
        PublishOptions { qos, ..self }
    }

    /// Sets the retain flag.
    pub fn retain(self, retain: bool) -> (r: Self)
        ensures
            r == (PublishOptions { retain, ..self }),
    {
        PublishOptions { retain, ..self }
    }

    /// Sets the duplicate flag.
    pub fn dup(self, dup: bool) -> (r: Self)
        ensures
            r == (PublishOptions { dup, ..self }),
    {
        PublishOptions { dup, ..self }
    }

    /// Sets the packet ID.
    pub fn packet_id(self, packet_id: u16) -> (r: Self)
        ensures
            r == (PublishOptions { packet_id: Some(packet_id), ..self }),
    {
        PublishOptions { packet_id: Some(packet_id), ..self }
    }
}

} // verus!
