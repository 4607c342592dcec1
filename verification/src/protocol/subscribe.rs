//! Subscription options.

use vstd::prelude::*;
use crate::types::subscribe::TopicFilter;

verus! {

/// The topic filters and packet ID of a subscription request.
#[derive(Debug, Clone)]
pub struct SubscribeOptions {
    pub topic_filters: Vec<TopicFilter>,
    pub packet_id: u16,
}

impl SubscribeOptions {
    /// Options with the given filters and packet ID.
    pub fn new(topic_filters: Vec<TopicFilter>, packet_id: u16) -> (r: Self)
        ensures
            r.topic_filters == topic_filters,
            r.packet_id == packet_id,
    {
        SubscribeOptions { topic_filters, packet_id }
    }
}

} // verus!
