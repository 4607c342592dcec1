//! MQTT 5.0 property structures.

use vstd::prelude::*;
use bytes::Bytes;
use crate::buffer::bytes_contents;
use crate::string_map::{StringMap, keys_unique, has_key, key_index, insert_entry, lookup, lemma_key_index_unique};
use super::constants::{PAYLOAD_FORMAT_INDICATOR_UNSPECIFIED, PAYLOAD_FORMAT_INDICATOR_UTF8};

verus! {

/// An optional string taken as its characters.
pub open spec fn opt_chars(o: Option<String>) -> Option<Seq<char>> {
    match o {
        Some(s) => Some(s@),
        None => None,
    }
}

/// Optional bytes taken as their contents.
pub open spec fn opt_bytes(o: Option<Bytes>) -> Option<Seq<u8>> {
    match o {
        Some(b) => Some(bytes_contents(b)),
        None => None,
    }
}

/// String-to-string entries taken as character sequences.
pub open spec fn text_pairs(s: Seq<(Seq<char>, String)>) -> Seq<(Seq<char>, Seq<char>)> {
    s.map_values(|e: (Seq<char>, String)| (e.0, e.1@))
}

/// Inserting into a map and then reading its values as text is reading them
/// as text and then inserting the text.
pub proof fn lemma_text_pairs_insert(s: Seq<(Seq<char>, String)>, k: Seq<char>, v: String)
    requires
        keys_unique(s),
    ensures
        keys_unique(text_pairs(s)),
        text_pairs(insert_entry(s, k, v)) == insert_entry(text_pairs(s), k, v@),
{
    let t = text_pairs(s);
    assert(forall|i: int| 0 <= i < s.len() ==> #[trigger] t[i].0 == s[i].0);
    if has_key(s, k) {
        let i = key_index(s, k);
        lemma_key_index_unique(s, i);
        assert(t[i].0 == k);
        lemma_key_index_unique(t, i);
        assert(text_pairs(insert_entry(s, k, v)) =~= insert_entry(t, k, v@));
    } else {
        assert(!has_key(t, k)) by {
            if has_key(t, k) {
                let j = key_index(t, k);
                assert(s[j].0 == k);
            }
        }
        assert(text_pairs(insert_entry(s, k, v)) =~= insert_entry(t, k, v@));
    }
}

/// Looking a key up among values read as text is reading the value found as
/// text.
pub proof fn lemma_text_pairs_lookup(s: Seq<(Seq<char>, String)>, k: Seq<char>)
    requires
        keys_unique(s),
    ensures
        lookup(text_pairs(s), k) == match lookup(s, k) {
            Some(v) => Some(v@),
            None => None::<Seq<char>>,
        },
{
    let t = text_pairs(s);
    assert(forall|i: int| 0 <= i < s.len() ==> #[trigger] t[i].0 == s[i].0);
    assert(keys_unique(t)) by {
        assert forall|a: int, b: int| 0 <= a < b < t.len() implies t[a].0 != t[b].0 by {
            assert(t[a].0 == s[a].0);
            assert(t[b].0 == s[b].0);
        }
    }
    if has_key(s, k) {
        let i = key_index(s, k);
        lemma_key_index_unique(s, i);
        assert(t[i].0 == k);
        lemma_key_index_unique(t, i);
    } else {
        assert(!has_key(t, k)) by {
            if has_key(t, k) {
                let j = key_index(t, k);
                assert(s[j].0 == k);
            }
        }
    }
}

/// The user properties of a map, as character sequences in entry order.
pub open spec fn user_pairs(m: StringMap<String>) -> Seq<(Seq<char>, Seq<char>)> {
    text_pairs(m.view())
}

/// Connect properties for MQTT 5.0.
#[derive(Debug, Clone)]
pub struct ConnectProperties {
    pub session_expiry_interval: Option<u32>,
    pub receive_maximum: Option<u16>,
    pub max_packet_size: Option<u32>,
    pub topic_alias_maximum: Option<u16>,
    pub request_response_information: Option<bool>,
    pub request_problem_information: Option<bool>,
    pub user_properties: StringMap<String>,
    pub authentication_method: Option<String>,
    pub authentication_data: Option<Bytes>,
}

/// Abstract value of `ConnectProperties`.
pub struct ConnectPropertiesView {
    pub session_expiry_interval: Option<u32>,
    pub receive_maximum: Option<u16>,
    pub max_packet_size: Option<u32>,
    pub topic_alias_maximum: Option<u16>,
    pub request_response_information: Option<bool>,
    pub request_problem_information: Option<bool>,
    pub user_properties: Seq<(Seq<char>, Seq<char>)>,
    pub authentication_method: Option<Seq<char>>,
    pub authentication_data: Option<Seq<u8>>,
}

impl ConnectPropertiesView {
    /// No property set.
    pub open spec fn empty() -> Self {
        ConnectPropertiesView {
            session_expiry_interval: None,
            receive_maximum: None,
            max_packet_size: None,
            topic_alias_maximum: None,
            request_response_information: None,
            request_problem_information: None,
            user_properties: Seq::empty(),
            authentication_method: None,
            authentication_data: None,
        }
    }
}

impl View for ConnectProperties {
    type V = ConnectPropertiesView;

    open spec fn view(&self) -> ConnectPropertiesView {
        ConnectPropertiesView {
            session_expiry_interval: self.session_expiry_interval,
            receive_maximum: self.receive_maximum,
            max_packet_size: self.max_packet_size,
            topic_alias_maximum: self.topic_alias_maximum,
            request_response_information: self.request_response_information,
            request_problem_information: self.request_problem_information,
            user_properties: user_pairs(self.user_properties),
            authentication_method: opt_chars(self.authentication_method),
            authentication_data: opt_bytes(self.authentication_data),
        }
    }
}

impl ConnectProperties {
    /// Connect properties with nothing set.
    pub fn new() -> (r: Self)
        ensures
            r@ == ConnectPropertiesView::empty(),
    {
        let r = ConnectProperties {
            session_expiry_interval: None,
            receive_maximum: None,
            max_packet_size: None,
            topic_alias_maximum: None,
            request_response_information: None,
            request_problem_information: None,
            user_properties: StringMap::new(),
            authentication_method: None,
            authentication_data: None,
        };
        assert(r@.user_properties =~= Seq::empty());
        r
    }
}

impl Default for ConnectProperties {
    fn default() -> (r: Self)
        ensures
            r@ == ConnectPropertiesView::empty(),
    {
        ConnectProperties::new()
    }
}

/// ConnAck properties for MQTT 5.0.
#[derive(Debug, Clone)]
pub struct ConnAckProperties {
    pub session_expiry_interval: Option<u32>,
    pub receive_maximum: Option<u16>,
    pub max_qos: Option<u8>,
    pub retain_available: Option<bool>,
    pub max_packet_size: Option<u32>,
    pub assigned_client_identifier: Option<String>,
    pub topic_alias_maximum: Option<u16>,
    pub reason_string: Option<String>,
    pub user_properties: StringMap<String>,
    pub wildcard_subscription_available: Option<bool>,
    pub subscription_identifiers_available: Option<bool>,
    pub shared_subscription_available: Option<bool>,
    pub server_keep_alive: Option<u16>,
    pub response_information: Option<String>,
    pub server_reference: Option<String>,
    pub authentication_method: Option<String>,
    pub authentication_data: Option<Bytes>,
}

/// Abstract value of `ConnAckProperties`.
pub struct ConnAckPropertiesView {
    pub session_expiry_interval: Option<u32>,
    pub receive_maximum: Option<u16>,
    pub max_qos: Option<u8>,
    pub retain_available: Option<bool>,
    pub max_packet_size: Option<u32>,
    pub assigned_client_identifier: Option<Seq<char>>,
    pub topic_alias_maximum: Option<u16>,
    pub reason_string: Option<Seq<char>>,
    pub user_properties: Seq<(Seq<char>, Seq<char>)>,
    pub wildcard_subscription_available: Option<bool>,
    pub subscription_identifiers_available: Option<bool>,
    pub shared_subscription_available: Option<bool>,
    pub server_keep_alive: Option<u16>,
    pub response_information: Option<Seq<char>>,
    pub server_reference: Option<Seq<char>>,
    pub authentication_method: Option<Seq<char>>,
    pub authentication_data: Option<Seq<u8>>,
}

impl ConnAckPropertiesView {
    /// No property set.
    pub open spec fn empty() -> Self {
        ConnAckPropertiesView {
            session_expiry_interval: None,
            receive_maximum: None,
            max_qos: None,
            retain_available: None,
            max_packet_size: None,
            assigned_client_identifier: None,
            topic_alias_maximum: None,
            reason_string: None,
            user_properties: Seq::empty(),
            wildcard_subscription_available: None,
            subscription_identifiers_available: None,
            shared_subscription_available: None,
            server_keep_alive: None,
            response_information: None,
            server_reference: None,
            authentication_method: None,
            authentication_data: None,
        }
    }

    /// No property is set.
    pub open spec fn is_empty(self) -> bool {
        self == Self::empty()
    }
}

impl View for ConnAckProperties {
    type V = ConnAckPropertiesView;

    open spec fn view(&self) -> ConnAckPropertiesView {
        ConnAckPropertiesView {
            session_expiry_interval: self.session_expiry_interval,
            receive_maximum: self.receive_maximum,
            max_qos: self.max_qos,
            retain_available: self.retain_available,
            max_packet_size: self.max_packet_size,
            assigned_client_identifier: opt_chars(self.assigned_client_identifier),
            topic_alias_maximum: self.topic_alias_maximum,
            reason_string: opt_chars(self.reason_string),
            user_properties: user_pairs(self.user_properties),
            wildcard_subscription_available: self.wildcard_subscription_available,
            subscription_identifiers_available: self.subscription_identifiers_available,
            shared_subscription_available: self.shared_subscription_available,
            server_keep_alive: self.server_keep_alive,
            response_information: opt_chars(self.response_information),
            server_reference: opt_chars(self.server_reference),
            authentication_method: opt_chars(self.authentication_method),
            authentication_data: opt_bytes(self.authentication_data),
        }
    }
}

impl Default for ConnAckProperties {
    fn default() -> (r: Self)
        ensures
            r@ == ConnAckPropertiesView::empty(),
    {
        let r = ConnAckProperties {
            session_expiry_interval: None,
            receive_maximum: None,
            max_qos: None,
            retain_available: None,
            max_packet_size: None,
            assigned_client_identifier: None,
            topic_alias_maximum: None,
            reason_string: None,
            user_properties: StringMap::new(),
            wildcard_subscription_available: None,
            subscription_identifiers_available: None,
            shared_subscription_available: None,
            server_keep_alive: None,
            response_information: None,
            server_reference: None,
            authentication_method: None,
            authentication_data: None,
        };
        assert(r@.user_properties =~= Seq::empty());
        r
    }
}

impl ConnAckProperties {
    /// ConnAck properties with nothing set.
    pub fn new() -> (r: Self)
        ensures
            r@ == ConnAckPropertiesView::empty(),
    {
        Self::default()
    }

    /// Sets the session expiry interval.
    pub fn session_expiry_interval(self, interval: u32) -> (r: Self)
        ensures
            r@ == (ConnAckPropertiesView { session_expiry_interval: Some(interval), ..self@ }),
    {
        let mut s = self;
        s.session_expiry_interval = Some(interval);
        s
    }

    /// Sets the receive maximum.
    pub fn receive_maximum(self, max: u16) -> (r: Self)
        ensures
            r@ == (ConnAckPropertiesView { receive_maximum: Some(max), ..self@ }),
    {
        let mut s = self;
        s.receive_maximum = Some(max);
        s
    }

    /// Sets the maximum QoS.
    pub fn max_qos(self, qos: u8) -> (r: Self)
        ensures
            r@ == (ConnAckPropertiesView { max_qos: Some(qos), ..self@ }),
    {
        let mut s = self;
        s.max_qos = Some(qos);
        s
    }

    /// Sets whether retain is available.
    pub fn retain_available(self, available: bool) -> (r: Self)
        ensures
            r@ == (ConnAckPropertiesView { retain_available: Some(available), ..self@ }),
    {
        let mut s = self;
        s.retain_available = Some(available);
        s
    }

    /// Sets the maximum packet size.
    pub fn max_packet_size(self, size: u32) -> (r: Self)
        ensures
            r@ == (ConnAckPropertiesView { max_packet_size: Some(size), ..self@ }),
    {
        let mut s = self;
        s.max_packet_size = Some(size);
        s
    }

    /// Sets the assigned client identifier.
    pub fn assigned_client_identifier(self, id: String) -> (r: Self)
        ensures
            r@ == (ConnAckPropertiesView { assigned_client_identifier: Some(id@), ..self@ }),
    {
        let mut s = self;
        s.assigned_client_identifier = Some(id);
        s
    }

    /// Sets the topic alias maximum.
    pub fn topic_alias_maximum(self, max: u16) -> (r: Self)
        ensures
            r@ == (ConnAckPropertiesView { topic_alias_maximum: Some(max), ..self@ }),
    {
        let mut s = self;
        s.topic_alias_maximum = Some(max);
        s
    }

    /// Sets the reason string.
    pub fn reason_string(self, reason: String) -> (r: Self)
        ensures
            r@ == (ConnAckPropertiesView { reason_string: Some(reason@), ..self@ }),
    {
        let mut s = self;
        s.reason_string = Some(reason);
        s
    }

    /// Adds a user property (replacing the value of an existing key).
    pub fn user_property(self, key: String, value: String) -> (r: Self)
        ensures
            r@ == (ConnAckPropertiesView {
                user_properties: text_pairs(
                    crate::string_map::insert_entry(self.user_properties.view(), key@, value),
                ),
                ..self@
            }),
    {
        let mut s = self;
        s.user_properties.insert(key, value);
        s
    }

    /// Sets whether wildcard subscriptions are available.
    pub fn wildcard_subscription_available(self, available: bool) -> (r: Self)
        ensures
            r@ == (ConnAckPropertiesView { wildcard_subscription_available: Some(available), ..self@ }),
    {
        let mut s = self;
        s.wildcard_subscription_available = Some(available);
        s
    }

    /// Sets whether subscription identifiers are available.
    pub fn subscription_identifiers_available(self, available: bool) -> (r: Self)
        ensures
            r@ == (ConnAckPropertiesView { subscription_identifiers_available: Some(available), ..self@ }),
    {
        let mut s = self;
        s.subscription_identifiers_available = Some(available);
        s
    }

    /// Sets whether shared subscriptions are available.
    pub fn shared_subscription_available(self, available: bool) -> (r: Self)
        ensures
            r@ == (ConnAckPropertiesView { shared_subscription_available: Some(available), ..self@ }),
    {
        let mut s = self;
        s.shared_subscription_available = Some(available);
        s
    }

    /// Sets the server keep alive.
    pub fn server_keep_alive(self, keep_alive: u16) -> (r: Self)
        ensures
            r@ == (ConnAckPropertiesView { server_keep_alive: Some(keep_alive), ..self@ }),
    {
        let mut s = self;
        s.server_keep_alive = Some(keep_alive);
        s
    }

    /// Sets the response information.
    pub fn response_information(self, info: String) -> (r: Self)
        ensures
            r@ == (ConnAckPropertiesView { response_information: Some(info@), ..self@ }),
    {
        let mut s = self;
        s.response_information = Some(info);
        s
    }

    /// Sets the server reference.
    pub fn server_reference(self, reference: String) -> (r: Self)
        ensures
            r@ == (ConnAckPropertiesView { server_reference: Some(reference@), ..self@ }),
    {
        let mut s = self;
        s.server_reference = Some(reference);
        s
    }

    /// Sets the authentication method.
    pub fn authentication_method(self, method: String) -> (r: Self)
        ensures
            r@ == (ConnAckPropertiesView { authentication_method: Some(method@), ..self@ }),
    {
        let mut s = self;
        s.authentication_method = Some(method);
        s
    }

    /// Sets the authentication data.
    pub fn authentication_data(self, data: Bytes) -> (r: Self)
        ensures
            r@ == (ConnAckPropertiesView { authentication_data: Some(bytes_contents(data)), ..self@ }),
    {
        let mut s = self;
        s.authentication_data = Some(data);
        s
    }

    /// Whether no property is set.
    pub fn is_empty(&self) -> (r: bool)
        ensures
            r == self@.is_empty(),
    {
        let r = self.session_expiry_interval.is_none() && self.receive_maximum.is_none()
            && self.max_qos.is_none() && self.retain_available.is_none()
            && self.max_packet_size.is_none() && self.assigned_client_identifier.is_none()
            && self.topic_alias_maximum.is_none() && self.reason_string.is_none()
            && self.user_properties.is_empty() && self.wildcard_subscription_available.is_none()
            && self.subscription_identifiers_available.is_none()
            && self.shared_subscription_available.is_none() && self.server_keep_alive.is_none()
            && self.response_information.is_none() && self.server_reference.is_none()
            && self.authentication_method.is_none() && self.authentication_data.is_none();
        proof {
            if r {
                assert(self@.user_properties =~= Seq::empty());
            }
        }
        r
    }
}

/// Publish properties for MQTT 5.0.
#[derive(Debug, Clone)]
pub struct PublishProperties {
    pub payload_format_indicator: Option<u8>,
    pub message_expiry_interval: Option<u32>,
    pub topic_alias: Option<u16>,
    pub response_topic: Option<String>,
    pub correlation_data: Option<Bytes>,
    pub user_properties: StringMap<String>,
    pub subscription_identifier: Option<u32>,
    pub content_type: Option<String>,
}

/// Abstract value of `PublishProperties`.
pub struct PublishPropertiesView {
    pub payload_format_indicator: Option<u8>,
    pub message_expiry_interval: Option<u32>,
    pub topic_alias: Option<u16>,
    pub response_topic: Option<Seq<char>>,
    pub correlation_data: Option<Seq<u8>>,
    pub user_properties: Seq<(Seq<char>, Seq<char>)>,
    pub subscription_identifier: Option<u32>,
    pub content_type: Option<Seq<char>>,
}

impl PublishPropertiesView {
    /// No property set.
    pub open spec fn empty() -> Self {
        PublishPropertiesView {
            payload_format_indicator: None,
            message_expiry_interval: None,
            topic_alias: None,
            response_topic: None,
            correlation_data: None,
            user_properties: Seq::empty(),
            subscription_identifier: None,
            content_type: None,
        }
    }

    /// No property is set.
    pub open spec fn is_empty(self) -> bool {
        self == Self::empty()
    }
}

impl View for PublishProperties {
    type V = PublishPropertiesView;

    open spec fn view(&self) -> PublishPropertiesView {
        PublishPropertiesView {
            payload_format_indicator: self.payload_format_indicator,
            message_expiry_interval: self.message_expiry_interval,
            topic_alias: self.topic_alias,
            response_topic: opt_chars(self.response_topic),
            correlation_data: opt_bytes(self.correlation_data),
            user_properties: user_pairs(self.user_properties),
            subscription_identifier: self.subscription_identifier,
            content_type: opt_chars(self.content_type),
        }
    }
}

impl Default for PublishProperties {
    fn default() -> (r: Self)
        ensures
            r@ == PublishPropertiesView::empty(),
    {
        let r = PublishProperties {
            payload_format_indicator: None,
            message_expiry_interval: None,
            topic_alias: None,
            response_topic: None,
            correlation_data: None,
            user_properties: StringMap::new(),
            subscription_identifier: None,
            content_type: None,
        };
        assert(r@.user_properties =~= Seq::empty());
        r
    }
}

impl PublishProperties {
    /// Publish properties with nothing set.
    pub fn new() -> (r: Self)
        ensures
            r@ == PublishPropertiesView::empty(),
    {
        Self::default()
    }

    /// Sets the payload format indicator.
    pub fn payload_format_indicator(self, indicator: u8) -> (r: Self)
        ensures
            r@ == (PublishPropertiesView { payload_format_indicator: Some(indicator), ..self@ }),
    {
        let mut s = self;
        s.payload_format_indicator = Some(indicator);
        s
    }

    /// Sets the message expiry interval in seconds.
    pub fn message_expiry_interval(self, interval: u32) -> (r: Self)
        ensures
            r@ == (PublishPropertiesView { message_expiry_interval: Some(interval), ..self@ }),
    {
        let mut s = self;
        s.message_expiry_interval = Some(interval);
        s
    }

    /// Sets the topic alias.
    pub fn topic_alias(self, alias: u16) -> (r: Self)
        ensures
            r@ == (PublishPropertiesView { topic_alias: Some(alias), ..self@ }),
    {
        let mut s = self;
        s.topic_alias = Some(alias);
        s
    }

    /// Sets the response topic.
    pub fn response_topic(self, topic: String) -> (r: Self)
        ensures
            r@ == (PublishPropertiesView { response_topic: Some(topic@), ..self@ }),
    {
        let mut s = self;
        s.response_topic = Some(topic);
        s
    }

    /// Sets the correlation data.
    pub fn correlation_data(self, data: Bytes) -> (r: Self)
        ensures
            r@ == (PublishPropertiesView { correlation_data: Some(bytes_contents(data)), ..self@ }),
    {
        let mut s = self;
        s.correlation_data = Some(data);
        s
    }

    /// Sets the subscription identifier.
    pub fn subscription_identifier(self, id: u32) -> (r: Self)
        ensures
            r@ == (PublishPropertiesView { subscription_identifier: Some(id), ..self@ }),
    {
        let mut s = self;
        s.subscription_identifier = Some(id);
        s
    }

    /// Sets the content type.
    pub fn content_type(self, content_type: String) -> (r: Self)
        ensures
            r@ == (PublishPropertiesView { content_type: Some(content_type@), ..self@ }),
    {
        let mut s = self;
        s.content_type = Some(content_type);
        s
    }

    /// Adds a user property (replacing the value of an existing key).
    pub fn user_property(self, key: String, value: String) -> (r: Self)
        ensures
            r@ == (PublishPropertiesView {
                user_properties: text_pairs(
                    crate::string_map::insert_entry(self.user_properties.view(), key@, value),
                ),
                ..self@
            }),
    {
        let mut s = self;
        s.user_properties.insert(key, value);
        s
    }

    /// Whether no property is set.
    pub fn is_empty(&self) -> (r: bool)
        ensures
            r == self@.is_empty(),
    {
        let r = self.payload_format_indicator.is_none() && self.message_expiry_interval.is_none()
            && self.topic_alias.is_none() && self.response_topic.is_none()
            && self.correlation_data.is_none() && self.user_properties.is_empty()
            && self.subscription_identifier.is_none() && self.content_type.is_none();
        proof {
            if r {
                assert(self@.user_properties =~= Seq::empty());
            }
        }
        r
    }

    /// The payload format indicator as text: "Unspecified" for 0, "UTF-8"
    /// for 1, nothing otherwise.
    pub fn payload_format_indicator_str(&self) -> (r: Option<&'static str>)
        ensures
            self.payload_format_indicator == Some(PAYLOAD_FORMAT_INDICATOR_UNSPECIFIED)
                ==> (r matches Some(t) && t@ == "Unspecified"@),
            self.payload_format_indicator == Some(PAYLOAD_FORMAT_INDICATOR_UTF8)
                ==> (r matches Some(t) && t@ == "UTF-8"@),
            self.payload_format_indicator != Some(PAYLOAD_FORMAT_INDICATOR_UNSPECIFIED)
                && self.payload_format_indicator != Some(PAYLOAD_FORMAT_INDICATOR_UTF8)
                ==> r is None,
    {
        match self.payload_format_indicator {
            Some(v) => {
                if v == PAYLOAD_FORMAT_INDICATOR_UNSPECIFIED {
                    Some("Unspecified")
                } else if v == PAYLOAD_FORMAT_INDICATOR_UTF8 {
                    Some("UTF-8")
                } else {
                    None
                }
            },
            None => None,
        }
    }

    /// Whether the payload is declared UTF-8.
    pub fn is_utf8_payload(&self) -> (r: bool)
        ensures
            r == (self.payload_format_indicator == Some(PAYLOAD_FORMAT_INDICATOR_UTF8)),
    {
        match self.payload_format_indicator {
            Some(v) => v == PAYLOAD_FORMAT_INDICATOR_UTF8,
            None => false,
        }
    }

    /// Whether the payload format is declared unspecified.
    pub fn is_unspecified_payload(&self) -> (r: bool)
        ensures
            r == (self.payload_format_indicator == Some(PAYLOAD_FORMAT_INDICATOR_UNSPECIFIED)),
    {
        match self.payload_format_indicator {
            Some(v) => v == PAYLOAD_FORMAT_INDICATOR_UNSPECIFIED,
            None => false,
        }
    }
}

/// Reason string and user properties (PUBACK).
#[derive(Debug, Clone)]
pub struct PubAckProperties {
    pub reason_string: Option<String>,
    pub user_properties: StringMap<String>,
}

/// Reason string and user properties (PUBREC).
#[derive(Debug, Clone)]
pub struct PubRecProperties {
    pub reason_string: Option<String>,
    pub user_properties: StringMap<String>,
}

/// Reason string and user properties (PUBREL).
#[derive(Debug, Clone)]
pub struct PubRelProperties {
    pub reason_string: Option<String>,
    pub user_properties: StringMap<String>,
}

/// Reason string and user properties (PUBCOMP).
#[derive(Debug, Clone)]
pub struct PubCompProperties {
    pub reason_string: Option<String>,
    pub user_properties: StringMap<String>,
}

/// Subscription identifier and user properties (SUBSCRIBE).
#[derive(Debug, Clone)]
pub struct SubscribeProperties {
    pub subscription_identifier: Option<u32>,
    pub user_properties: StringMap<String>,
}

/// Reason string and user properties (SUBACK).
#[derive(Debug, Clone)]
pub struct SubAckProperties {
    pub reason_string: Option<String>,
    pub user_properties: StringMap<String>,
}

/// User properties (UNSUBSCRIBE).
#[derive(Debug, Clone)]
pub struct UnsubscribeProperties {
    pub user_properties: StringMap<String>,
}

/// Reason string and user properties (UNSUBACK).
#[derive(Debug, Clone)]
pub struct UnsubAckProperties {
    pub reason_string: Option<String>,
    pub user_properties: StringMap<String>,
}

/// DISCONNECT properties.
#[derive(Debug, Clone)]
pub struct DisconnectProperties {
    pub session_expiry_interval: Option<u32>,
    pub reason_string: Option<String>,
    pub user_properties: StringMap<String>,
    pub server_reference: Option<String>,
}

/// AUTH properties.
#[derive(Debug, Clone)]
pub struct AuthProperties {
    pub authentication_method: Option<String>,
    pub authentication_data: Option<Bytes>,
    pub reason_string: Option<String>,
    pub user_properties: StringMap<String>,
}

} // verus!
