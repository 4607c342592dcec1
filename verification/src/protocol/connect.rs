//! Connection options.

use vstd::prelude::*;
use vstd::slice::slice_to_vec;
use std::time::Duration;
use crate::buffer::bytes_from_vec;
use crate::string_map::insert_entry;
use crate::time::{secs_duration, duration_from_secs};
use crate::types::properties::{ConnectProperties, ConnectPropertiesView, lemma_text_pairs_insert};
use super::qos::QoS;

verus! {

/// Options for connecting to a broker.
#[derive(Debug, Clone)]
pub struct ConnectOptions {
    pub client_id: String,
    pub clean_session: bool,
    pub keep_alive: Duration,
    pub username: Option<String>,
    pub password: Option<String>,
    pub will_topic: Option<String>,
    pub will_message: Option<Vec<u8>>,
    pub will_qos: QoS,
    pub will_retain: bool,
    pub protocol_version: u8,
    pub properties: Option<ConnectProperties>,
}

/// The properties of the options, or none set when there are none.
pub open spec fn current_connect_props(o: Option<ConnectProperties>) -> ConnectPropertiesView {
    match o {
        Some(p) => p@,
        None => ConnectPropertiesView::empty(),
    }
}

/// Takes the properties out, leaving `None`; empty properties when there
/// were none.
fn take_props(o: &mut Option<ConnectProperties>) -> (r: ConnectProperties)
    ensures
        r@ == current_connect_props(*old(o)),
        *old(o) matches Some(p) ==> r == p,
        *final(o) is None,
{
    let mut cur: Option<ConnectProperties> = None;
    std::mem::swap(&mut cur, o);
    match cur {
        Some(p) => p,
        None => ConnectProperties::default(),
    }
}

impl ConnectOptions {
    /// Options for `client_id`: clean session, 60-second keep-alive, no
    /// credentials, no will, MQTT 3.1.1, no properties.
    pub fn new(client_id: &str) -> (r: Self)
        ensures
            r.client_id@ == client_id@,
            r.clean_session,
            r.keep_alive == secs_duration(60),
            r.username is None,
            r.password is None,
            r.will_topic is None,
            r.will_message is None,
            r.will_qos == QoS::AtMostOnce,
            !r.will_retain,
            r.protocol_version == 4,
            r.properties is None,
    {
        ConnectOptions {
            client_id: client_id.to_owned(),
            clean_session: true,
            keep_alive: duration_from_secs(60),
            username: None,
            password: None,
            will_topic: None,
            will_message: None,
            will_qos: QoS::AtMostOnce,
            will_retain: false,
            protocol_version: 4,
            properties: None,
        }
    }

    /// Sets the clean-session flag.
    pub fn clean_session(self, clean: bool) -> (r: Self)
        ensures
            r == (ConnectOptions { clean_session: clean, ..self }),
    {
        ConnectOptions { clean_session: clean, ..self }
    }

    /// Sets the keep-alive.
    pub fn keep_alive(self, duration: Duration) -> (r: Self)
        ensures
            r == (ConnectOptions { keep_alive: duration, ..self }),
    {
        ConnectOptions { keep_alive: duration, ..self }
    }

    /// Sets the username.
    pub fn username(self, username: &str) -> (r: Self)
        ensures
            r == (ConnectOptions { username: r.username, ..self }),
            r.username matches Some(u) && u@ == username@,
    {
        ConnectOptions { username: Some(username.to_owned()), ..self }
    }

    /// Sets the password.
    pub fn password(self, password: &str) -> (r: Self)
        ensures
            r == (ConnectOptions { password: r.password, ..self }),
            r.password matches Some(p) && p@ == password@,
    {
        ConnectOptions { password: Some(password.to_owned()), ..self }
    }

    /// Sets the will: topic, message, QoS and retain flag.
    pub fn will(self, topic: &str, message: &[u8], qos: QoS, retain: bool) -> (r: Self)
        ensures
            r == (ConnectOptions {
                will_topic: r.will_topic,
                will_message: r.will_message,
                will_qos: qos,
                will_retain: retain,
                ..self
            }),
            r.will_topic matches Some(t) && t@ == topic@,
            r.will_message matches Some(m) && m@ == message@,
    {
        ConnectOptions {
            will_topic: Some(topic.to_owned()),
            will_message: Some(slice_to_vec(message)),
            will_qos: qos,
            will_retain: retain,
            ..self
        }
    }

    /// Sets the protocol version.
    pub fn protocol_version(self, version: u8) -> (r: Self)
        ensures
            r == (ConnectOptions { protocol_version: version, ..self }),
    {
        ConnectOptions { protocol_version: version, ..self }
    }

    /// Sets the session expiry interval property under MQTT 5.0, creating
    /// the properties if there are none; does nothing for other versions.
    pub fn session_expiry_interval(self, interval: u32) -> (r: Self)
        ensures
            self.protocol_version == 5 ==> r == (ConnectOptions { properties: r.properties, ..self })
                && (r.properties matches Some(p) && p@ == (ConnectPropertiesView {
                    session_expiry_interval: Some(interval),
                    ..current_connect_props(self.properties)
                })),
            self.protocol_version != 5 ==> r == self,
    {
        let mut s = self;
        if s.protocol_version == 5 {
            let mut props = take_props(&mut s.properties);
            props.session_expiry_interval = Some(interval);
            s.properties = Some(props);
        }
        s
    }

    /// Sets the receive maximum property under MQTT 5.0, creating
    /// the properties if there are none; does nothing for other versions.
    pub fn receive_maximum(self, max: u16) -> (r: Self)
        ensures
            self.protocol_version == 5 ==> r == (ConnectOptions { properties: r.properties, ..self })
                && (r.properties matches Some(p) && p@ == (ConnectPropertiesView {
                    receive_maximum: Some(max),
                    ..current_connect_props(self.properties)
                })),
            self.protocol_version != 5 ==> r == self,
    {
        let mut s = self;
        if s.protocol_version == 5 {
            let mut props = take_props(&mut s.properties);
            props.receive_maximum = Some(max);
            s.properties = Some(props);
        }
        s
    }

    /// Sets the max packet size property under MQTT 5.0, creating
    /// the properties if there are none; does nothing for other versions.
    pub fn max_packet_size(self, size: u32) -> (r: Self)
        ensures
            self.protocol_version == 5 ==> r == (ConnectOptions { properties: r.properties, ..self })
                && (r.properties matches Some(p) && p@ == (ConnectPropertiesView {
                    max_packet_size: Some(size),
                    ..current_connect_props(self.properties)
                })),
            self.protocol_version != 5 ==> r == self,
    {
        let mut s = self;
        if s.protocol_version == 5 {
            let mut props = take_props(&mut s.properties);
            props.max_packet_size = Some(size);
            s.properties = Some(props);
        }
        s
    }

    /// Sets the topic alias maximum property under MQTT 5.0, creating
    /// the properties if there are none; does nothing for other versions.
    pub fn topic_alias_maximum(self, max: u16) -> (r: Self)
        ensures
            self.protocol_version == 5 ==> r == (ConnectOptions { properties: r.properties, ..self })
                && (r.properties matches Some(p) && p@ == (ConnectPropertiesView {
                    topic_alias_maximum: Some(max),
                    ..current_connect_props(self.properties)
                })),
            self.protocol_version != 5 ==> r == self,
    {
        let mut s = self;
        if s.protocol_version == 5 {
            let mut props = take_props(&mut s.properties);
            props.topic_alias_maximum = Some(max);
            s.properties = Some(props);
        }
        s
    }

    /// Sets the request response information property under MQTT 5.0, creating
    /// the properties if there are none; does nothing for other versions.
    pub fn request_response_information(self, request: bool) -> (r: Self)
        ensures
            self.protocol_version == 5 ==> r == (ConnectOptions { properties: r.properties, ..self })
                && (r.properties matches Some(p) && p@ == (ConnectPropertiesView {
                    request_response_information: Some(request),
                    ..current_connect_props(self.properties)
                })),
            self.protocol_version != 5 ==> r == self,
    {
        let mut s = self;
        if s.protocol_version == 5 {
            let mut props = take_props(&mut s.properties);
            props.request_response_information = Some(request);
            s.properties = Some(props);
        }
        s
    }

    /// Sets the request problem information property under MQTT 5.0, creating
    /// the properties if there are none; does nothing for other versions.
    pub fn request_problem_information(self, request: bool) -> (r: Self)
        ensures
            self.protocol_version == 5 ==> r == (ConnectOptions { properties: r.properties, ..self })
                && (r.properties matches Some(p) && p@ == (ConnectPropertiesView {
                    request_problem_information: Some(request),
                    ..current_connect_props(self.properties)
                })),
            self.protocol_version != 5 ==> r == self,
    {
        let mut s = self;
        if s.protocol_version == 5 {
            let mut props = take_props(&mut s.properties);
            props.request_problem_information = Some(request);
            s.properties = Some(props);
        }
        s
    }

    /// Sets the authentication method property under MQTT 5.0, creating
    /// the properties if there are none; does nothing for other versions.
    pub fn authentication_method(self, method: &str) -> (r: Self)
        ensures
            self.protocol_version == 5 ==> r == (ConnectOptions { properties: r.properties, ..self })
                && (r.properties matches Some(p) && p@ == (ConnectPropertiesView {
                    authentication_method: Some(method@),
                    ..current_connect_props(self.properties)
                })),
            self.protocol_version != 5 ==> r == self,
    {
        let mut s = self;
        if s.protocol_version == 5 {
            let mut props = take_props(&mut s.properties);
            props.authentication_method = Some(method.to_owned());
            s.properties = Some(props);
        }
        s
    }

    /// Sets the authentication data property under MQTT 5.0, creating
    /// the properties if there are none; does nothing for other versions.
    pub fn authentication_data(self, data: &[u8]) -> (r: Self)
        ensures
            self.protocol_version == 5 ==> r == (ConnectOptions { properties: r.properties, ..self })
                && (r.properties matches Some(p) && p@ == (ConnectPropertiesView {
                    authentication_data: Some(data@),
                    ..current_connect_props(self.properties)
                })),
            self.protocol_version != 5 ==> r == self,
    {
        let mut s = self;
        if s.protocol_version == 5 {
            let mut props = take_props(&mut s.properties);
            props.authentication_data = Some(bytes_from_vec(slice_to_vec(data)));
            s.properties = Some(props);
        }
        s
    }

    /// Adds a user property under MQTT 5.0 (replacing the value of an
    /// existing key), creating the properties if there are none; does nothing
    /// for other versions.
    pub fn user_property(self, key: &str, value: &str) -> (r: Self)
        ensures
            self.protocol_version == 5 ==> r == (ConnectOptions { properties: r.properties, ..self })
                && (r.properties matches Some(p) && p@ == (ConnectPropertiesView {
                    user_properties: insert_entry(
                        current_connect_props(self.properties).user_properties,
                        key@,
                        value@,
                    ),
                    ..current_connect_props(self.properties)
                })),
            self.protocol_version != 5 ==> r == self,
    {
        let mut s = self;
        if s.protocol_version == 5 {
            let mut props = take_props(&mut s.properties);
            props.user_properties.check_unique();
            let v = value.to_owned();
            proof {
                lemma_text_pairs_insert(props.user_properties.view(), key@, v);
            }
            props.user_properties.insert(key.to_owned(), v);
            s.properties = Some(props);
        }
        s
    }
}

} // verus!
