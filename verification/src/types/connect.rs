//! Connection-related packets: CONNECT, CONNACK, DISCONNECT and AUTH.

use vstd::prelude::*;
use bytes::Bytes;
use super::properties::{
    opt_chars, opt_bytes, ConnectProperties, ConnectPropertiesView, ConnAckProperties,
    ConnAckPropertiesView, DisconnectProperties, AuthProperties,
};

verus! {

/// Connect packet.
#[derive(Debug, Clone)]
pub struct ConnectPacket {
    pub protocol_name: String,
    pub protocol_version: u8,
    pub clean_session: bool,
    pub will_flag: bool,
    pub will_qos: u8,
    pub will_retain: bool,
    pub password_flag: bool,
    pub username_flag: bool,
    pub keep_alive: u16,
    pub client_id: String,
    pub will_topic: Option<String>,
    pub will_message: Option<Bytes>,
    pub username: Option<String>,
    pub password: Option<String>,
    pub properties: Option<ConnectProperties>,
}

/// Abstract value of a `ConnectPacket`.
pub struct ConnectPacketView {
    pub protocol_name: Seq<char>,
    pub protocol_version: u8,
    pub clean_session: bool,
    pub will_flag: bool,
    pub will_qos: u8,
    pub will_retain: bool,
    pub password_flag: bool,
    pub username_flag: bool,
    pub keep_alive: u16,
    pub client_id: Seq<char>,
    pub will_topic: Option<Seq<char>>,
    pub will_message: Option<Seq<u8>>,
    pub username: Option<Seq<char>>,
    pub password: Option<Seq<char>>,
    pub properties: Option<ConnectPropertiesView>,
}

/// The view of optional connect properties.
pub open spec fn opt_connect_props(o: Option<ConnectProperties>) -> Option<ConnectPropertiesView> {
    match o {
        Some(p) => Some(p@),
        None => None,
    }
}

impl View for ConnectPacket {
    type V = ConnectPacketView;

    open spec fn view(&self) -> ConnectPacketView {
        ConnectPacketView {
            protocol_name: self.protocol_name@,
            protocol_version: self.protocol_version,
            clean_session: self.clean_session,
            will_flag: self.will_flag,
            will_qos: self.will_qos,
            will_retain: self.will_retain,
            password_flag: self.password_flag,
            username_flag: self.username_flag,
            keep_alive: self.keep_alive,
            client_id: self.client_id@,
            will_topic: opt_chars(self.will_topic),
            will_message: opt_bytes(self.will_message),
            username: opt_chars(self.username),
            password: opt_chars(self.password),
            properties: opt_connect_props(self.properties),
        }
    }
}

/// Connect return codes (MQTT 3.1.1 and the MQTT 5.0 additions).
#[derive(Debug, Clone, Copy, PartialEq, Eq, Structural)]
pub enum ConnectReturnCode {
    Accepted,
    UnacceptableProtocolVersion,
    IdentifierRejected,
    ServerUnavailable,
    BadUsernameOrPassword,
    NotAuthorized,
    MalformedPacket,
    ProtocolError,
    ImplementationSpecificError,
    UnsupportedProtocolVersion,
    ClientIdentifierNotValid,
    BadUsernameOrPasswordV5,
    NotAuthorizedV5,
    ServerUnavailableV5,
    ServerBusy,
    Banned,
    BadAuthenticationMethod,
    TopicNameInvalid,
    PacketTooLarge,
    QuotaExceeded,
    PayloadFormatInvalid,
    RetainNotSupported,
    QoSNotSupported,
    UseAnotherServer,
    ServerMoved,
    ConnectionRateExceeded,
}

/// The byte values that name a connect return code.
pub open spec fn is_connect_return_code(v: u8) -> bool {
    v == 0 || v == 1 || v == 2 || v == 3 || v == 4 || v == 5 || v == 128 || v == 130 || v == 131 || v == 132 || v == 133 || v == 134 || v == 135 || v == 136 || v == 137 || v == 138 || v == 140 || v == 144 || v == 149 || v == 151 || v == 153 || v == 154 || v == 155 || v == 156 || v == 157 || v == 159
}

impl ConnectReturnCode {
    /// The wire value of this code.
    pub open spec fn spec_code(self) -> u8 {
        match self {
            ConnectReturnCode::Accepted => 0,
            ConnectReturnCode::UnacceptableProtocolVersion => 1,
            ConnectReturnCode::IdentifierRejected => 2,
            ConnectReturnCode::ServerUnavailable => 3,
            ConnectReturnCode::BadUsernameOrPassword => 4,
            ConnectReturnCode::NotAuthorized => 5,
            ConnectReturnCode::MalformedPacket => 128,
            ConnectReturnCode::ProtocolError => 130,
            ConnectReturnCode::ImplementationSpecificError => 131,
            ConnectReturnCode::UnsupportedProtocolVersion => 132,
            ConnectReturnCode::ClientIdentifierNotValid => 133,
            ConnectReturnCode::BadUsernameOrPasswordV5 => 134,
            ConnectReturnCode::NotAuthorizedV5 => 135,
            ConnectReturnCode::ServerUnavailableV5 => 136,
            ConnectReturnCode::ServerBusy => 137,
            ConnectReturnCode::Banned => 138,
            ConnectReturnCode::BadAuthenticationMethod => 140,
            ConnectReturnCode::TopicNameInvalid => 144,
            ConnectReturnCode::PacketTooLarge => 149,
            ConnectReturnCode::QuotaExceeded => 151,
            ConnectReturnCode::PayloadFormatInvalid => 153,
            ConnectReturnCode::RetainNotSupported => 154,
            ConnectReturnCode::QoSNotSupported => 155,
            ConnectReturnCode::UseAnotherServer => 156,
            ConnectReturnCode::ServerMoved => 157,
            ConnectReturnCode::ConnectionRateExceeded => 159,
        }
    }

    /// The name of this code, as its variant is written.
    pub open spec fn spec_name(self) -> Seq<char> {
        match self {
            ConnectReturnCode::Accepted => "Accepted"@,
            ConnectReturnCode::UnacceptableProtocolVersion => "UnacceptableProtocolVersion"@,
            ConnectReturnCode::IdentifierRejected => "IdentifierRejected"@,
            ConnectReturnCode::ServerUnavailable => "ServerUnavailable"@,
            ConnectReturnCode::BadUsernameOrPassword => "BadUsernameOrPassword"@,
            ConnectReturnCode::NotAuthorized => "NotAuthorized"@,
            ConnectReturnCode::MalformedPacket => "MalformedPacket"@,
            ConnectReturnCode::ProtocolError => "ProtocolError"@,
            ConnectReturnCode::ImplementationSpecificError => "ImplementationSpecificError"@,
            ConnectReturnCode::UnsupportedProtocolVersion => "UnsupportedProtocolVersion"@,
            ConnectReturnCode::ClientIdentifierNotValid => "ClientIdentifierNotValid"@,
            ConnectReturnCode::BadUsernameOrPasswordV5 => "BadUsernameOrPasswordV5"@,
            ConnectReturnCode::NotAuthorizedV5 => "NotAuthorizedV5"@,
            ConnectReturnCode::ServerUnavailableV5 => "ServerUnavailableV5"@,
            ConnectReturnCode::ServerBusy => "ServerBusy"@,
            ConnectReturnCode::Banned => "Banned"@,
            ConnectReturnCode::BadAuthenticationMethod => "BadAuthenticationMethod"@,
            ConnectReturnCode::TopicNameInvalid => "TopicNameInvalid"@,
            ConnectReturnCode::PacketTooLarge => "PacketTooLarge"@,
            ConnectReturnCode::QuotaExceeded => "QuotaExceeded"@,
            ConnectReturnCode::PayloadFormatInvalid => "PayloadFormatInvalid"@,
            ConnectReturnCode::RetainNotSupported => "RetainNotSupported"@,
            ConnectReturnCode::QoSNotSupported => "QoSNotSupported"@,
            ConnectReturnCode::UseAnotherServer => "UseAnotherServer"@,
            ConnectReturnCode::ServerMoved => "ServerMoved"@,
            ConnectReturnCode::ConnectionRateExceeded => "ConnectionRateExceeded"@,
        }
    }

    /// The name of this code, as its variant is written.
    pub fn name(&self) -> (r: &'static str)
        ensures
            r@ == self.spec_name(),
    {
        match self {
            ConnectReturnCode::Accepted => "Accepted",
            ConnectReturnCode::UnacceptableProtocolVersion => "UnacceptableProtocolVersion",
            ConnectReturnCode::IdentifierRejected => "IdentifierRejected",
            ConnectReturnCode::ServerUnavailable => "ServerUnavailable",
            ConnectReturnCode::BadUsernameOrPassword => "BadUsernameOrPassword",
            ConnectReturnCode::NotAuthorized => "NotAuthorized",
            ConnectReturnCode::MalformedPacket => "MalformedPacket",
            ConnectReturnCode::ProtocolError => "ProtocolError",
            ConnectReturnCode::ImplementationSpecificError => "ImplementationSpecificError",
            ConnectReturnCode::UnsupportedProtocolVersion => "UnsupportedProtocolVersion",
            ConnectReturnCode::ClientIdentifierNotValid => "ClientIdentifierNotValid",
            ConnectReturnCode::BadUsernameOrPasswordV5 => "BadUsernameOrPasswordV5",
            ConnectReturnCode::NotAuthorizedV5 => "NotAuthorizedV5",
            ConnectReturnCode::ServerUnavailableV5 => "ServerUnavailableV5",
            ConnectReturnCode::ServerBusy => "ServerBusy",
            ConnectReturnCode::Banned => "Banned",
            ConnectReturnCode::BadAuthenticationMethod => "BadAuthenticationMethod",
            ConnectReturnCode::TopicNameInvalid => "TopicNameInvalid",
            ConnectReturnCode::PacketTooLarge => "PacketTooLarge",
            ConnectReturnCode::QuotaExceeded => "QuotaExceeded",
            ConnectReturnCode::PayloadFormatInvalid => "PayloadFormatInvalid",
            ConnectReturnCode::RetainNotSupported => "RetainNotSupported",
            ConnectReturnCode::QoSNotSupported => "QoSNotSupported",
            ConnectReturnCode::UseAnotherServer => "UseAnotherServer",
            ConnectReturnCode::ServerMoved => "ServerMoved",
            ConnectReturnCode::ConnectionRateExceeded => "ConnectionRateExceeded",
        }
    }

    /// The wire value of this code.
    pub fn to_u8(&self) -> (r: u8)
        ensures
            r == self.spec_code(),
    {
        match self {
            ConnectReturnCode::Accepted => 0,
            ConnectReturnCode::UnacceptableProtocolVersion => 1,
            ConnectReturnCode::IdentifierRejected => 2,
            ConnectReturnCode::ServerUnavailable => 3,
            ConnectReturnCode::BadUsernameOrPassword => 4,
            ConnectReturnCode::NotAuthorized => 5,
            ConnectReturnCode::MalformedPacket => 128,
            ConnectReturnCode::ProtocolError => 130,
            ConnectReturnCode::ImplementationSpecificError => 131,
            ConnectReturnCode::UnsupportedProtocolVersion => 132,
            ConnectReturnCode::ClientIdentifierNotValid => 133,
            ConnectReturnCode::BadUsernameOrPasswordV5 => 134,
            ConnectReturnCode::NotAuthorizedV5 => 135,
            ConnectReturnCode::ServerUnavailableV5 => 136,
            ConnectReturnCode::ServerBusy => 137,
            ConnectReturnCode::Banned => 138,
            ConnectReturnCode::BadAuthenticationMethod => 140,
            ConnectReturnCode::TopicNameInvalid => 144,
            ConnectReturnCode::PacketTooLarge => 149,
            ConnectReturnCode::QuotaExceeded => 151,
            ConnectReturnCode::PayloadFormatInvalid => 153,
            ConnectReturnCode::RetainNotSupported => 154,
            ConnectReturnCode::QoSNotSupported => 155,
            ConnectReturnCode::UseAnotherServer => 156,
            ConnectReturnCode::ServerMoved => 157,
            ConnectReturnCode::ConnectionRateExceeded => 159,
        }
    }

    /// The code with wire value `value`, if there is one.
    pub open spec fn spec_from_code(value: u8) -> Option<ConnectReturnCode> {
        match value {
            0 => Some(ConnectReturnCode::Accepted),
            1 => Some(ConnectReturnCode::UnacceptableProtocolVersion),
            2 => Some(ConnectReturnCode::IdentifierRejected),
            3 => Some(ConnectReturnCode::ServerUnavailable),
            4 => Some(ConnectReturnCode::BadUsernameOrPassword),
            5 => Some(ConnectReturnCode::NotAuthorized),
            128 => Some(ConnectReturnCode::MalformedPacket),
            130 => Some(ConnectReturnCode::ProtocolError),
            131 => Some(ConnectReturnCode::ImplementationSpecificError),
            132 => Some(ConnectReturnCode::UnsupportedProtocolVersion),
            133 => Some(ConnectReturnCode::ClientIdentifierNotValid),
            134 => Some(ConnectReturnCode::BadUsernameOrPasswordV5),
            135 => Some(ConnectReturnCode::NotAuthorizedV5),
            136 => Some(ConnectReturnCode::ServerUnavailableV5),
            137 => Some(ConnectReturnCode::ServerBusy),
            138 => Some(ConnectReturnCode::Banned),
            140 => Some(ConnectReturnCode::BadAuthenticationMethod),
            144 => Some(ConnectReturnCode::TopicNameInvalid),
            149 => Some(ConnectReturnCode::PacketTooLarge),
            151 => Some(ConnectReturnCode::QuotaExceeded),
            153 => Some(ConnectReturnCode::PayloadFormatInvalid),
            154 => Some(ConnectReturnCode::RetainNotSupported),
            155 => Some(ConnectReturnCode::QoSNotSupported),
            156 => Some(ConnectReturnCode::UseAnotherServer),
            157 => Some(ConnectReturnCode::ServerMoved),
            159 => Some(ConnectReturnCode::ConnectionRateExceeded),
            _ => None,
        }
    }

    /// The code with wire value `value`, if there is one.
    pub fn from_u8(value: u8) -> (r: Option<Self>)
        ensures
            r == Self::spec_from_code(value),
            r is Some <==> is_connect_return_code(value),
            r matches Some(c) ==> c.spec_code() == value,
    {
        match value {
            0 => Some(ConnectReturnCode::Accepted),
            1 => Some(ConnectReturnCode::UnacceptableProtocolVersion),
            2 => Some(ConnectReturnCode::IdentifierRejected),
            3 => Some(ConnectReturnCode::ServerUnavailable),
            4 => Some(ConnectReturnCode::BadUsernameOrPassword),
            5 => Some(ConnectReturnCode::NotAuthorized),
            128 => Some(ConnectReturnCode::MalformedPacket),
            130 => Some(ConnectReturnCode::ProtocolError),
            131 => Some(ConnectReturnCode::ImplementationSpecificError),
            132 => Some(ConnectReturnCode::UnsupportedProtocolVersion),
            133 => Some(ConnectReturnCode::ClientIdentifierNotValid),
            134 => Some(ConnectReturnCode::BadUsernameOrPasswordV5),
            135 => Some(ConnectReturnCode::NotAuthorizedV5),
            136 => Some(ConnectReturnCode::ServerUnavailableV5),
            137 => Some(ConnectReturnCode::ServerBusy),
            138 => Some(ConnectReturnCode::Banned),
            140 => Some(ConnectReturnCode::BadAuthenticationMethod),
            144 => Some(ConnectReturnCode::TopicNameInvalid),
            149 => Some(ConnectReturnCode::PacketTooLarge),
            151 => Some(ConnectReturnCode::QuotaExceeded),
            153 => Some(ConnectReturnCode::PayloadFormatInvalid),
            154 => Some(ConnectReturnCode::RetainNotSupported),
            155 => Some(ConnectReturnCode::QoSNotSupported),
            156 => Some(ConnectReturnCode::UseAnotherServer),
            157 => Some(ConnectReturnCode::ServerMoved),
            159 => Some(ConnectReturnCode::ConnectionRateExceeded),
            _ => None,
        }
    }

    /// The human-readable text of a refusal; `None` for `Accepted`.
    pub open spec fn spec_message(self) -> Option<Seq<char>> {
        match self {
            ConnectReturnCode::Accepted => None,
            ConnectReturnCode::UnacceptableProtocolVersion => Some("Unacceptable protocol version"@),
            ConnectReturnCode::IdentifierRejected => Some("Identifier rejected"@),
            ConnectReturnCode::ServerUnavailable => Some("Server unavailable"@),
            ConnectReturnCode::BadUsernameOrPassword => Some("Bad username or password"@),
            ConnectReturnCode::NotAuthorized => Some("Not authorized"@),
            ConnectReturnCode::MalformedPacket => Some("Malformed packet"@),
            ConnectReturnCode::ProtocolError => Some("Protocol error"@),
            ConnectReturnCode::ImplementationSpecificError => Some("Implementation specific error"@),
            ConnectReturnCode::UnsupportedProtocolVersion => Some("Unsupported protocol version"@),
            ConnectReturnCode::ClientIdentifierNotValid => Some("Client identifier not valid"@),
            ConnectReturnCode::BadUsernameOrPasswordV5 => Some("Bad username or password (MQTT 5.0)"@),
            ConnectReturnCode::NotAuthorizedV5 => Some("Not authorized (MQTT 5.0)"@),
            ConnectReturnCode::ServerUnavailableV5 => Some("Server unavailable (MQTT 5.0)"@),
            ConnectReturnCode::ServerBusy => Some("Server busy"@),
            ConnectReturnCode::Banned => Some("Banned"@),
            ConnectReturnCode::BadAuthenticationMethod => Some("Bad authentication method"@),
            ConnectReturnCode::TopicNameInvalid => Some("Topic name invalid"@),
            ConnectReturnCode::PacketTooLarge => Some("Packet too large"@),
            ConnectReturnCode::QuotaExceeded => Some("Quota exceeded"@),
            ConnectReturnCode::PayloadFormatInvalid => Some("Payload format invalid"@),
            ConnectReturnCode::RetainNotSupported => Some("Retain not supported"@),
            ConnectReturnCode::QoSNotSupported => Some("QoS not supported"@),
            ConnectReturnCode::UseAnotherServer => Some("Use another server"@),
            ConnectReturnCode::ServerMoved => Some("Server moved"@),
            ConnectReturnCode::ConnectionRateExceeded => Some("Connection rate exceeded"@),
        }
    }
}

/// Every code reads back from its wire value.
pub proof fn lemma_connect_return_code_roundtrip(c: ConnectReturnCode)
    ensures
        is_connect_return_code(c.spec_code()),
        ConnectReturnCode::spec_from_code(c.spec_code()) == Some(c),
{
}

/// The MQTT 3.1.1 return codes are sent as 0 (accepted) to 5 (not
/// authorized) in the standard's order, and only `Accepted` is 0.
pub proof fn lemma_connect_return_codes(c: ConnectReturnCode)
    ensures
        ConnectReturnCode::Accepted.spec_code() == 0,
        ConnectReturnCode::UnacceptableProtocolVersion.spec_code() == 1,
        ConnectReturnCode::IdentifierRejected.spec_code() == 2,
        ConnectReturnCode::ServerUnavailable.spec_code() == 3,
        ConnectReturnCode::BadUsernameOrPassword.spec_code() == 4,
        ConnectReturnCode::NotAuthorized.spec_code() == 5,
        c.spec_code() == 0 <==> c == ConnectReturnCode::Accepted,
{
}

/// Connect acknowledgment packet.
#[derive(Debug, Clone)]
pub struct ConnAckPacket {
    pub session_present: bool,
    pub return_code: ConnectReturnCode,
    pub properties: Option<ConnAckProperties>,
}

/// Abstract value of a `ConnAckPacket`.
pub struct ConnAckPacketView {
    pub session_present: bool,
    pub return_code: ConnectReturnCode,
    pub properties: Option<ConnAckPropertiesView>,
}

/// The view of optional connack properties.
pub open spec fn opt_connack_props(o: Option<ConnAckProperties>) -> Option<ConnAckPropertiesView> {
    match o {
        Some(p) => Some(p@),
        None => None,
    }
}

impl View for ConnAckPacket {
    type V = ConnAckPacketView;

    open spec fn view(&self) -> ConnAckPacketView {
        ConnAckPacketView {
            session_present: self.session_present,
            return_code: self.return_code,
            properties: opt_connack_props(self.properties),
        }
    }
}

impl ConnAckPacket {
    /// A CONNACK with the given code, no session present and no properties.
    pub fn new(return_code: ConnectReturnCode) -> (r: Self)
        ensures
            r@ == (ConnAckPacketView { session_present: false, return_code, properties: None }),
    {
        ConnAckPacket { session_present: false, return_code, properties: None }
    }

    /// A CONNACK with the given code and session-present flag.
    pub fn with_session(return_code: ConnectReturnCode, session_present: bool) -> (r: Self)
        ensures
            r@ == (ConnAckPacketView { session_present, return_code, properties: None }),
    {
        ConnAckPacket { session_present, return_code, properties: None }
    }

    /// Sets the session-present flag.
    pub fn session_present(self, present: bool) -> (r: Self)
        ensures
            r@ == (ConnAckPacketView { session_present: present, ..self@ }),
    {
        let mut s = self;
        s.session_present = present;
        s
    }

    /// Sets the return code.
    pub fn return_code(self, code: ConnectReturnCode) -> (r: Self)
        ensures
            r@ == (ConnAckPacketView { return_code: code, ..self@ }),
    {
        let mut s = self;
        s.return_code = code;
        s
    }

    /// Sets the properties.
    pub fn properties(self, properties: ConnAckProperties) -> (r: Self)
        ensures
            r@ == (ConnAckPacketView { properties: Some(properties@), ..self@ }),
    {
        let mut s = self;
        s.properties = Some(properties);
        s
    }

    /// Whether the connection was accepted.
    pub fn is_success(&self) -> (r: bool)
        ensures
            r == (self.return_code == ConnectReturnCode::Accepted),
    {
        match self.return_code {
            ConnectReturnCode::Accepted => true,
            _ => false,
        }
    }

    /// Whether the connection was refused.
    pub fn is_error(&self) -> (r: bool)
        ensures
            r == (self.return_code != ConnectReturnCode::Accepted),
    {
        !self.is_success()
    }

    /// The text of the refusal; `None` when accepted.
    pub fn error_message(&self) -> (r: Option<&'static str>)
        ensures
            r is Some <==> self.return_code.spec_message() is Some,
            r matches Some(t) ==> self.return_code.spec_message() == Some(t@),
    {
        match self.return_code {
            ConnectReturnCode::Accepted => None,
            ConnectReturnCode::UnacceptableProtocolVersion => Some("Unacceptable protocol version"),
            ConnectReturnCode::IdentifierRejected => Some("Identifier rejected"),
            ConnectReturnCode::ServerUnavailable => Some("Server unavailable"),
            ConnectReturnCode::BadUsernameOrPassword => Some("Bad username or password"),
            ConnectReturnCode::NotAuthorized => Some("Not authorized"),
            ConnectReturnCode::MalformedPacket => Some("Malformed packet"),
            ConnectReturnCode::ProtocolError => Some("Protocol error"),
            ConnectReturnCode::ImplementationSpecificError => Some("Implementation specific error"),
            ConnectReturnCode::UnsupportedProtocolVersion => Some("Unsupported protocol version"),
            ConnectReturnCode::ClientIdentifierNotValid => Some("Client identifier not valid"),
            ConnectReturnCode::BadUsernameOrPasswordV5 => Some("Bad username or password (MQTT 5.0)"),
            ConnectReturnCode::NotAuthorizedV5 => Some("Not authorized (MQTT 5.0)"),
            ConnectReturnCode::ServerUnavailableV5 => Some("Server unavailable (MQTT 5.0)"),
            ConnectReturnCode::ServerBusy => Some("Server busy"),
            ConnectReturnCode::Banned => Some("Banned"),
            ConnectReturnCode::BadAuthenticationMethod => Some("Bad authentication method"),
            ConnectReturnCode::TopicNameInvalid => Some("Topic name invalid"),
            ConnectReturnCode::PacketTooLarge => Some("Packet too large"),
            ConnectReturnCode::QuotaExceeded => Some("Quota exceeded"),
            ConnectReturnCode::PayloadFormatInvalid => Some("Payload format invalid"),
            ConnectReturnCode::RetainNotSupported => Some("Retain not supported"),
            ConnectReturnCode::QoSNotSupported => Some("QoS not supported"),
            ConnectReturnCode::UseAnotherServer => Some("Use another server"),
            ConnectReturnCode::ServerMoved => Some("Server moved"),
            ConnectReturnCode::ConnectionRateExceeded => Some("Connection rate exceeded"),
        }
    }
}

/// Disconnect packet.
#[derive(Debug, Clone)]
pub struct DisconnectPacket {
    pub reason_code: Option<u8>,
    pub properties: Option<DisconnectProperties>,
}

/// Abstract value of a `DisconnectPacket`: the reason code and whether
/// properties are attached.
pub struct DisconnectPacketView {
    pub reason_code: Option<u8>,
    pub has_properties: bool,
}

impl View for DisconnectPacket {
    type V = DisconnectPacketView;

    open spec fn view(&self) -> DisconnectPacketView {
        DisconnectPacketView {
            reason_code: self.reason_code,
            has_properties: self.properties is Some,
        }
    }
}

/// Authentication packet (MQTT 5.0 only).
#[derive(Debug, Clone)]
pub struct AuthPacket {
    pub reason_code: u8,
    pub properties: Option<AuthProperties>,
}

/// Abstract value of an `AuthPacket`: the reason code and whether properties
/// are attached.
pub struct AuthPacketView {
    pub reason_code: u8,
    pub has_properties: bool,
}

impl View for AuthPacket {
    type V = AuthPacketView;

    open spec fn view(&self) -> AuthPacketView {
        AuthPacketView {
            reason_code: self.reason_code,
            has_properties: self.properties is Some,
        }
    }
}

} // verus!
