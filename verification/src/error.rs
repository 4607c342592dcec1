//! Error type of the library.

use vstd::prelude::*;
use vstd::string::*;

verus! {

#[verifier::external_type_specification]
#[verifier::external_body]
pub struct ExIoError(std::io::Error);

/// MQTT library error types.
#[derive(Debug)]
pub enum Error {
    Io(std::io::Error),
    Connection(String),
    Protocol(String),
    InvalidPacket(String),
    UnsupportedVersion(u8),
    InvalidQoS(u8),
    InvalidTopic(String),
    Authentication(String),
    Authorization(String),
    Server(String),
    Client(String),
    Timeout,
    Disconnected,
    Serialization(String),
    Deserialization(String),
}

/// Result type for MQTT operations.
pub type Result<T> = std::result::Result<T, Error>;

/// The decimal digit for `d < 10`.
pub open spec fn digit_char(d: nat) -> char {
    (('0' as nat) + d) as char
}

/// The decimal representation of `n`, most significant digit first.
pub open spec fn decimal(n: nat) -> Seq<char>
    decreases n,
{
    if n < 10 {
        seq![digit_char(n)]
    } else {
        decimal(n / 10).push(digit_char(n % 10))
    }
}

/// The decimal digit `d` as text.
fn digit_text(d: usize) -> (r: &'static str)
    requires
        d < 10,
    ensures
        r@ == seq![digit_char(d as nat)],
{
    match d {
        0 => {
            proof {
                reveal_strlit("0");
            }
            "0"
        },
        1 => {
            proof {
                reveal_strlit("1");
            }
            "1"
        },
        2 => {
            proof {
                reveal_strlit("2");
            }
            "2"
        },
        3 => {
            proof {
                reveal_strlit("3");
            }
            "3"
        },
        4 => {
            proof {
                reveal_strlit("4");
            }
            "4"
        },
        5 => {
            proof {
                reveal_strlit("5");
            }
            "5"
        },
        6 => {
            proof {
                reveal_strlit("6");
            }
            "6"
        },
        7 => {
            proof {
                reveal_strlit("7");
            }
            "7"
        },
        8 => {
            proof {
                reveal_strlit("8");
            }
            "8"
        },
        _ => {
            proof {
                reveal_strlit("9");
            }
            "9"
        },
    }
}

/// `v` written in decimal.
pub(crate) fn usize_to_decimal(v: usize) -> (r: String)
    ensures
        r@ == decimal(v as nat),
    decreases v,
{
    if v < 10 {
        String::from_str(digit_text(v))
    } else {
        let mut s = usize_to_decimal(v / 10);
        s.append(digit_text(v % 10));
        s
    }
}

/// `v` written in decimal.
fn u8_to_decimal(v: u8) -> (r: String)
    ensures
        r@ == decimal(v as nat),
{
    usize_to_decimal(v as usize)
}

/// `std::io::Error::to_string` (its `Display`). The text comes from the
/// operating system or from whoever built the error; nothing is stated of it.
#[verifier::external_body]
fn io_error_text(e: &std::io::Error) -> String {
    e.to_string()
}

/// `prefix` followed by `detail`.
pub(crate) fn join_text(prefix: &str, detail: &str) -> (r: String)
    ensures
        r@ == prefix@ + detail@,
{
    let mut s = String::from_str(prefix);
    s.append(detail);
    s
}

impl Error {
    /// The display text of every variant but `Io`, whose text comes from the
    /// wrapped I/O error.
    pub open spec fn spec_text(&self) -> Seq<char> {
        match self {
            Error::Io(_) => Seq::empty(),
            Error::Connection(m) => "Connection error: "@ + m@,
            Error::Protocol(m) => "Protocol error: "@ + m@,
            Error::InvalidPacket(m) => "Invalid packet: "@ + m@,
            Error::UnsupportedVersion(v) => "Unsupported protocol version: "@ + decimal(*v as nat),
            Error::InvalidQoS(v) => "Invalid QoS level: "@ + decimal(*v as nat),
            Error::InvalidTopic(m) => "Invalid topic: "@ + m@,
            Error::Authentication(m) => "Authentication failed: "@ + m@,
            Error::Authorization(m) => "Authorization failed: "@ + m@,
            Error::Server(m) => "Server error: "@ + m@,
            Error::Client(m) => "Client error: "@ + m@,
            Error::Timeout => "Timeout"@,
            Error::Disconnected => "Disconnected"@,
            Error::Serialization(m) => "Serialization error: "@ + m@,
            Error::Deserialization(m) => "Deserialization error: "@ + m@,
        }
    }

    /// The human-readable message of this error.
    pub fn to_string(&self) -> (r: String)
        ensures
            !(self is Io) ==> r@ == self.spec_text(),
            self is Io ==> r@.len() >= 10 && r@.subrange(0, 10) == "IO error: "@,
    {
        match self {
            Error::Io(e) => {
                let detail = io_error_text(e);
                let r = join_text("IO error: ", detail.as_str());
                proof {
                    reveal_strlit("IO error: ");
                    assert(r@.subrange(0, 10) =~= "IO error: "@);
                }
                r
            },
            Error::Connection(m) => join_text("Connection error: ", m.as_str()),
            Error::Protocol(m) => join_text("Protocol error: ", m.as_str()),
            Error::InvalidPacket(m) => join_text("Invalid packet: ", m.as_str()),
            Error::UnsupportedVersion(v) => {
                let d = u8_to_decimal(*v);
                join_text("Unsupported protocol version: ", d.as_str())
            },
            Error::InvalidQoS(v) => {
                let d = u8_to_decimal(*v);
                join_text("Invalid QoS level: ", d.as_str())
            },
            Error::InvalidTopic(m) => join_text("Invalid topic: ", m.as_str()),
            Error::Authentication(m) => join_text("Authentication failed: ", m.as_str()),
            Error::Authorization(m) => join_text("Authorization failed: ", m.as_str()),
            Error::Server(m) => join_text("Server error: ", m.as_str()),
            Error::Client(m) => join_text("Client error: ", m.as_str()),
            Error::Timeout => String::from_str("Timeout"),
            Error::Disconnected => String::from_str("Disconnected"),
            Error::Serialization(m) => join_text("Serialization error: ", m.as_str()),
            Error::Deserialization(m) => join_text("Deserialization error: ", m.as_str()),
        }
    }
}

impl From<std::io::Error> for Error {
    fn from(e: std::io::Error) -> (r: Error) {
        Error::Io(e)
    }
}

impl vstd::std_specs::convert::FromSpecImpl<std::io::Error> for Error {
    open spec fn obeys_from_spec() -> bool {
        true
    }

    open spec fn from_spec(v: std::io::Error) -> Error {
        Error::Io(v)
    }
}

} // verus!
