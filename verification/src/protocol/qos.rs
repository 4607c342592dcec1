//! Quality of Service levels.

use vstd::prelude::*;

verus! {

/// Quality of Service levels (0, 1 and 2).
#[derive(Debug, Clone, Copy, PartialEq, Eq, Structural)]
pub enum QoS {
    AtMostOnce,
    AtLeastOnce,
    ExactlyOnce,
}

impl QoS {
    /// The numeric level of this QoS.
    pub open spec fn spec_level(self) -> u8 {
        match self {
            QoS::AtMostOnce => 0,
            QoS::AtLeastOnce => 1,
            QoS::ExactlyOnce => 2,
        }
    }

    /// The numeric level of this QoS.
    pub fn to_u8(&self) -> (r: u8)
        ensures
            r == self.spec_level(),
    {
        match self {
            QoS::AtMostOnce => 0,
            QoS::AtLeastOnce => 1,
            QoS::ExactlyOnce => 2,
        }
    }

    /// Create a QoS from its numeric level; `None` above 2.
    pub fn from_u8(value: u8) -> (r: Option<Self>)
        ensures
            r is Some <==> value <= 2,
            r matches Some(q) ==> q.spec_level() == value,
    {
        match value {
            0 => Some(QoS::AtMostOnce),
            1 => Some(QoS::AtLeastOnce),
            2 => Some(QoS::ExactlyOnce),
            _ => None,
        }
    }
}

} // verus!
