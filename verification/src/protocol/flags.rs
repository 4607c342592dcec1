//! Retain and duplicate-delivery flags.

use vstd::prelude::*;

verus! {

/// Whether a message is retained by the broker.
#[derive(Debug, Clone, Copy, PartialEq, Eq, Structural)]
pub enum RetainFlag {
    NotRetained,
    Retained,
}

/// Whether a message is a redelivery.
#[derive(Debug, Clone, Copy, PartialEq, Eq, Structural)]
pub enum DupFlag {
    NotDuplicate,
    Duplicate,
}

impl RetainFlag {
    /// The bit value of the flag.
    pub fn to_u8(&self) -> (r: u8)
        ensures
            r == (if *self == RetainFlag::Retained { 1u8 } else { 0u8 }),
    {
        match self {
            RetainFlag::NotRetained => 0,
            RetainFlag::Retained => 1,
        }
    }
}

impl DupFlag {
    /// The bit value of the flag.
    pub fn to_u8(&self) -> (r: u8)
        ensures
            r == (if *self == DupFlag::Duplicate { 1u8 } else { 0u8 }),
    {
        match self {
            DupFlag::NotDuplicate => 0,
            DupFlag::Duplicate => 1,
        }
    }
}

} // verus!
