//! Human Interface Device protocols.

use vstd::prelude::*;
use crate::class::protocol::USBProtocol;
use crate::error::USBParseError;

verus! {

/// Protocol codes of the Human Interface Device base class.
#[derive(Clone, Copy, Debug, PartialEq, Eq)]
pub enum HIDProtocol {
    /// Keyboard protocol.
    Keyboard,

    /// Mouse protocol.
    Mouse,
}

impl USBProtocol for HIDProtocol {
    open spec fn spec_decode(byte: u8) -> Option<HIDProtocol> {
        match byte {
            0x01 => Some(HIDProtocol::Keyboard),
            0x02 => Some(HIDProtocol::Mouse),
            _ => None,
        }
    }

    open spec fn spec_encode(self) -> u8 {
        match self {
            HIDProtocol::Keyboard => 0x01,
            HIDProtocol::Mouse => 0x02,
        }
    }

    fn decode(byte: u8) -> Result<HIDProtocol, USBParseError> {
        match byte {
            0x01 => Ok(HIDProtocol::Keyboard),
            0x02 => Ok(HIDProtocol::Mouse),
            _ => Err(USBParseError::UnknownProtocol(byte)),
        }
    }

    fn encode(self) -> u8 {
        match self {
            HIDProtocol::Keyboard => 0x01,
            HIDProtocol::Mouse => 0x02,
        }
    }

    proof fn lemma_canonical_byte(self) {
    }

    proof fn lemma_round_trip(byte: u8) {
    }
}

} // verus!
