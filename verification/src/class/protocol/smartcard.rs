//! Smart Card protocols.

use vstd::prelude::*;
use crate::class::protocol::USBProtocol;
use crate::error::USBParseError;

verus! {

/// Protocol codes of the Smart Card base class.
#[derive(Clone, Copy, Debug, PartialEq, Eq)]
pub enum SmartCardProtocol {
    /// Bulk Transfer with optional interrupt IN.
    Bulk,

    /// Control transfers, no interrupt IN.
    ControlWithoutInterrupt,

    /// Control transfers, optional IN.
    ControlOptionalInterrupt,
}

impl USBProtocol for SmartCardProtocol {
    open spec fn spec_decode(byte: u8) -> Option<SmartCardProtocol> {
        match byte {
            0x00 => Some(SmartCardProtocol::Bulk),
            0x01 => Some(SmartCardProtocol::ControlWithoutInterrupt),
            0x02 => Some(SmartCardProtocol::ControlOptionalInterrupt),
            _ => None,
        }
    }

    open spec fn spec_encode(self) -> u8 {
        match self {
            SmartCardProtocol::Bulk => 0x00,
            SmartCardProtocol::ControlWithoutInterrupt => 0x01,
            SmartCardProtocol::ControlOptionalInterrupt => 0x02,
        }
    }

    fn decode(byte: u8) -> Result<SmartCardProtocol, USBParseError> {
        match byte {
            0x00 => Ok(SmartCardProtocol::Bulk),
            0x01 => Ok(SmartCardProtocol::ControlWithoutInterrupt),
            0x02 => Ok(SmartCardProtocol::ControlOptionalInterrupt),
            _ => Err(USBParseError::UnknownProtocol(byte)),
        }
    }

    fn encode(self) -> u8 {
        match self {
            SmartCardProtocol::Bulk => 0x00,
            SmartCardProtocol::ControlWithoutInterrupt => 0x01,
            SmartCardProtocol::ControlOptionalInterrupt => 0x02,
        }
    }

    proof fn lemma_canonical_byte(self) {
    }

    proof fn lemma_round_trip(byte: u8) {
    }
}

} // verus!
