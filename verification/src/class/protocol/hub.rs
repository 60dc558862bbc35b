//! USB Hub protocols.

use vstd::prelude::*;
use crate::class::protocol::USBProtocol;
use crate::error::USBParseError;

verus! {

/// Protocol codes of the Hub base class: the hub's speed and transaction
/// translator arrangement.
#[derive(Clone, Copy, Debug, PartialEq, Eq)]
pub enum HubSpeed {
    /// Full Speed Hub.
    FullSpeed,

    /// High Speed Hub with single TT.
    HighSpeedSingle,

    /// High Speed Hub with multiple TT.
    HighSpeedMultiple,
}

impl USBProtocol for HubSpeed {
    open spec fn spec_decode(byte: u8) -> Option<HubSpeed> {
        match byte {
            0x00 => Some(HubSpeed::FullSpeed),
            0x01 => Some(HubSpeed::HighSpeedSingle),
            0x02 => Some(HubSpeed::HighSpeedMultiple),
            _ => None,
        }
    }

    open spec fn spec_encode(self) -> u8 {
        match self {
            HubSpeed::FullSpeed => 0x00,
            HubSpeed::HighSpeedSingle => 0x01,
            HubSpeed::HighSpeedMultiple => 0x02,
        }
    }

    fn decode(byte: u8) -> Result<HubSpeed, USBParseError> {
        match byte {
            0x00 => Ok(HubSpeed::FullSpeed),
            0x01 => Ok(HubSpeed::HighSpeedSingle),
            0x02 => Ok(HubSpeed::HighSpeedMultiple),
            _ => Err(USBParseError::UnknownProtocol(byte)),
        }
    }

    fn encode(self) -> u8 {
        match self {
            HubSpeed::FullSpeed => 0x00,
            HubSpeed::HighSpeedSingle => 0x01,
            HubSpeed::HighSpeedMultiple => 0x02,
        }
    }

    proof fn lemma_canonical_byte(self) {
    }

    proof fn lemma_round_trip(byte: u8) {
    }
}

} // verus!
