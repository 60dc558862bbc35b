//! Video Device protocols.

use vstd::prelude::*;
use crate::class::protocol::USBProtocol;
use crate::error::USBParseError;

verus! {

/// Protocol codes of the Video base class.
#[derive(Clone, Copy, Debug, PartialEq, Eq)]
pub enum VideoProtocol {
    /// Protocol 15.
    Protocol15,
}

impl USBProtocol for VideoProtocol {
    open spec fn spec_decode(byte: u8) -> Option<VideoProtocol> {
        match byte {
            0x01 => Some(VideoProtocol::Protocol15),
            _ => None,
        }
    }

    open spec fn spec_encode(self) -> u8 {
        0x01
    }

    fn decode(byte: u8) -> Result<VideoProtocol, USBParseError> {
        match byte {
            0x01 => Ok(VideoProtocol::Protocol15),
            _ => Err(USBParseError::UnknownProtocol(byte)),
        }
    }

    fn encode(self) -> u8 {
        0x01
    }

    proof fn lemma_canonical_byte(self) {
    }

    proof fn lemma_round_trip(byte: u8) {
    }
}

} // verus!
