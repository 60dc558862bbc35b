//! Still Imaging protocols.

use vstd::prelude::*;
use crate::class::protocol::USBProtocol;
use crate::error::USBParseError;

verus! {

/// Protocol codes of the Still Imaging base class.
#[derive(Clone, Copy, Debug, PartialEq, Eq)]
pub enum StillImageProtocol {
    /// Default and only value allowed.
    Default,
}

impl USBProtocol for StillImageProtocol {
    open spec fn spec_decode(byte: u8) -> Option<StillImageProtocol> {
        match byte {
            0x01 => Some(StillImageProtocol::Default),
            _ => None,
        }
    }

    open spec fn spec_encode(self) -> u8 {
        0x01
    }

    fn decode(byte: u8) -> Result<StillImageProtocol, USBParseError> {
        match byte {
            0x01 => Ok(StillImageProtocol::Default),
            _ => Err(USBParseError::UnknownProtocol(byte)),
        }
    }

    fn encode(self) -> u8 {
        0x01
    }

    proof fn lemma_canonical_byte(self) {
    }

    proof fn lemma_round_trip(byte: u8) {
    }
}

} // verus!
