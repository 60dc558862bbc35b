//! Printer protocols.

use vstd::prelude::*;
use crate::class::protocol::USBProtocol;
use crate::error::USBParseError;

verus! {

/// Protocol codes of the Printer base class.
#[derive(Clone, Copy, Debug, PartialEq, Eq)]
pub enum PrinterProtocol {
    /// Unidirectional interface.
    Unidirectional,

    /// Bidirectional interface.
    Bidirectional,

    /// 1284.4 compatible bidirectional interface.
    Bidirectional1284,

    /// Vendor Specific.
    VendorSpecific,
}

impl USBProtocol for PrinterProtocol {
    open spec fn spec_decode(byte: u8) -> Option<PrinterProtocol> {
        match byte {
            0x01 => Some(PrinterProtocol::Unidirectional),
            0x02 => Some(PrinterProtocol::Bidirectional),
            0x03 => Some(PrinterProtocol::Bidirectional1284),
            0xFF => Some(PrinterProtocol::VendorSpecific),
            _ => None,
        }
    }

    open spec fn spec_encode(self) -> u8 {
        match self {
            PrinterProtocol::Unidirectional => 0x01,
            PrinterProtocol::Bidirectional => 0x02,
            PrinterProtocol::Bidirectional1284 => 0x03,
            PrinterProtocol::VendorSpecific => 0xFF,
        }
    }

    fn decode(byte: u8) -> Result<PrinterProtocol, USBParseError> {
        match byte {
            0x01 => Ok(PrinterProtocol::Unidirectional),
            0x02 => Ok(PrinterProtocol::Bidirectional),
            0x03 => Ok(PrinterProtocol::Bidirectional1284),
            0xFF => Ok(PrinterProtocol::VendorSpecific),
            _ => Err(USBParseError::UnknownProtocol(byte)),
        }
    }

    fn encode(self) -> u8 {
        match self {
            PrinterProtocol::Unidirectional => 0x01,
            PrinterProtocol::Bidirectional => 0x02,
            PrinterProtocol::Bidirectional1284 => 0x03,
            PrinterProtocol::VendorSpecific => 0xFF,
        }
    }

    proof fn lemma_canonical_byte(self) {
    }

    proof fn lemma_round_trip(byte: u8) {
    }
}

} // verus!
