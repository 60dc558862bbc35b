//! Mass Storage transport protocols.

use vstd::prelude::*;
use crate::class::protocol::USBProtocol;
use crate::error::USBParseError;

verus! {

/// Protocol codes of the Mass Storage base class.
#[derive(Clone, Copy, Debug, PartialEq, Eq)]
pub enum MassStorageProtocol {
    /// CBI with Command Completion interrupt.
    CBIWithInterrupt,

    /// CBI without Command Completion interrupt.
    CBIWithoutInterrupt,

    /// USB Mass Storage Class Bulk-Only (BBB) Transport.
    BulkOnly,

    /// Allocated for UAS.
    UAS,

    /// Vendor Specific.
    VendorSpecific,
}

impl USBProtocol for MassStorageProtocol {
    open spec fn spec_decode(byte: u8) -> Option<MassStorageProtocol> {
        match byte {
            0x00 => Some(MassStorageProtocol::CBIWithInterrupt),
            0x01 => Some(MassStorageProtocol::CBIWithoutInterrupt),
            0x50 => Some(MassStorageProtocol::BulkOnly),
            0x62 => Some(MassStorageProtocol::UAS),
            0xFF => Some(MassStorageProtocol::VendorSpecific),
            _ => None,
        }
    }

    open spec fn spec_encode(self) -> u8 {
        match self {
            MassStorageProtocol::CBIWithInterrupt => 0x00,
            MassStorageProtocol::CBIWithoutInterrupt => 0x01,
            MassStorageProtocol::BulkOnly => 0x50,
            MassStorageProtocol::UAS => 0x62,
            MassStorageProtocol::VendorSpecific => 0xFF,
        }
    }

    fn decode(byte: u8) -> Result<MassStorageProtocol, USBParseError> {
        match byte {
            0x00 => Ok(MassStorageProtocol::CBIWithInterrupt),
            0x01 => Ok(MassStorageProtocol::CBIWithoutInterrupt),
            0x50 => Ok(MassStorageProtocol::BulkOnly),
            0x62 => Ok(MassStorageProtocol::UAS),
            0xFF => Ok(MassStorageProtocol::VendorSpecific),
            _ => Err(USBParseError::UnknownProtocol(byte)),
        }
    }

    fn encode(self) -> u8 {
        match self {
            MassStorageProtocol::CBIWithInterrupt => 0x00,
            MassStorageProtocol::CBIWithoutInterrupt => 0x01,
            MassStorageProtocol::BulkOnly => 0x50,
            MassStorageProtocol::UAS => 0x62,
            MassStorageProtocol::VendorSpecific => 0xFF,
        }
    }

    proof fn lemma_canonical_byte(self) {
    }

    proof fn lemma_round_trip(byte: u8) {
    }
}

} // verus!
