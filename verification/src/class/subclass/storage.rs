//! Mass Storage subclasses.

use vstd::prelude::*;
use crate::class::subclass::USBSubClass;
use crate::error::USBParseError;

verus! {

/// Subclass codes of the Mass Storage base class.
#[derive(Clone, Copy, Debug, PartialEq, Eq)]
pub enum MassStorageSubClass {
    /// SCSI Command Set not reported.
    NotReported,

    /// RBC.
    RBC,

    /// MMC-5 ATAPI.
    MMC5,

    /// Floppy Disk Drives to USB.
    UFI,

    /// SCSI Transparent Command Set.
    SCSI,

    /// LSD FS.
    LSDFS,

    /// IEEE 1667.
    IEEE1667,

    /// Vendor specific.
    VendorSpecific,
}

impl USBSubClass for MassStorageSubClass {
    open spec fn spec_decode(byte: u8) -> Option<MassStorageSubClass> {
        match byte {
            0x00 => Some(MassStorageSubClass::NotReported),
            0x01 => Some(MassStorageSubClass::RBC),
            0x02 => Some(MassStorageSubClass::MMC5),
            0x04 => Some(MassStorageSubClass::UFI),
            0x06 => Some(MassStorageSubClass::SCSI),
            0x07 => Some(MassStorageSubClass::LSDFS),
            0x08 => Some(MassStorageSubClass::IEEE1667),
            0xFF => Some(MassStorageSubClass::VendorSpecific),
            _ => None,
        }
    }

    open spec fn spec_encode(self) -> u8 {
        match self {
            MassStorageSubClass::NotReported => 0x00,
            MassStorageSubClass::RBC => 0x01,
            MassStorageSubClass::MMC5 => 0x02,
            MassStorageSubClass::UFI => 0x04,
            MassStorageSubClass::SCSI => 0x06,
            MassStorageSubClass::LSDFS => 0x07,
            MassStorageSubClass::IEEE1667 => 0x08,
            MassStorageSubClass::VendorSpecific => 0xFF,
        }
    }

    fn decode(byte: u8) -> Result<MassStorageSubClass, USBParseError> {
        match byte {
            0x00 => Ok(MassStorageSubClass::NotReported),
            0x01 => Ok(MassStorageSubClass::RBC),
            0x02 => Ok(MassStorageSubClass::MMC5),
            0x04 => Ok(MassStorageSubClass::UFI),
            0x06 => Ok(MassStorageSubClass::SCSI),
            0x07 => Ok(MassStorageSubClass::LSDFS),
            0x08 => Ok(MassStorageSubClass::IEEE1667),
            0xFF => Ok(MassStorageSubClass::VendorSpecific),
            _ => Err(USBParseError::UnknownSubClass(byte)),
        }
    }

    fn encode(self) -> u8 {
        match self {
            MassStorageSubClass::NotReported => 0x00,
            MassStorageSubClass::RBC => 0x01,
            MassStorageSubClass::MMC5 => 0x02,
            MassStorageSubClass::UFI => 0x04,
            MassStorageSubClass::SCSI => 0x06,
            MassStorageSubClass::LSDFS => 0x07,
            MassStorageSubClass::IEEE1667 => 0x08,
            MassStorageSubClass::VendorSpecific => 0xFF,
        }
    }

    proof fn lemma_canonical_byte(self) {
    }
}

/// Round trip over the Mass Storage subclass table: every byte that decodes
/// re-encodes to itself.
pub proof fn lemma_mass_storage_subclass_round_trip(byte: u8)
    ensures
        MassStorageSubClass::spec_decode(byte) matches Some(v) ==> v.spec_encode() == byte,
{
}

} // verus!
