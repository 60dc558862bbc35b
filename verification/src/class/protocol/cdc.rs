//! CDC Control and CDC Data protocols.

use vstd::prelude::*;
use crate::class::protocol::USBProtocol;
use crate::error::USBParseError;

verus! {

/// Protocol codes of the CDC-Data base class.
#[derive(Clone, Copy, Debug, PartialEq, Eq)]
pub enum CDCDataProtocol {
    /// USB specification.
    USB,

    /// Network Transfer Block.
    NTB,

    /// Physical interface protocol for ISDN BRI.
    I430,

    /// ISO/IEC 3309-1993.
    HDLC,

    /// Management protocol for Q.921 data link protocol.
    Q921M,

    /// Data link protocol for Q.931.
    Q921,

    /// TEI-multiplexor for Q.921 data link protocol.
    Q921TM,

    /// V.24 rate adaptation to ISDN.
    V42bis,

    /// Euro-ISDN protocol control.
    Q931,

    /// V.24 adaptation to ISDN.
    V120,

    /// CAPI Commands.
    CAPI2,

    /// Host Based Driver.
    HostBased,

    /// The protocol is described using a Protocol Unit Functional Descriptor.
    Described,

    /// Vendor specific.
    VendorSpecific,
}

impl USBProtocol for CDCDataProtocol {
    open spec fn spec_decode(byte: u8) -> Option<CDCDataProtocol> {
        match byte {
            0x00 => Some(CDCDataProtocol::USB),
            0x01 => Some(CDCDataProtocol::NTB),
            0x30 => Some(CDCDataProtocol::I430),
            0x31 => Some(CDCDataProtocol::HDLC),
            0x50 => Some(CDCDataProtocol::Q921M),
            0x51 => Some(CDCDataProtocol::Q921),
            0x52 => Some(CDCDataProtocol::Q921TM),
            0x90 => Some(CDCDataProtocol::V42bis),
            0x91 => Some(CDCDataProtocol::Q931),
            0x92 => Some(CDCDataProtocol::V120),
            0x93 => Some(CDCDataProtocol::CAPI2),
            0xFD => Some(CDCDataProtocol::HostBased),
            0xFE => Some(CDCDataProtocol::Described),
            0xFF => Some(CDCDataProtocol::VendorSpecific),
            _ => None,
        }
    }

    open spec fn spec_encode(self) -> u8 {
        match self {
            CDCDataProtocol::USB => 0x00,
            CDCDataProtocol::NTB => 0x01,
            CDCDataProtocol::I430 => 0x30,
            CDCDataProtocol::HDLC => 0x31,
            CDCDataProtocol::Q921M => 0x50,
            CDCDataProtocol::Q921 => 0x51,
            CDCDataProtocol::Q921TM => 0x52,
            CDCDataProtocol::V42bis => 0x90,
            CDCDataProtocol::Q931 => 0x91,
            CDCDataProtocol::V120 => 0x92,
            CDCDataProtocol::CAPI2 => 0x93,
            CDCDataProtocol::HostBased => 0xFD,
            CDCDataProtocol::Described => 0xFE,
            CDCDataProtocol::VendorSpecific => 0xFF,
        }
    }

    fn decode(byte: u8) -> Result<CDCDataProtocol, USBParseError> {
        match byte {
            0x00 => Ok(CDCDataProtocol::USB),
            0x01 => Ok(CDCDataProtocol::NTB),
            0x30 => Ok(CDCDataProtocol::I430),
            0x31 => Ok(CDCDataProtocol::HDLC),
            0x50 => Ok(CDCDataProtocol::Q921M),
            0x51 => Ok(CDCDataProtocol::Q921),
            0x52 => Ok(CDCDataProtocol::Q921TM),
            0x90 => Ok(CDCDataProtocol::V42bis),
            0x91 => Ok(CDCDataProtocol::Q931),
            0x92 => Ok(CDCDataProtocol::V120),
            0x93 => Ok(CDCDataProtocol::CAPI2),
            0xFD => Ok(CDCDataProtocol::HostBased),
            0xFE => Ok(CDCDataProtocol::Described),
            0xFF => Ok(CDCDataProtocol::VendorSpecific),
            _ => Err(USBParseError::UnknownProtocol(byte)),
        }
    }

    fn encode(self) -> u8 {
        match self {
            CDCDataProtocol::USB => 0x00,
            CDCDataProtocol::NTB => 0x01,
            CDCDataProtocol::I430 => 0x30,
            CDCDataProtocol::HDLC => 0x31,
            CDCDataProtocol::Q921M => 0x50,
            CDCDataProtocol::Q921 => 0x51,
            CDCDataProtocol::Q921TM => 0x52,
            CDCDataProtocol::V42bis => 0x90,
            CDCDataProtocol::Q931 => 0x91,
            CDCDataProtocol::V120 => 0x92,
            CDCDataProtocol::CAPI2 => 0x93,
            CDCDataProtocol::HostBased => 0xFD,
            CDCDataProtocol::Described => 0xFE,
            CDCDataProtocol::VendorSpecific => 0xFF,
        }
    }

    proof fn lemma_canonical_byte(self) {
    }

    proof fn lemma_round_trip(byte: u8) {
    }
}

/// Protocol codes of the Communications and CDC Control base class.
#[derive(Clone, Copy, Debug, PartialEq, Eq)]
pub enum CDCControlProtocol {
    /// USB specification.
    USB,

    /// AT Commands: V.250.
    V250,

    /// AT Commands defined by PCCA-101.
    PCCA101,

    /// AT Commands defined by PCCA-101 and Annex O.
    PCCA101Annex,

    /// AT Commands defined by GSM 07.07.
    GSM,

    /// AT Commands defined by 3GPP 27.007.
    GPP,

    /// AT Commands defined by TIA for CDMA.
    CDMA,

    /// Ethernet Emulation Model.
    EEM,

    /// External Protocol: Commands defined by Command Set Functional Descriptor.
    External,

    /// Vendor specific.
    VendorSpecific,
}

impl USBProtocol for CDCControlProtocol {
    open spec fn spec_decode(byte: u8) -> Option<CDCControlProtocol> {
        match byte {
            0x00 => Some(CDCControlProtocol::USB),
            0x01 => Some(CDCControlProtocol::V250),
            0x02 => Some(CDCControlProtocol::PCCA101),
            0x03 => Some(CDCControlProtocol::PCCA101Annex),
            0x04 => Some(CDCControlProtocol::GSM),
            0x05 => Some(CDCControlProtocol::GPP),
            0x06 => Some(CDCControlProtocol::CDMA),
            0x07 => Some(CDCControlProtocol::EEM),
            0xFE => Some(CDCControlProtocol::External),
            0xFF => Some(CDCControlProtocol::VendorSpecific),
            _ => None,
        }
    }

    open spec fn spec_encode(self) -> u8 {
        match self {
            CDCControlProtocol::USB => 0x00,
            CDCControlProtocol::V250 => 0x01,
            CDCControlProtocol::PCCA101 => 0x02,
            CDCControlProtocol::PCCA101Annex => 0x03,
            CDCControlProtocol::GSM => 0x04,
            CDCControlProtocol::GPP => 0x05,
            CDCControlProtocol::CDMA => 0x06,
            CDCControlProtocol::EEM => 0x07,
            CDCControlProtocol::External => 0xFE,
            CDCControlProtocol::VendorSpecific => 0xFF,
        }
    }

    fn decode(byte: u8) -> Result<CDCControlProtocol, USBParseError> {
        match byte {
            0x00 => Ok(CDCControlProtocol::USB),
            0x01 => Ok(CDCControlProtocol::V250),
            0x02 => Ok(CDCControlProtocol::PCCA101),
            0x03 => Ok(CDCControlProtocol::PCCA101Annex),
            0x04 => Ok(CDCControlProtocol::GSM),
            0x05 => Ok(CDCControlProtocol::GPP),
            0x06 => Ok(CDCControlProtocol::CDMA),
            0x07 => Ok(CDCControlProtocol::EEM),
            0xFE => Ok(CDCControlProtocol::External),
            0xFF => Ok(CDCControlProtocol::VendorSpecific),
            _ => Err(USBParseError::UnknownProtocol(byte)),
        }
    }

    fn encode(self) -> u8 {
        match self {
            CDCControlProtocol::USB => 0x00,
            CDCControlProtocol::V250 => 0x01,
            CDCControlProtocol::PCCA101 => 0x02,
            CDCControlProtocol::PCCA101Annex => 0x03,
            CDCControlProtocol::GSM => 0x04,
            CDCControlProtocol::GPP => 0x05,
            CDCControlProtocol::CDMA => 0x06,
            CDCControlProtocol::EEM => 0x07,
            CDCControlProtocol::External => 0xFE,
            CDCControlProtocol::VendorSpecific => 0xFF,
        }
    }

    proof fn lemma_canonical_byte(self) {
    }

    proof fn lemma_round_trip(byte: u8) {
    }
}

} // verus!
