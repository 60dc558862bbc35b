//! Application Specific protocols.

use vstd::prelude::*;
use crate::class::protocol::USBProtocol;
use crate::error::USBParseError;

verus! {

/// Protocol codes of the Device Firmware Upgrade family.
#[derive(Clone, Copy, Debug, PartialEq, Eq)]
pub enum FirmwareUpgradeProtocol {
    /// Device Firmware Upgrade.
    Default,
}

impl USBProtocol for FirmwareUpgradeProtocol {
    open spec fn spec_decode(byte: u8) -> Option<FirmwareUpgradeProtocol> {
        match byte {
            0x01 => Some(FirmwareUpgradeProtocol::Default),
            _ => None,
        }
    }

    open spec fn spec_encode(self) -> u8 {
        0x01
    }

    fn decode(byte: u8) -> Result<FirmwareUpgradeProtocol, USBParseError> {
        match byte {
            0x01 => Ok(FirmwareUpgradeProtocol::Default),
            _ => Err(USBParseError::UnknownProtocol(byte)),
        }
    }

    fn encode(self) -> u8 {
        0x01
    }

    proof fn lemma_canonical_byte(self) {
    }

    proof fn lemma_round_trip(byte: u8) {
    }
}

/// Protocol codes of the IRDA Bridge Device family.
#[derive(Clone, Copy, Debug, PartialEq, Eq)]
pub enum IRDABridgeProtocol {
    /// IRDA Bridge Device.
    Default,
}

impl USBProtocol for IRDABridgeProtocol {
    open spec fn spec_decode(byte: u8) -> Option<IRDABridgeProtocol> {
        match byte {
            0x00 => Some(IRDABridgeProtocol::Default),
            _ => None,
        }
    }

    open spec fn spec_encode(self) -> u8 {
        0x00
    }

    fn decode(byte: u8) -> Result<IRDABridgeProtocol, USBParseError> {
        match byte {
            0x00 => Ok(IRDABridgeProtocol::Default),
            _ => Err(USBParseError::UnknownProtocol(byte)),
        }
    }

    fn encode(self) -> u8 {
        0x00
    }

    proof fn lemma_canonical_byte(self) {
    }

    proof fn lemma_round_trip(byte: u8) {
    }
}

/// Protocol codes of the USB Test and Measurement family.
#[derive(Clone, Copy, Debug, PartialEq, Eq)]
pub enum USBTestAndMeasureProtocol {
    /// Default protocol.
    Default,

    /// USB488 conformant protocol.
    USB488,
}

impl USBProtocol for USBTestAndMeasureProtocol {
    open spec fn spec_decode(byte: u8) -> Option<USBTestAndMeasureProtocol> {
        match byte {
            0x00 => Some(USBTestAndMeasureProtocol::Default),
            0x01 => Some(USBTestAndMeasureProtocol::USB488),
            _ => None,
        }
    }

    open spec fn spec_encode(self) -> u8 {
        match self {
            USBTestAndMeasureProtocol::Default => 0x00,
            USBTestAndMeasureProtocol::USB488 => 0x01,
        }
    }

    fn decode(byte: u8) -> Result<USBTestAndMeasureProtocol, USBParseError> {
        match byte {
            0x00 => Ok(USBTestAndMeasureProtocol::Default),
            0x01 => Ok(USBTestAndMeasureProtocol::USB488),
            _ => Err(USBParseError::UnknownProtocol(byte)),
        }
    }

    fn encode(self) -> u8 {
        match self {
            USBTestAndMeasureProtocol::Default => 0x00,
            USBTestAndMeasureProtocol::USB488 => 0x01,
        }
    }

    proof fn lemma_canonical_byte(self) {
    }

    proof fn lemma_round_trip(byte: u8) {
    }
}

} // verus!
