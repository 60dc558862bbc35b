//! Wireless Controller protocols.

use vstd::prelude::*;
use crate::class::protocol::USBProtocol;
use crate::error::USBParseError;

verus! {

/// Protocol codes of the Wireless Controller base class's radio family.
#[derive(Clone, Copy, Debug, PartialEq, Eq)]
pub enum WirelessBaseProtocol {
    /// Bluetooth Programming Interface.
    BluetoothProgramming,

    /// UWB Radio Control Interface.
    UWBRadioControl,

    /// Remote NDIS.
    RemoteNDIS,

    /// Bluetooth AMP Controller.
    BluetoothAMPController,
}

impl USBProtocol for WirelessBaseProtocol {
    open spec fn spec_decode(byte: u8) -> Option<WirelessBaseProtocol> {
        match byte {
            0x01 => Some(WirelessBaseProtocol::BluetoothProgramming),
            0x02 => Some(WirelessBaseProtocol::UWBRadioControl),
            0x03 => Some(WirelessBaseProtocol::RemoteNDIS),
            0x04 => Some(WirelessBaseProtocol::BluetoothAMPController),
            _ => None,
        }
    }

    open spec fn spec_encode(self) -> u8 {
        match self {
            WirelessBaseProtocol::BluetoothProgramming => 0x01,
            WirelessBaseProtocol::UWBRadioControl => 0x02,
            WirelessBaseProtocol::RemoteNDIS => 0x03,
            WirelessBaseProtocol::BluetoothAMPController => 0x04,
        }
    }

    fn decode(byte: u8) -> Result<WirelessBaseProtocol, USBParseError> {
        match byte {
            0x01 => Ok(WirelessBaseProtocol::BluetoothProgramming),
            0x02 => Ok(WirelessBaseProtocol::UWBRadioControl),
            0x03 => Ok(WirelessBaseProtocol::RemoteNDIS),
            0x04 => Ok(WirelessBaseProtocol::BluetoothAMPController),
            _ => Err(USBParseError::UnknownProtocol(byte)),
        }
    }

    fn encode(self) -> u8 {
        match self {
            WirelessBaseProtocol::BluetoothProgramming => 0x01,
            WirelessBaseProtocol::UWBRadioControl => 0x02,
            WirelessBaseProtocol::RemoteNDIS => 0x03,
            WirelessBaseProtocol::BluetoothAMPController => 0x04,
        }
    }

    proof fn lemma_canonical_byte(self) {
    }

    proof fn lemma_round_trip(byte: u8) {
    }
}

/// Protocol codes of the Wireless Controller base class's wire adapter
/// family.
#[derive(Clone, Copy, Debug, PartialEq, Eq)]
pub enum WirelessAdapterProtocol {
    /// Host Wire Adapter Control / Data interface.
    HostWireAdapterCDI,

    /// Device Wire Adapter Control / Data interface.
    DeviceWireAdapterCDI,

    /// Device Wire Adapter Isochronous interface.
    DeviceWireAdapterII,
}

impl USBProtocol for WirelessAdapterProtocol {
    open spec fn spec_decode(byte: u8) -> Option<WirelessAdapterProtocol> {
        match byte {
            0x01 => Some(WirelessAdapterProtocol::HostWireAdapterCDI),
            0x02 => Some(WirelessAdapterProtocol::DeviceWireAdapterCDI),
            0x03 => Some(WirelessAdapterProtocol::DeviceWireAdapterII),
            _ => None,
        }
    }

    open spec fn spec_encode(self) -> u8 {
        match self {
            WirelessAdapterProtocol::HostWireAdapterCDI => 0x01,
            WirelessAdapterProtocol::DeviceWireAdapterCDI => 0x02,
            WirelessAdapterProtocol::DeviceWireAdapterII => 0x03,
        }
    }

    fn decode(byte: u8) -> Result<WirelessAdapterProtocol, USBParseError> {
        match byte {
            0x01 => Ok(WirelessAdapterProtocol::HostWireAdapterCDI),
            0x02 => Ok(WirelessAdapterProtocol::DeviceWireAdapterCDI),
            0x03 => Ok(WirelessAdapterProtocol::DeviceWireAdapterII),
            _ => Err(USBParseError::UnknownProtocol(byte)),
        }
    }

    fn encode(self) -> u8 {
        match self {
            WirelessAdapterProtocol::HostWireAdapterCDI => 0x01,
            WirelessAdapterProtocol::DeviceWireAdapterCDI => 0x02,
            WirelessAdapterProtocol::DeviceWireAdapterII => 0x03,
        }
    }

    proof fn lemma_canonical_byte(self) {
    }

    proof fn lemma_round_trip(byte: u8) {
    }
}

} // verus!
