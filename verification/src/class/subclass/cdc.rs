//! Communications and CDC Control subclasses.

use vstd::prelude::*;
use crate::class::subclass::USBSubClass;
use crate::error::USBParseError;

verus! {

/// Subclass codes of the Communications and CDC Control base class.
///
/// This is the one family whose table is not a pure exact match: every byte
/// in the inclusive range `0x80..=0xFF` decodes to `VendorSpecific`, whose
/// canonical code is `0xFF`.
#[derive(Clone, Copy, Debug, PartialEq, Eq)]
pub enum CDCControlSubClass {
    /// Direct Line Control Model.
    DirectLine,

    /// Abstract Control Model.
    Abstract,

    /// Telephone Control Model.
    Telephone,

    /// Multi-Channel Control Model.
    MultiChannel,

    /// CAPI Control Model.
    CAPI,

    /// Ethernet Networking Control Model.
    EthernetNetworking,

    /// ATM Networking Control Model.
    ATMNetworking,

    /// Wireless Handset Control Model.
    WirelessHandset,

    /// Device Management.
    DeviceManagement,

    /// Mobile Direct Line Model.
    MobileDirectLine,

    /// OBEX.
    OBEX,

    /// Ethernet Emulation Model.
    EthernetEmulation,

    /// Network Control Model.
    NetworkControl,

    /// Vendor specific.
    VendorSpecific,
}

impl USBSubClass for CDCControlSubClass {
    open spec fn spec_decode(byte: u8) -> Option<CDCControlSubClass> {
        if byte == 0x01 {
            Some(CDCControlSubClass::DirectLine)
        } else if byte == 0x02 {
            Some(CDCControlSubClass::Abstract)
        } else if byte == 0x03 {
            Some(CDCControlSubClass::Telephone)
        } else if byte == 0x04 {
            Some(CDCControlSubClass::MultiChannel)
        } else if byte == 0x05 {
            Some(CDCControlSubClass::CAPI)
        } else if byte == 0x06 {
            Some(CDCControlSubClass::EthernetNetworking)
        } else if byte == 0x07 {
            Some(CDCControlSubClass::ATMNetworking)
        } else if byte == 0x08 {
            Some(CDCControlSubClass::WirelessHandset)
        } else if byte == 0x09 {
            Some(CDCControlSubClass::DeviceManagement)
        } else if byte == 0x0A {
            Some(CDCControlSubClass::MobileDirectLine)
        } else if byte == 0x0B {
            Some(CDCControlSubClass::OBEX)
        } else if byte == 0x0C {
            Some(CDCControlSubClass::EthernetEmulation)
        } else if byte == 0x0D {
            Some(CDCControlSubClass::NetworkControl)
        } else if 0x80 <= byte {
            Some(CDCControlSubClass::VendorSpecific)
        } else {
            None
        }
    }

    open spec fn spec_encode(self) -> u8 {
        match self {
            CDCControlSubClass::DirectLine => 0x01,
            CDCControlSubClass::Abstract => 0x02,
            CDCControlSubClass::Telephone => 0x03,
            CDCControlSubClass::MultiChannel => 0x04,
            CDCControlSubClass::CAPI => 0x05,
            CDCControlSubClass::EthernetNetworking => 0x06,
            CDCControlSubClass::ATMNetworking => 0x07,
            CDCControlSubClass::WirelessHandset => 0x08,
            CDCControlSubClass::DeviceManagement => 0x09,
            CDCControlSubClass::MobileDirectLine => 0x0A,
            CDCControlSubClass::OBEX => 0x0B,
            CDCControlSubClass::EthernetEmulation => 0x0C,
            CDCControlSubClass::NetworkControl => 0x0D,
            CDCControlSubClass::VendorSpecific => 0xFF,
        }
    }

    fn decode(byte: u8) -> Result<CDCControlSubClass, USBParseError> {
        match byte {
            0x01 => Ok(CDCControlSubClass::DirectLine),
            0x02 => Ok(CDCControlSubClass::Abstract),
            0x03 => Ok(CDCControlSubClass::Telephone),
            0x04 => Ok(CDCControlSubClass::MultiChannel),
            0x05 => Ok(CDCControlSubClass::CAPI),
            0x06 => Ok(CDCControlSubClass::EthernetNetworking),
            0x07 => Ok(CDCControlSubClass::ATMNetworking),
            0x08 => Ok(CDCControlSubClass::WirelessHandset),
            0x09 => Ok(CDCControlSubClass::DeviceManagement),
            0x0A => Ok(CDCControlSubClass::MobileDirectLine),
            0x0B => Ok(CDCControlSubClass::OBEX),
            0x0C => Ok(CDCControlSubClass::EthernetEmulation),
            0x0D => Ok(CDCControlSubClass::NetworkControl),
            0x80..=0xFF => Ok(CDCControlSubClass::VendorSpecific),
            _ => Err(USBParseError::UnknownSubClass(byte)),
        }
    }

    fn encode(self) -> u8 {
        match self {
            CDCControlSubClass::DirectLine => 0x01,
            CDCControlSubClass::Abstract => 0x02,
            CDCControlSubClass::Telephone => 0x03,
            CDCControlSubClass::MultiChannel => 0x04,
            CDCControlSubClass::CAPI => 0x05,
            CDCControlSubClass::EthernetNetworking => 0x06,
            CDCControlSubClass::ATMNetworking => 0x07,
            CDCControlSubClass::WirelessHandset => 0x08,
            CDCControlSubClass::DeviceManagement => 0x09,
            CDCControlSubClass::MobileDirectLine => 0x0A,
            CDCControlSubClass::OBEX => 0x0B,
            CDCControlSubClass::EthernetEmulation => 0x0C,
            CDCControlSubClass::NetworkControl => 0x0D,
            CDCControlSubClass::VendorSpecific => 0xFF,
        }
    }

    proof fn lemma_canonical_byte(self) {
    }
}

/// Round trip over the exactly-matched part of the CDC Control subclass
/// table: outside the vendor range, every byte that decodes re-encodes to
/// itself.
///
/// Bytes `0x80..=0xFE` are excluded: they decode to `VendorSpecific` by the
/// range rule, and re-encode to that variant's canonical byte `0xFF` rather
/// than to themselves.
pub proof fn lemma_cdc_control_subclass_round_trip(byte: u8)
    requires
        byte < 0x80 || byte == 0xFF,
    ensures
        CDCControlSubClass::spec_decode(byte) matches Some(v) ==> v.spec_encode() == byte,
{
}

/// The vendor range of the CDC Control subclass table: every byte in
/// `0x80..=0xFF` decodes to `VendorSpecific`, whose canonical code is `0xFF`.
pub proof fn lemma_cdc_control_subclass_vendor_range(byte: u8)
    requires
        0x80 <= byte,
    ensures
        CDCControlSubClass::spec_decode(byte) == Some(CDCControlSubClass::VendorSpecific),
        CDCControlSubClass::VendorSpecific.spec_encode() == 0xFF,
{
}

} // verus!
