//! The USB-IF base class table: the `Class` type, the resolver that
//! classifies a raw `(base, sub, protocol)` byte triple, and the
//! descriptor-level classification predicates.

use vstd::prelude::*;

pub mod protocol;
pub mod subclass;

use crate::class::protocol::cdc::{CDCControlProtocol, CDCDataProtocol};
use crate::class::protocol::hub::HubSpeed;
use crate::class::protocol::printer::PrinterProtocol;
use crate::class::protocol::smartcard::SmartCardProtocol;
use crate::class::protocol::storage::MassStorageProtocol;
use crate::class::protocol::USBProtocol;
use crate::class::subclass::av::{AVSubClass, AudioSubClass, VideoSubClass};
use crate::class::subclass::cdc::CDCControlSubClass;
use crate::class::subclass::hid::HIDSubClass;
use crate::class::subclass::storage::MassStorageSubClass;
use crate::class::subclass::USBSubClass;
use crate::error::USBParseError;

verus! {

/// A classified USB class code. Each variant corresponds to exactly one base
/// class byte of the USB-IF base class table; variants carry the decoded
/// subclass and protocol values their family defines, and nothing else.
#[derive(Clone, Copy, Debug, PartialEq, Eq)]
pub enum Class {
    /// Base Class 00h (Device) [Device].
    /// This base class indicates that the class information should be
    /// determined from the interface descriptors.
    Device,

    /// Base Class 01h (Audio) [Interface].
    /// This base class is defined for audio capable devices that conform to
    /// the Audio Device Class Specification.
    Audio(AudioSubClass),

    /// Base Class 02h (Communications and CDC Control) [Both].
    /// This base class is defined for devices that conform to the
    /// Communications Device Class Specification.
    CDCControl(CDCControlSubClass, CDCControlProtocol),

    /// Base Class 03h (HID - Human Interface Device) [Interface].
    /// This base class is defined for devices that conform to the HID Device
    /// Class Specification.
    HumanInterfaceDevice(HIDSubClass),

    /// Base Class 05h (Physical) [Interface].
    /// This base class is defined for devices that conform to the Physical
    /// Device Class Specification. Its sub-table is not modeled yet, so the
    /// resolver reports it as unimplemented.
    Physical,

    /// Base Class 06h (Still Imaging) [Interface].
    /// This base class is defined for devices that conform to the Imaging
    /// Device Class Specification.
    StillImaging,

    /// Base Class 07h (Printer) [Interface].
    /// This base class is defined for devices that conform to the Printer
    /// Device Class Specification.
    Printer(PrinterProtocol),

    /// Base Class 08h (Mass Storage) [Interface].
    /// This base class is defined for devices that conform to the Mass
    /// Storage Device Class Specification.
    MassStorage(MassStorageSubClass, MassStorageProtocol),

    /// Base Class 09h (Hub) [Device].
    /// This base class is defined for devices that are USB hubs and conform
    /// to the definition in the USB Specification.
    Hub(HubSpeed),

    /// Base Class 0Ah (CDC-Data) [Interface].
    /// This base class is defined for devices that conform to the
    /// Communications Device Class Specification.
    CDCData(CDCDataProtocol),

    /// Base Class 0Bh (Smart Card) [Interface].
    /// This base class is defined for devices that conform to the Smart Card
    /// Device Class Specification.
    SmartCard(SmartCardProtocol),

    /// Base Class 0Dh (Content Security) [Interface].
    /// This base class is defined for devices that conform to the Content
    /// Security Device Class Specification.
    ContentSecurity,

    /// Base Class 0Eh (Video) [Interface].
    /// This base class is defined for devices that conform to the Video
    /// Device Class Specification.
    Video(VideoSubClass),

    /// Base Class 0Fh (Personal Healthcare) [Interface].
    /// This base class is defined for devices that conform to the Personal
    /// Healthcare Device Class Specification. Its sub-table is not modeled
    /// yet, so the resolver reports it as unimplemented.
    PersonalHealthcare,

    /// Base Class 10h (Audio/Video Devices) [Interface].
    /// The USB Audio/Video (AV) Device Class definition describes the
    /// methods used to communicate with devices or functions embedded in
    /// composite devices that manipulate audio, video, voice and all image
    /// and sound related functionality.
    AudioVideo(AVSubClass),

    /// Base Class 11h (Billboard Device) [Device].
    /// This base class is defined for devices that conform to the Billboard
    /// Device Class Specification.
    Billboard,

    /// Base Class 12h (USB Type-C Bridge Device) [Interface].
    /// This base class is defined for devices that conform to the USB Type-C
    /// Bridge Device Class Specification.
    TypeCBridge,

    /// Base Class 3Ch (I3C Device Class) [Interface].
    /// This base class is defined for devices that conform to the USB I3C
    /// Device Class Specification.
    I3CDevice,

    /// Base Class DCh (Diagnostic Device) [Both].
    /// This base class is defined for diagnostic devices. Its sub-table is
    /// not modeled yet, so the resolver reports it as unimplemented.
    Diagnostic,

    /// Base Class E0h (Wireless Controller) [Interface].
    /// This base class is defined for devices that are wireless controllers.
    /// Its sub-table is not modeled yet, so the resolver reports it as
    /// unimplemented.
    Wireless,

    /// Base Class EFh (Miscellaneous) [Both].
    /// This base class is defined for miscellaneous device definitions. Its
    /// sub-table is not modeled yet, so the resolver reports it as
    /// unimplemented.
    Miscellaneous,

    /// Base Class FEh (Application Specific) [Interface].
    /// This base class is defined for devices that conform to several class
    /// specifications. Its sub-table is not modeled yet, so the resolver
    /// reports it as unimplemented.
    ApplicationSpecific,

    /// Base Class FFh (Vendor Specific) [Both].
    /// This base class is defined for vendors to use as they please. The
    /// subclass and protocol bytes are stored verbatim, with no further
    /// decoding.
    VendorSpecific(u8, u8),
}

/// The rule shared by the single-code identity classes: the subclass and
/// protocol bytes must both be zero; a non-zero subclass fails as an unknown
/// subclass, and a zero subclass with a non-zero protocol fails as an
/// unknown protocol.
pub open spec fn spec_single_code(class: Class, sub: u8, protocol: u8) -> Result<
    Class,
    USBParseError,
> {
    if sub != 0x00 {
        Err(USBParseError::UnknownSubClass(sub))
    } else if protocol != 0x00 {
        Err(USBParseError::UnknownProtocol(protocol))
    } else {
        Ok(class)
    }
}

impl Class {
    /// The USB-IF base class table as a function: the classification every
    /// byte triple resolves to, or the exact error it is rejected with.
    pub open spec fn spec_resolve(base: u8, sub: u8, protocol: u8) -> Result<
        Class,
        USBParseError,
    > {
        match base {
            // Device class: class information lives in the interfaces.
            0x00 => spec_single_code(Class::Device, sub, protocol),
            // Audio class: the subclass table with a fixed zero protocol.
            0x01 => match AudioSubClass::spec_decode(sub) {
                Some(s) => if protocol == 0x00 {
                    Ok(Class::Audio(s))
                } else {
                    Err(USBParseError::UnknownProtocol(protocol))
                },
                None => Err(USBParseError::UnknownSubClass(sub)),
            },
            // Communications and CDC Control class: delegates to the
            // family's subclass and protocol decoders in sequence.
            0x02 => match CDCControlSubClass::spec_decode(sub) {
                Some(s) => match CDCControlProtocol::spec_decode(protocol) {
                    Some(p) => Ok(Class::CDCControl(s, p)),
                    None => Err(USBParseError::UnknownProtocol(protocol)),
                },
                None => Err(USBParseError::UnknownSubClass(sub)),
            },
            // Human Interface Device class: the variant is selected by the
            // subclass and protocol bytes together.
            0x03 => if sub == 0x00 {
                if protocol == 0x01 {
                    Ok(Class::HumanInterfaceDevice(HIDSubClass::Keyboard))
                } else if protocol == 0x02 {
                    Ok(Class::HumanInterfaceDevice(HIDSubClass::Mouse))
                } else {
                    Err(USBParseError::UnknownProtocol(protocol))
                }
            } else if sub == 0x01 {
                if protocol == 0x00 {
                    Ok(Class::HumanInterfaceDevice(HIDSubClass::Boot))
                } else {
                    Err(USBParseError::UnknownProtocol(protocol))
                }
            } else {
                Err(USBParseError::UnknownSubClass(sub))
            },
            // Physical class: assigned, sub-table not modeled yet.
            0x05 => Err(USBParseError::Unimplemented(base)),
            // Still Imaging class: one subclass code, one protocol code.
            0x06 => if sub == 0x01 {
                if protocol == 0x01 {
                    Ok(Class::StillImaging)
                } else {
                    Err(USBParseError::UnknownProtocol(protocol))
                }
            } else {
                Err(USBParseError::UnknownSubClass(sub))
            },
            // Printer class: one subclass code, the family's protocol table.
            0x07 => if sub == 0x01 {
                match PrinterProtocol::spec_decode(protocol) {
                    Some(p) => Ok(Class::Printer(p)),
                    None => Err(USBParseError::UnknownProtocol(protocol)),
                }
            } else {
                Err(USBParseError::UnknownSubClass(sub))
            },
            // Mass Storage class: delegates to the family's subclass and
            // protocol decoders in sequence.
            0x08 => match MassStorageSubClass::spec_decode(sub) {
                Some(s) => match MassStorageProtocol::spec_decode(protocol) {
                    Some(p) => Ok(Class::MassStorage(s, p)),
                    None => Err(USBParseError::UnknownProtocol(protocol)),
                },
                None => Err(USBParseError::UnknownSubClass(sub)),
            },
            // Hub class: protocol code zero is the one reachable speed.
            // The high-speed hub codes await confirmation against the
            // authoritative USB-IF table.
            0x09 => if sub == 0x00 {
                if protocol == 0x00 {
                    Ok(Class::Hub(HubSpeed::FullSpeed))
                } else {
                    Err(USBParseError::UnknownProtocol(protocol))
                }
            } else {
                Err(USBParseError::UnknownSubClass(sub))
            },
            // CDC-Data class: one subclass code, the family's protocol table.
            0x0A => if sub == 0x00 {
                match CDCDataProtocol::spec_decode(protocol) {
                    Some(p) => Ok(Class::CDCData(p)),
                    None => Err(USBParseError::UnknownProtocol(protocol)),
                }
            } else {
                Err(USBParseError::UnknownSubClass(sub))
            },
            // Smart Card class: one subclass code, the family's protocol
            // table.
            0x0B => if sub == 0x00 {
                match SmartCardProtocol::spec_decode(protocol) {
                    Some(p) => Ok(Class::SmartCard(p)),
                    None => Err(USBParseError::UnknownProtocol(protocol)),
                }
            } else {
                Err(USBParseError::UnknownSubClass(sub))
            },
            // Content Security class.
            0x0D => spec_single_code(Class::ContentSecurity, sub, protocol),
            // Video class: the subclass table with a fixed protocol code.
            0x0E => match VideoSubClass::spec_decode(sub) {
                Some(s) => if protocol == 0x01 {
                    Ok(Class::Video(s))
                } else {
                    Err(USBParseError::UnknownProtocol(protocol))
                },
                None => Err(USBParseError::UnknownSubClass(sub)),
            },
            // Personal Healthcare class: assigned, sub-table not modeled yet.
            0x0F => Err(USBParseError::Unimplemented(base)),
            // Audio/Video class: the subclass table with a fixed zero
            // protocol.
            0x10 => match AVSubClass::spec_decode(sub) {
                Some(s) => if protocol == 0x00 {
                    Ok(Class::AudioVideo(s))
                } else {
                    Err(USBParseError::UnknownProtocol(protocol))
                },
                None => Err(USBParseError::UnknownSubClass(sub)),
            },
            // Billboard class.
            0x11 => spec_single_code(Class::Billboard, sub, protocol),
            // USB Type-C Bridge class.
            0x12 => spec_single_code(Class::TypeCBridge, sub, protocol),
            // I3C Device class.
            0x3C => spec_single_code(Class::I3CDevice, sub, protocol),
            // Diagnostic class: assigned, sub-table not modeled yet.
            0xDC => Err(USBParseError::Unimplemented(base)),
            // Wireless Controller class: assigned, sub-table not modeled yet.
            0xE0 => Err(USBParseError::Unimplemented(base)),
            // Miscellaneous class: assigned, sub-table not modeled yet.
            0xEF => Err(USBParseError::Unimplemented(base)),
            // Application Specific class: assigned, sub-table not modeled
            // yet.
            0xFE => Err(USBParseError::Unimplemented(base)),
            // Vendor Specific class: never fails, bytes kept verbatim.
            0xFF => Ok(Class::VendorSpecific(sub, protocol)),
            // Not in the assigned base class table at all.
            _ => Err(USBParseError::UnknownClass(base)),
        }
    }

    /// Classifies a raw `(base, sub, protocol)` byte triple against the
    /// USB-IF base class table: the one decode entrypoint a descriptor
    /// parser needs.
    pub fn resolve(base: u8, sub: u8, protocol: u8) -> (result: Result<Class, USBParseError>)
        ensures
            result == Class::spec_resolve(base, sub, protocol),
    {
        match base {
            0x00 => resolve_single_code(Class::Device, sub, protocol),
            0x01 => match AudioSubClass::decode(sub) {
                Ok(s) => if protocol == 0x00 {
                    Ok(Class::Audio(s))
                } else {
                    Err(USBParseError::UnknownProtocol(protocol))
                },
                Err(e) => Err(e),
            },
            0x02 => match CDCControlSubClass::decode(sub) {
                Ok(s) => match CDCControlProtocol::decode(protocol) {
                    Ok(p) => Ok(Class::CDCControl(s, p)),
                    Err(e) => Err(e),
                },
                Err(e) => Err(e),
            },
            0x03 => if sub == 0x00 {
                if protocol == 0x01 {
                    Ok(Class::HumanInterfaceDevice(HIDSubClass::Keyboard))
                } else if protocol == 0x02 {
                    Ok(Class::HumanInterfaceDevice(HIDSubClass::Mouse))
                } else {
                    Err(USBParseError::UnknownProtocol(protocol))
                }
            } else if sub == 0x01 {
                if protocol == 0x00 {
                    Ok(Class::HumanInterfaceDevice(HIDSubClass::Boot))
                } else {
                    Err(USBParseError::UnknownProtocol(protocol))
                }
            } else {
                Err(USBParseError::UnknownSubClass(sub))
            },
            0x05 => Err(USBParseError::Unimplemented(base)),
            0x06 => if sub == 0x01 {
                if protocol == 0x01 {
                    Ok(Class::StillImaging)
                } else {
                    Err(USBParseError::UnknownProtocol(protocol))
                }
            } else {
                Err(USBParseError::UnknownSubClass(sub))
            },
            0x07 => if sub == 0x01 {
                match PrinterProtocol::decode(protocol) {
                    Ok(p) => Ok(Class::Printer(p)),
                    Err(e) => Err(e),
                }
            } else {
                Err(USBParseError::UnknownSubClass(sub))
            },
            0x08 => match MassStorageSubClass::decode(sub) {
                Ok(s) => match MassStorageProtocol::decode(protocol) {
                    Ok(p) => Ok(Class::MassStorage(s, p)),
                    Err(e) => Err(e),
                },
                Err(e) => Err(e),
            },
            0x09 => if sub == 0x00 {
                if protocol == 0x00 {
                    Ok(Class::Hub(HubSpeed::FullSpeed))
                } else {
                    Err(USBParseError::UnknownProtocol(protocol))
                }
            } else {
                Err(USBParseError::UnknownSubClass(sub))
            },
            0x0A => if sub == 0x00 {
                match CDCDataProtocol::decode(protocol) {
                    Ok(p) => Ok(Class::CDCData(p)),
                    Err(e) => Err(e),
                }
            } else {
                Err(USBParseError::UnknownSubClass(sub))
            },
            0x0B => if sub == 0x00 {
                match SmartCardProtocol::decode(protocol) {
                    Ok(p) => Ok(Class::SmartCard(p)),
                    Err(e) => Err(e),
                }
            } else {
                Err(USBParseError::UnknownSubClass(sub))
            },
            0x0D => resolve_single_code(Class::ContentSecurity, sub, protocol),
            0x0E => match VideoSubClass::decode(sub) {
                Ok(s) => if protocol == 0x01 {
                    Ok(Class::Video(s))
                } else {
                    Err(USBParseError::UnknownProtocol(protocol))
                },
                Err(e) => Err(e),
            },
            0x0F => Err(USBParseError::Unimplemented(base)),
            0x10 => match AVSubClass::decode(sub) {
                Ok(s) => if protocol == 0x00 {
                    Ok(Class::AudioVideo(s))
                } else {
                    Err(USBParseError::UnknownProtocol(protocol))
                },
                Err(e) => Err(e),
            },
            0x11 => resolve_single_code(Class::Billboard, sub, protocol),
            0x12 => resolve_single_code(Class::TypeCBridge, sub, protocol),
            0x3C => resolve_single_code(Class::I3CDevice, sub, protocol),
            0xDC => Err(USBParseError::Unimplemented(base)),
            0xE0 => Err(USBParseError::Unimplemented(base)),
            0xEF => Err(USBParseError::Unimplemented(base)),
            0xFE => Err(USBParseError::Unimplemented(base)),
            0xFF => Ok(Class::VendorSpecific(sub, protocol)),
            _ => Err(USBParseError::UnknownClass(base)),
        }
    }

    /// The one base class byte each variant corresponds to in the USB-IF
    /// base class table.
    pub open spec fn spec_base_code(self) -> u8 {
        match self {
            Class::Device => 0x00,
            Class::Audio(_) => 0x01,
            Class::CDCControl(_, _) => 0x02,
            Class::HumanInterfaceDevice(_) => 0x03,
            Class::Physical => 0x05,
            Class::StillImaging => 0x06,
            Class::Printer(_) => 0x07,
            Class::MassStorage(_, _) => 0x08,
            Class::Hub(_) => 0x09,
            Class::CDCData(_) => 0x0A,
            Class::SmartCard(_) => 0x0B,
            Class::ContentSecurity => 0x0D,
            Class::Video(_) => 0x0E,
            Class::PersonalHealthcare => 0x0F,
            Class::AudioVideo(_) => 0x10,
            Class::Billboard => 0x11,
            Class::TypeCBridge => 0x12,
            Class::I3CDevice => 0x3C,
            Class::Diagnostic => 0xDC,
            Class::Wireless => 0xE0,
            Class::Miscellaneous => 0xEF,
            Class::ApplicationSpecific => 0xFE,
            Class::VendorSpecific(_, _) => 0xFF,
        }
    }

    /// Which class families a device descriptor may carry.
    pub open spec fn spec_devdesc(self) -> bool {
        match self {
            Class::Device => true,
            Class::CDCControl(_, _) => true,
            Class::Hub(_) => true,
            Class::Billboard => true,
            Class::Diagnostic => true,
            Class::Miscellaneous => true,
            Class::VendorSpecific(_, _) => true,
            _ => false,
        }
    }

    /// Which class families an interface descriptor may carry: every family
    /// except the three device-only ones.
    pub open spec fn spec_ifdesc(self) -> bool {
        match self {
            Class::Device => false,
            Class::Hub(_) => false,
            Class::Billboard => false,
            _ => true,
        }
    }

    /// Returns `true` if the class code can be used in a device descriptor.
    pub fn devdesc(&self) -> (legal: bool)
        ensures
            legal == self.spec_devdesc(),
    {
        match *self {
            Class::Device => true,
            Class::CDCControl(_, _) => true,
            Class::Hub(_) => true,
            Class::Billboard => true,
            Class::Diagnostic => true,
            Class::Miscellaneous => true,
            Class::VendorSpecific(_, _) => true,
            _ => false,
        }
    }

    /// Returns `true` if the class code can be used in an interface
    /// descriptor.
    pub fn ifdesc(&self) -> (legal: bool)
        ensures
            legal == self.spec_ifdesc(),
    {
        match *self {
            Class::Device => false,
            Class::Hub(_) => false,
            Class::Billboard => false,
            _ => true,
        }
    }
}

/// Applies the single-code identity rule shared by the Device, Content
/// Security, Billboard, USB Type-C Bridge and I3C Device classes.
fn resolve_single_code(class: Class, sub: u8, protocol: u8) -> (result: Result<
    Class,
    USBParseError,
>)
    ensures
        result == spec_single_code(class, sub, protocol),
{
    if sub != 0x00 {
        Err(USBParseError::UnknownSubClass(sub))
    } else if protocol != 0x00 {
        Err(USBParseError::UnknownProtocol(protocol))
    } else {
        Ok(class)
    }
}

/// Identifies the single-code identity classes: the base classes whose only
/// legal subclass and protocol bytes are both zero.
pub open spec fn is_single_code_base(base: u8) -> bool {
    base == 0x00 || base == 0x0D || base == 0x11 || base == 0x12 || base == 0x3C
}

/// Identifies the base classes that the USB-IF table assigns but whose
/// sub-tables are not modeled yet.
pub open spec fn is_unimplemented_base(base: u8) -> bool {
    base == 0x05 || base == 0x0F || base == 0xDC || base == 0xE0 || base == 0xEF || base == 0xFE
}

/// Classification is deterministic: any two results that the resolver's
/// contract admits for the same byte triple are equal, whatever the call
/// order or thread.
pub proof fn lemma_resolve_deterministic(
    base: u8,
    sub: u8,
    protocol: u8,
    first: Result<Class, USBParseError>,
    second: Result<Class, USBParseError>,
)
    requires
        first == Class::spec_resolve(base, sub, protocol),
        second == Class::spec_resolve(base, sub, protocol),
    ensures
        first == second,
{
}

/// Vendor-specific totality: a vendor-specific base class never fails, for
/// every subclass and protocol byte, and stores both bytes verbatim.
pub proof fn lemma_vendor_specific_total(sub: u8, protocol: u8)
    ensures
        Class::spec_resolve(0xFF, sub, protocol) == Ok::<Class, USBParseError>(
            Class::VendorSpecific(sub, protocol),
        ),
{
}

/// Single-code identity classes reject every non-zero subclass or protocol:
/// a non-zero subclass fails as an unknown subclass, and a zero subclass
/// with a non-zero protocol fails as an unknown protocol.
pub proof fn lemma_single_code_rejects(base: u8, sub: u8, protocol: u8)
    requires
        is_single_code_base(base),
        sub != 0x00 || protocol != 0x00,
    ensures
        sub != 0x00 ==> Class::spec_resolve(base, sub, protocol) == Err::<Class, USBParseError>(
            USBParseError::UnknownSubClass(sub),
        ),
        sub == 0x00 ==> Class::spec_resolve(base, sub, protocol) == Err::<Class, USBParseError>(
            USBParseError::UnknownProtocol(protocol),
        ),
{
}

/// The range rule at the resolver: a CDC Control subclass byte in the vendor
/// range decodes as the vendor-specific subclass, composed with whatever the
/// protocol byte decodes to.
pub proof fn lemma_cdc_control_vendor_subclass(sub: u8, protocol: u8)
    requires
        0x80 <= sub,
    ensures
        CDCControlProtocol::spec_decode(protocol) matches Some(p) ==> Class::spec_resolve(
            0x02,
            sub,
            protocol,
        ) == Ok::<Class, USBParseError>(
            Class::CDCControl(CDCControlSubClass::VendorSpecific, p),
        ),
        CDCControlProtocol::spec_decode(protocol) is None ==> Class::spec_resolve(
            0x02,
            sub,
            protocol,
        ) == Err::<Class, USBParseError>(USBParseError::UnknownProtocol(protocol)),
{
}

/// The holes of the CDC Control subclass table: zero and the bytes between
/// the last named model and the vendor range are rejected as unknown
/// subclasses, whatever the protocol byte.
pub proof fn lemma_cdc_control_unknown_subclass(sub: u8, protocol: u8)
    requires
        sub == 0x00 || (0x0E <= sub && sub <= 0x7F),
    ensures
        Class::spec_resolve(0x02, sub, protocol) == Err::<Class, USBParseError>(
            USBParseError::UnknownSubClass(sub),
        ),
{
}

/// A successful classification always yields the variant that corresponds to
/// the base class byte it was given: the resolver never reinterprets one
/// family's codes as another's.
pub proof fn lemma_resolved_base_code(base: u8, sub: u8, protocol: u8)
    ensures
        Class::spec_resolve(base, sub, protocol) matches Ok(c) ==> c.spec_base_code() == base,
{
}

/// Base classes that are assigned but not modeled yet are reported with the
/// dedicated unimplemented error, never conflated with an unknown class and
/// never by a failure to return.
pub proof fn lemma_unimplemented_reported(base: u8, sub: u8, protocol: u8)
    requires
        is_unimplemented_base(base),
    ensures
        Class::spec_resolve(base, sub, protocol) == Err::<Class, USBParseError>(
            USBParseError::Unimplemented(base),
        ),
{
}

} // verus!
