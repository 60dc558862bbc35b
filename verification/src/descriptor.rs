//! USB Device descriptor.
//! A structure representing the USB device descriptor record; field layout
//! only, as given by Section 9.6.1 of the USB 3.0 specification. Decoding
//! the raw class identification bytes it carries is the class resolver's
//! job.

use vstd::prelude::*;

verus! {

/// The device descriptor record layout.
#[allow(non_snake_case, dead_code)]
pub struct DeviceDescriptor {
    /// Size of this descriptor in bytes.
    bLength: u8,

    /// Descriptor type.
    bDescriptorType: u8,

    /// USB Specification release number in binary-coded decimal.
    bcdUSB: u16,

    /// USB-IF class code, subclass code and protocol code.
    class: u8,
    subclass: u8,
    protocol: u8,

    /// Maximum packet size for endpoint 0.
    bMaxPacketSize0: u8,

    /// Vendor ID.
    idVendor: u16,

    /// Product ID.
    idProduct: u16,

    /// Device release number in binary-coded decimal.
    bcdDevice: u16,

    /// Index of string descriptor describing manufacturer.
    iManufacturer: u8,

    /// Index of string descriptor describing product.
    iProduct: u8,

    /// Index of string descriptor containing device serial number.
    iSerialNumber: u8,

    /// Number of possible configurations.
    bNumcConfigurations: u8,
}

} // verus!
