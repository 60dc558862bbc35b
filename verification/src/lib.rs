//! `usbdescriptor` classifies the raw USB class identification bytes — the
//! `(base class, subclass, protocol)` triple found in device and interface
//! descriptors — into strongly typed identifiers from the USB-IF base class
//! table, and serializes those identifiers back to their canonical byte
//! encoding.

pub mod class;
pub mod descriptor;
pub mod error;

pub use class::protocol::app::FirmwareUpgradeProtocol;
pub use class::protocol::app::IRDABridgeProtocol;
pub use class::protocol::app::USBTestAndMeasureProtocol;
pub use class::protocol::cdc::CDCControlProtocol;
pub use class::protocol::cdc::CDCDataProtocol;
pub use class::protocol::hid::HIDProtocol;
pub use class::protocol::hub::HubSpeed;
pub use class::protocol::printer::PrinterProtocol;
pub use class::protocol::smartcard::SmartCardProtocol;
pub use class::protocol::stillimage::StillImageProtocol;
pub use class::protocol::storage::MassStorageProtocol;
pub use class::protocol::video::VideoProtocol;
pub use class::protocol::wireless::WirelessAdapterProtocol;
pub use class::protocol::wireless::WirelessBaseProtocol;
pub use class::protocol::USBProtocol;
pub use class::subclass::av::AVSubClass;
pub use class::subclass::av::AudioSubClass;
pub use class::subclass::av::VideoSubClass;
pub use class::subclass::cdc::CDCControlSubClass;
pub use class::subclass::hid::HIDSubClass;
pub use class::subclass::storage::MassStorageSubClass;
pub use class::subclass::USBSubClass;
pub use class::Class;
pub use descriptor::DeviceDescriptor;
pub use error::USBParseError;
