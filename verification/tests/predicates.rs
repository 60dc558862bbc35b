//! Tests of the descriptor-level classification predicates.

use usbdescriptor::AVSubClass;
use usbdescriptor::AudioSubClass;
use usbdescriptor::CDCControlProtocol;
use usbdescriptor::CDCControlSubClass;
use usbdescriptor::CDCDataProtocol;
use usbdescriptor::Class;
use usbdescriptor::HIDSubClass;
use usbdescriptor::HubSpeed;
use usbdescriptor::MassStorageProtocol;
use usbdescriptor::MassStorageSubClass;
use usbdescriptor::PrinterProtocol;
use usbdescriptor::SmartCardProtocol;
use usbdescriptor::VideoSubClass;

#[test]
fn hub_is_device_only() {
    let hub = Class::Hub(HubSpeed::FullSpeed);
    assert!(hub.devdesc());
    assert!(!hub.ifdesc());
}

#[test]
fn device_only_classes() {
    for class in [
        Class::Device,
        Class::Hub(HubSpeed::HighSpeedMultiple),
        Class::Billboard,
    ] {
        assert!(!class.ifdesc());
        assert!(class.devdesc());
    }
}

#[test]
fn classes_legal_in_both_contexts() {
    for class in [
        Class::CDCControl(CDCControlSubClass::Abstract, CDCControlProtocol::V250),
        Class::Diagnostic,
        Class::Miscellaneous,
        Class::VendorSpecific(0x01, 0x02),
    ] {
        assert!(class.devdesc());
        assert!(class.ifdesc());
    }
}

#[test]
fn interface_only_classes() {
    for class in [
        Class::Audio(AudioSubClass::Control),
        Class::HumanInterfaceDevice(HIDSubClass::Boot),
        Class::Physical,
        Class::StillImaging,
        Class::Printer(PrinterProtocol::Bidirectional),
        Class::MassStorage(MassStorageSubClass::SCSI, MassStorageProtocol::BulkOnly),
        Class::CDCData(CDCDataProtocol::NTB),
        Class::SmartCard(SmartCardProtocol::Bulk),
        Class::ContentSecurity,
        Class::Video(VideoSubClass::Streaming),
        Class::PersonalHealthcare,
        Class::AudioVideo(AVSubClass::Control),
        Class::TypeCBridge,
        Class::I3CDevice,
        Class::Wireless,
        Class::ApplicationSpecific,
    ] {
        assert!(!class.devdesc());
        assert!(class.ifdesc());
    }
}
