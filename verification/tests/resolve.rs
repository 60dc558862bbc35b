//! Tests of the class resolver: the documented byte triples, the error
//! taxonomy, and the dispatch rules.

use usbdescriptor::AVSubClass;
use usbdescriptor::AudioSubClass;
use usbdescriptor::CDCControlProtocol;
use usbdescriptor::CDCControlSubClass;
use usbdescriptor::CDCDataProtocol;
use usbdescriptor::Class;
use usbdescriptor::HIDSubClass;
use usbdescriptor::HubSpeed;
use usbdescriptor::MassStorageProtocol;
use usbdescriptor::MassStorageSubClass;
use usbdescriptor::PrinterProtocol;
use usbdescriptor::SmartCardProtocol;
use usbdescriptor::USBParseError;
use usbdescriptor::VideoSubClass;

#[test]
fn device_triple_resolves() {
    assert_eq!(Class::resolve(0x00, 0x00, 0x00), Ok(Class::Device));
}

#[test]
fn audio_control_resolves() {
    assert_eq!(
        Class::resolve(0x01, 0x01, 0x00),
        Ok(Class::Audio(AudioSubClass::Control))
    );
    assert_eq!(
        Class::resolve(0x01, 0x02, 0x00),
        Ok(Class::Audio(AudioSubClass::Streaming))
    );
    assert_eq!(
        Class::resolve(0x01, 0x03, 0x00),
        Ok(Class::Audio(AudioSubClass::MIDIStreaming))
    );
    assert_eq!(
        Class::resolve(0x01, 0x01, 0x01),
        Err(USBParseError::UnknownProtocol(0x01))
    );
    assert_eq!(
        Class::resolve(0x01, 0x04, 0x00),
        Err(USBParseError::UnknownSubClass(0x04))
    );
}

#[test]
fn mass_storage_scsi_bulk_only_resolves() {
    assert_eq!(
        Class::resolve(0x08, 0x06, 0x50),
        Ok(Class::MassStorage(
            MassStorageSubClass::SCSI,
            MassStorageProtocol::BulkOnly
        ))
    );
}

#[test]
fn mass_storage_error_attribution() {
    assert_eq!(
        Class::resolve(0x08, 0x03, 0x50),
        Err(USBParseError::UnknownSubClass(0x03))
    );
    assert_eq!(
        Class::resolve(0x08, 0x06, 0x51),
        Err(USBParseError::UnknownProtocol(0x51))
    );
}

#[test]
fn vendor_specific_keeps_bytes_verbatim() {
    assert_eq!(
        Class::resolve(0xFF, 0x12, 0x34),
        Ok(Class::VendorSpecific(0x12, 0x34))
    );
}

#[test]
fn vendor_specific_never_fails() {
    for sub in 0..=255u8 {
        for protocol in 0..=255u8 {
            assert_eq!(
                Class::resolve(0xFF, sub, protocol),
                Ok(Class::VendorSpecific(sub, protocol))
            );
        }
    }
}

#[test]
fn unassigned_base_class_is_unknown() {
    assert_eq!(
        Class::resolve(0x04, 0x00, 0x00),
        Err(USBParseError::UnknownClass(0x04))
    );
    assert_eq!(
        Class::resolve(0x13, 0x01, 0x02),
        Err(USBParseError::UnknownClass(0x13))
    );
}

#[test]
fn unimplemented_bases_are_reported_not_unknown() {
    for base in [0x05u8, 0x0F, 0xDC, 0xE0, 0xEF, 0xFE] {
        assert_eq!(
            Class::resolve(base, 0x00, 0x00),
            Err(USBParseError::Unimplemented(base))
        );
        assert_eq!(
            Class::resolve(base, 0x42, 0x17),
            Err(USBParseError::Unimplemented(base))
        );
    }
}

#[test]
fn resolve_is_deterministic() {
    for base in 0..=255u8 {
        let first = Class::resolve(base, 0x01, 0x01);
        let second = Class::resolve(base, 0x01, 0x01);
        assert_eq!(first, second);
    }
    assert_eq!(
        Class::resolve(0xFF, 0xAB, 0xCD),
        Class::resolve(0xFF, 0xAB, 0xCD)
    );
}

#[test]
fn single_code_classes_reject_nonzero_bytes() {
    // The offending protocol byte is attached when the subclass is valid.
    assert_eq!(
        Class::resolve(0x00, 0x00, 0x01),
        Err(USBParseError::UnknownProtocol(0x01))
    );
    // The offending subclass byte is attached, protocol not evaluated.
    assert_eq!(
        Class::resolve(0x00, 0x01, 0x00),
        Err(USBParseError::UnknownSubClass(0x01))
    );
    for base in [0x00u8, 0x0D, 0x11, 0x12, 0x3C] {
        assert_eq!(
            Class::resolve(base, 0x00, 0x07),
            Err(USBParseError::UnknownProtocol(0x07))
        );
        assert_eq!(
            Class::resolve(base, 0x09, 0x07),
            Err(USBParseError::UnknownSubClass(0x09))
        );
    }
}

#[test]
fn single_code_classes_resolve_on_zero_bytes() {
    assert_eq!(Class::resolve(0x0D, 0x00, 0x00), Ok(Class::ContentSecurity));
    assert_eq!(Class::resolve(0x11, 0x00, 0x00), Ok(Class::Billboard));
    assert_eq!(Class::resolve(0x12, 0x00, 0x00), Ok(Class::TypeCBridge));
    assert_eq!(Class::resolve(0x3C, 0x00, 0x00), Ok(Class::I3CDevice));
}

#[test]
fn cdc_control_vendor_subclass_range() {
    // Every subclass byte in the vendor range decodes as VendorSpecific,
    // for every protocol code in the CDC Control protocol table.
    for sub in 0x80..=0xFFu8 {
        assert_eq!(
            Class::resolve(0x02, sub, 0x00),
            Ok(Class::CDCControl(
                CDCControlSubClass::VendorSpecific,
                CDCControlProtocol::USB
            ))
        );
    }
    for protocol in [0x00u8, 0x01, 0x02, 0x03, 0x04, 0x05, 0x06, 0x07, 0xFE, 0xFF] {
        assert!(matches!(
            Class::resolve(0x02, 0x80, protocol),
            Ok(Class::CDCControl(CDCControlSubClass::VendorSpecific, _))
        ));
    }
    // Just below the vendor range the table has a hole.
    assert_eq!(
        Class::resolve(0x02, 0x7F, 0x00),
        Err(USBParseError::UnknownSubClass(0x7F))
    );
}

#[test]
fn cdc_control_delegates_both_decoders() {
    assert_eq!(
        Class::resolve(0x02, 0x02, 0x01),
        Ok(Class::CDCControl(
            CDCControlSubClass::Abstract,
            CDCControlProtocol::V250
        ))
    );
    assert_eq!(
        Class::resolve(0x02, 0x00, 0x00),
        Err(USBParseError::UnknownSubClass(0x00))
    );
    assert_eq!(
        Class::resolve(0x02, 0x02, 0x08),
        Err(USBParseError::UnknownProtocol(0x08))
    );
}

#[test]
fn hid_table_resolves() {
    assert_eq!(
        Class::resolve(0x03, 0x00, 0x01),
        Ok(Class::HumanInterfaceDevice(HIDSubClass::Keyboard))
    );
    assert_eq!(
        Class::resolve(0x03, 0x00, 0x02),
        Ok(Class::HumanInterfaceDevice(HIDSubClass::Mouse))
    );
    assert_eq!(
        Class::resolve(0x03, 0x01, 0x00),
        Ok(Class::HumanInterfaceDevice(HIDSubClass::Boot))
    );
    assert_eq!(
        Class::resolve(0x03, 0x00, 0x03),
        Err(USBParseError::UnknownProtocol(0x03))
    );
    assert_eq!(
        Class::resolve(0x03, 0x01, 0x01),
        Err(USBParseError::UnknownProtocol(0x01))
    );
    assert_eq!(
        Class::resolve(0x03, 0x02, 0x00),
        Err(USBParseError::UnknownSubClass(0x02))
    );
}

#[test]
fn still_imaging_resolves() {
    assert_eq!(Class::resolve(0x06, 0x01, 0x01), Ok(Class::StillImaging));
    assert_eq!(
        Class::resolve(0x06, 0x01, 0x00),
        Err(USBParseError::UnknownProtocol(0x00))
    );
    assert_eq!(
        Class::resolve(0x06, 0x00, 0x01),
        Err(USBParseError::UnknownSubClass(0x00))
    );
}

// Suspect: the USB-IF table defines distinct protocol codes for the
// high-speed hub arrangements, but the modeled hub sub-table reaches only
// the full-speed variant from protocol code zero. This pins the reachable
// behavior until the sub-table is confirmed against the authoritative
// USB-IF document.
#[test]
fn hub_reachable_speed_is_full_speed() {
    assert_eq!(
        Class::resolve(0x09, 0x00, 0x00),
        Ok(Class::Hub(HubSpeed::FullSpeed))
    );
    assert_eq!(
        Class::resolve(0x09, 0x00, 0x01),
        Err(USBParseError::UnknownProtocol(0x01))
    );
    assert_eq!(
        Class::resolve(0x09, 0x00, 0x02),
        Err(USBParseError::UnknownProtocol(0x02))
    );
    assert_eq!(
        Class::resolve(0x09, 0x01, 0x00),
        Err(USBParseError::UnknownSubClass(0x01))
    );
}

#[test]
fn printer_table_resolves() {
    assert_eq!(
        Class::resolve(0x07, 0x01, 0x01),
        Ok(Class::Printer(PrinterProtocol::Unidirectional))
    );
    assert_eq!(
        Class::resolve(0x07, 0x01, 0x02),
        Ok(Class::Printer(PrinterProtocol::Bidirectional))
    );
    assert_eq!(
        Class::resolve(0x07, 0x01, 0x03),
        Ok(Class::Printer(PrinterProtocol::Bidirectional1284))
    );
    assert_eq!(
        Class::resolve(0x07, 0x01, 0xFF),
        Ok(Class::Printer(PrinterProtocol::VendorSpecific))
    );
    assert_eq!(
        Class::resolve(0x07, 0x01, 0x04),
        Err(USBParseError::UnknownProtocol(0x04))
    );
    assert_eq!(
        Class::resolve(0x07, 0x00, 0x01),
        Err(USBParseError::UnknownSubClass(0x00))
    );
}

#[test]
fn cdc_data_table_resolves() {
    assert_eq!(
        Class::resolve(0x0A, 0x00, 0x00),
        Ok(Class::CDCData(CDCDataProtocol::USB))
    );
    assert_eq!(
        Class::resolve(0x0A, 0x00, 0x31),
        Ok(Class::CDCData(CDCDataProtocol::HDLC))
    );
    assert_eq!(
        Class::resolve(0x0A, 0x00, 0xFE),
        Ok(Class::CDCData(CDCDataProtocol::Described))
    );
    assert_eq!(
        Class::resolve(0x0A, 0x00, 0x02),
        Err(USBParseError::UnknownProtocol(0x02))
    );
    assert_eq!(
        Class::resolve(0x0A, 0x01, 0x00),
        Err(USBParseError::UnknownSubClass(0x01))
    );
}

#[test]
fn smart_card_table_resolves() {
    assert_eq!(
        Class::resolve(0x0B, 0x00, 0x00),
        Ok(Class::SmartCard(SmartCardProtocol::Bulk))
    );
    assert_eq!(
        Class::resolve(0x0B, 0x00, 0x01),
        Ok(Class::SmartCard(SmartCardProtocol::ControlWithoutInterrupt))
    );
    assert_eq!(
        Class::resolve(0x0B, 0x00, 0x02),
        Ok(Class::SmartCard(SmartCardProtocol::ControlOptionalInterrupt))
    );
    assert_eq!(
        Class::resolve(0x0B, 0x00, 0x03),
        Err(USBParseError::UnknownProtocol(0x03))
    );
    assert_eq!(
        Class::resolve(0x0B, 0x01, 0x00),
        Err(USBParseError::UnknownSubClass(0x01))
    );
}

#[test]
fn video_table_resolves() {
    assert_eq!(
        Class::resolve(0x0E, 0x01, 0x01),
        Ok(Class::Video(VideoSubClass::Control))
    );
    assert_eq!(
        Class::resolve(0x0E, 0x02, 0x01),
        Ok(Class::Video(VideoSubClass::Streaming))
    );
    assert_eq!(
        Class::resolve(0x0E, 0x03, 0x01),
        Ok(Class::Video(VideoSubClass::InterfaceCollection))
    );
    assert_eq!(
        Class::resolve(0x0E, 0x01, 0x00),
        Err(USBParseError::UnknownProtocol(0x00))
    );
    assert_eq!(
        Class::resolve(0x0E, 0x04, 0x01),
        Err(USBParseError::UnknownSubClass(0x04))
    );
}

#[test]
fn audio_video_table_resolves() {
    assert_eq!(
        Class::resolve(0x10, 0x01, 0x00),
        Ok(Class::AudioVideo(AVSubClass::Control))
    );
    assert_eq!(
        Class::resolve(0x10, 0x02, 0x00),
        Ok(Class::AudioVideo(AVSubClass::VideoStreaming))
    );
    assert_eq!(
        Class::resolve(0x10, 0x03, 0x00),
        Ok(Class::AudioVideo(AVSubClass::AudioStreaming))
    );
    assert_eq!(
        Class::resolve(0x10, 0x01, 0x01),
        Err(USBParseError::UnknownProtocol(0x01))
    );
    assert_eq!(
        Class::resolve(0x10, 0x00, 0x00),
        Err(USBParseError::UnknownSubClass(0x00))
    );
}
