use homekit_ble::dispatch::{
    CharacteristicDesc, DispatchOutcome, GattFormat, ProtocolService, Unit, HAP_PROP_SECURE_READ,
};

const SERVICE_UUID: [u8; 16] = [
    0x91, 0x52, 0x76, 0xbb, 0x26, 0x00, 0x00, 0x80, 0x00, 0x10, 0x00, 0x00, 0xa2, 0x00, 0x00,
    0x00,
];
const SIGNATURE_UUID: [u8; 16] = [
    0x91, 0x52, 0x76, 0xbb, 0x26, 0x00, 0x00, 0x80, 0x00, 0x10, 0x00, 0x00, 0xa5, 0x00, 0x00,
    0x00,
];
const VERSION_UUID: [u8; 16] = [
    0x91, 0x52, 0x76, 0xbb, 0x26, 0x00, 0x00, 0x80, 0x00, 0x10, 0x00, 0x00, 0x37, 0x00, 0x00,
    0x00,
];

fn protocol_service() -> ProtocolService {
    ProtocolService {
        uuid: SERVICE_UUID,
        instance_id: 0x10,
        signature: CharacteristicDesc {
            instance_id: 0x11,
            uuid: SIGNATURE_UUID,
            properties: HAP_PROP_SECURE_READ,
            format: GattFormat::Data,
            unit: Unit::Unitless,
        },
        version: CharacteristicDesc {
            instance_id: 0x12,
            uuid: VERSION_UUID,
            properties: HAP_PROP_SECURE_READ,
            format: GattFormat::String,
            unit: Unit::Unitless,
        },
    }
}

#[test]
fn service_signature_read_writes_fixed_body() {
    let service = protocol_service();

    // Opcode 6 (service signature read), transaction id 1, instance id
    // 0x0010: addressed to the service itself.
    let outcome = service.handle_attribute_modified(&[0, 6, 1, 0x10, 0]);

    match outcome {
        DispatchOutcome::Write(frame) => {
            // Exactly one write: control byte 2, transaction id, success,
            // 6-byte body length, then the fixed signature body.
            assert_eq!(
                frame,
                vec![2, 1, 0, 6, 0, 0x0f, 0x02, 0x04, 0x00, 0x10, 0x00]
            );
        }
        other => panic!("Expected a write, got {:?}", other),
    }
}

#[test]
fn service_signature_read_for_other_id_is_ignored() {
    let service = protocol_service();

    let outcome = service.handle_attribute_modified(&[0, 6, 1, 0x99, 0]);

    assert!(matches!(outcome, DispatchOutcome::Ignored));
}

#[test]
fn characteristic_signature_read_unknown_id_writes_nothing() {
    let service = protocol_service();

    // Opcode 1 (characteristic signature read) addressed to 0x0055, which
    // is neither the signature nor the version characteristic.
    let outcome = service.handle_attribute_modified(&[0, 1, 1, 0x55, 0]);

    assert!(matches!(outcome, DispatchOutcome::UnknownCharacteristic));
}

#[test]
fn characteristic_signature_read_builds_full_body() {
    let service = protocol_service();

    // Characteristic signature read of the signature characteristic
    // (instance id 0x0011), transaction id 0x2a.
    let outcome = service.handle_attribute_modified(&[0, 1, 0x2a, 0x11, 0]);

    let mut expected = vec![2u8, 0x2a, 0, 53, 0];
    // Characteristic type UUID.
    expected.extend_from_slice(&[0x04, 16]);
    expected.extend_from_slice(&SIGNATURE_UUID);
    // Owning service instance id.
    expected.extend_from_slice(&[0x07, 2, 0x10, 0x00]);
    // Owning service type UUID.
    expected.extend_from_slice(&[0x06, 16]);
    expected.extend_from_slice(&SERVICE_UUID);
    // HAP properties (secure read).
    expected.extend_from_slice(&[0x0a, 2, 0x10, 0x00]);
    // GATT presentation descriptor: opaque data, unitless, namespace 1.
    expected.extend_from_slice(&[0x0c, 7, 0x1b, 0, 0, 0x00, 0x27, 1, 0]);

    match outcome {
        DispatchOutcome::Write(frame) => assert_eq!(frame, expected),
        other => panic!("Expected a write, got {:?}", other),
    }
}

#[test]
fn version_characteristic_signature_uses_its_own_uuid() {
    let service = protocol_service();

    let outcome = service.handle_attribute_modified(&[0, 1, 2, 0x12, 0]);

    match outcome {
        DispatchOutcome::Write(frame) => {
            assert_eq!(frame.len(), 58);
            // The first TLV item carries the version characteristic's UUID.
            assert_eq!(frame[5], 0x04);
            assert_eq!(frame[6], 16);
            assert_eq!(&frame[7..23], &VERSION_UUID);
            // Its format byte is the string format, and the namespace
            // byte of the presentation descriptor is 1.
            assert_eq!(frame[51], 0x19);
            assert_eq!(frame[56], 1);
        }
        other => panic!("Expected a write, got {:?}", other),
    }
}

#[test]
fn unparseable_payload_is_dropped() {
    let service = protocol_service();

    // Too short for a request header.
    assert!(matches!(
        service.handle_attribute_modified(&[0, 6]),
        DispatchOutcome::Ignored
    ));
    // Reserved control bits set.
    assert!(matches!(
        service.handle_attribute_modified(&[0x0c, 6, 1, 0x10, 0]),
        DispatchOutcome::Ignored
    ));
}

#[test]
fn unimplemented_opcodes_are_ignored() {
    let service = protocol_service();

    // Characteristic write (opcode 2) addressed to an owned
    // characteristic is not implemented by this dispatcher.
    assert!(matches!(
        service.handle_attribute_modified(&[0, 2, 1, 0x11, 0]),
        DispatchOutcome::Ignored
    ));
}

#[test]
fn unit_and_format_wire_values() {
    assert_eq!(Unit::default(), Unit::Unitless);
    assert_eq!(Unit::Unitless.value(), 0x2700);
    assert_eq!(Unit::Celsius.value(), 0x272f);
    assert_eq!(Unit::Seconds.value(), 0x2703);
    assert_eq!(GattFormat::Bool.value(), 0x01);
    assert_eq!(GattFormat::Data.value(), 0x1b);
    assert_eq!(GattFormat::String.value(), 0x19);
}
