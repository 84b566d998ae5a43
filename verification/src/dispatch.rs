//! Request routing for the protocol information service.
//!
//! The dispatcher owns the descriptor data of the protocol information
//! service and its two characteristics (the service signature and the
//! protocol version). Given a decoded request it decides whether the
//! request targets this service or one of those characteristics and, for
//! the signature-read opcodes, synthesizes the framed response that the
//! caller must write into the signature characteristic's value slot.

use vstd::prelude::*;

use crate::tlv::{le_bytes_u16, spec_le16, spec_tlv_bytes, Tlv};
use crate::{
    spec_parse, spec_response_frame, HapPdu, HapRequest, HapResponse, HapStatus, OpCode,
};

verus! {

/// HAP characteristic property flag: readable without a secure session.
pub const HAP_PROP_READ: u16 = 0x1;

/// HAP characteristic property flag: writable without a secure session.
pub const HAP_PROP_WRITE: u16 = 0x2;

/// HAP characteristic property flag: additional authorization data.
pub const HAP_PROP_ADDITIONAL_AUTHORIZATION: u16 = 0x4;

/// HAP characteristic property flag: timed write procedure required.
pub const HAP_PROP_TIMED_WRITE: u16 = 0x8;

/// HAP characteristic property flag: readable over a secure session.
pub const HAP_PROP_SECURE_READ: u16 = 0x10;

/// HAP characteristic property flag: writable over a secure session.
pub const HAP_PROP_SECURE_WRITE: u16 = 0x20;

/// HAP characteristic property flag: hidden from users.
pub const HAP_PROP_HIDDEN: u16 = 0x40;

/// HAP characteristic property flag: notifies while connected.
pub const HAP_PROP_NOTIFY_CONNECTED: u16 = 0x80;

/// HAP characteristic property flag: notifies while disconnected.
pub const HAP_PROP_NOTIFY_DISCONNECTED: u16 = 0x100;

/// HAP characteristic property flag: broadcast notifications.
pub const HAP_PROP_NOTIFY_BROADCAST: u16 = 0x200;

/// GATT presentation format of a characteristic value.
#[derive(Debug, Copy, Clone, PartialEq, Eq, Structural)]
pub enum GattFormat {
    Bool,
    Uint8,
    Uint16,
    Uint32,
    Uint64,
    Int,
    Float,
    String,
    Data,
}

/// The wire value of a GATT format.
pub open spec fn spec_format_value(f: GattFormat) -> u8 {
    match f {
        GattFormat::Bool => 0x01,
        GattFormat::Uint8 => 0x04,
        GattFormat::Uint16 => 0x06,
        GattFormat::Uint32 => 0x08,
        GattFormat::Uint64 => 0x0a,
        GattFormat::Int => 0x10,
        GattFormat::Float => 0x14,
        GattFormat::String => 0x19,
        GattFormat::Data => 0x1b,
    }
}

impl GattFormat {
    /// The wire value of this format.
    pub fn value(&self) -> (v: u8)
        ensures
            v == spec_format_value(*self),
    {
        match self {
            GattFormat::Bool => 0x01,
            GattFormat::Uint8 => 0x04,
            GattFormat::Uint16 => 0x06,
            GattFormat::Uint32 => 0x08,
            GattFormat::Uint64 => 0x0a,
            GattFormat::Int => 0x10,
            GattFormat::Float => 0x14,
            GattFormat::String => 0x19,
            GattFormat::Data => 0x1b,
        }
    }
}

/// Unit of a characteristic value.
#[derive(Debug, Copy, Clone, PartialEq, Eq, Structural)]
pub enum Unit {
    Celsius,
    ArcDegrees,
    Percentage,
    Unitless,
    Lux,
    Seconds,
}

/// The 16-bit unit code of a unit.
pub open spec fn spec_unit_value(u: Unit) -> u16 {
    match u {
        Unit::Celsius => 0x272f,
        Unit::ArcDegrees => 0x2763,
        Unit::Percentage => 0x27ad,
        Unit::Unitless => 0x2700,
        Unit::Lux => 0x2731,
        Unit::Seconds => 0x2703,
    }
}

impl Unit {
    /// The 16-bit unit code of this unit.
    pub fn value(&self) -> (v: u16)
        ensures
            v == spec_unit_value(*self),
    {
        match self {
            Unit::Celsius => 0x272f,
            Unit::ArcDegrees => 0x2763,
            Unit::Percentage => 0x27ad,
            Unit::Unitless => 0x2700,
            Unit::Lux => 0x2731,
            Unit::Seconds => 0x2703,
        }
    }
}

impl Default for Unit {
    /// A characteristic without a stated unit is unitless.
    fn default() -> (u: Unit)
        ensures
            u == Unit::Unitless,
    {
        Unit::Unitless
    }
}

/// Descriptor data of one HAP characteristic, fixed at setup time: what a
/// signature-read response reports about it.
#[derive(Debug)]
pub struct CharacteristicDesc {
    /// Instance id, unique within the accessory.
    pub instance_id: u16,
    /// 128-bit characteristic type UUID.
    pub uuid: [u8; 16],
    /// HAP property flags, a bitwise-or of the `HAP_PROP` flags.
    pub properties: u16,
    /// GATT presentation format of the value.
    pub format: GattFormat,
    /// Unit of the value.
    pub unit: Unit,
}

/// The 7-byte GATT presentation descriptor of a characteristic: format
/// byte, two reserved bytes, little-endian 16-bit unit code, namespace
/// fixed to 1, one reserved byte.
pub open spec fn spec_gatt_format_bytes(c: CharacteristicDesc) -> Seq<u8> {
    seq![spec_format_value(c.format), 0u8, 0u8] + spec_le16(spec_unit_value(c.unit)) + seq![
        1u8,
        0u8,
    ]
}

/// The body answering a service signature read: a service-properties item
/// reporting "supports configuration" (0x0004) and an empty
/// linked-services item.
pub open spec fn spec_service_sig_body() -> Seq<u8> {
    spec_tlv_bytes(0x0f, spec_le16(0x0004)) + spec_tlv_bytes(0x10, Seq::<u8>::empty())
}

/// The body answering a characteristic signature read, in order: the
/// characteristic's type UUID, the owning service's instance id, the
/// owning service's type UUID, the characteristic's HAP property flags,
/// and its GATT presentation descriptor.
pub open spec fn spec_char_sig_body(svc: ProtocolService, c: CharacteristicDesc) -> Seq<u8> {
    spec_tlv_bytes(0x04, c.uuid@) + spec_tlv_bytes(0x07, spec_le16(svc.instance_id))
        + spec_tlv_bytes(0x06, svc.uuid@) + spec_tlv_bytes(0x0a, spec_le16(c.properties))
        + spec_tlv_bytes(0x0c, spec_gatt_format_bytes(c))
}

/// What handling one incoming attribute write amounts to.
#[derive(Debug)]
pub enum DispatchOutcome {
    /// Write these framed response bytes into the signature
    /// characteristic's value slot.
    Write(Vec<u8>),
    /// The request is not for this dispatcher or asks for an operation it
    /// does not implement; drop it without side effects.
    Ignored,
    /// A characteristic signature read named an instance id that no owned
    /// characteristic has.
    UnknownCharacteristic,
}

/// The outcome `r` is the one the dispatcher owes for request `req`:
/// a service signature read addressed to the service answers with the
/// fixed service body; a characteristic signature read addressed to an
/// owned characteristic answers with that characteristic's body (the
/// signature characteristic is matched first); every other combination
/// produces no write.
pub open spec fn spec_dispatch_outcome(
    svc: ProtocolService,
    req: HapRequest,
    r: DispatchOutcome,
) -> bool {
    if req.op_code == OpCode::ServiceSignatureRead {
        if req.char_id == svc.instance_id {
            r matches DispatchOutcome::Write(frame) && frame@ == spec_response_frame(
                req.tid,
                HapStatus::Success,
                spec_service_sig_body(),
            )
        } else {
            r is Ignored
        }
    } else if req.op_code == OpCode::CharacteristicSignatureRead {
        if req.char_id == svc.signature.instance_id {
            r matches DispatchOutcome::Write(frame) && frame@ == spec_response_frame(
                req.tid,
                HapStatus::Success,
                spec_char_sig_body(svc, svc.signature),
            )
        } else if req.char_id == svc.version.instance_id {
            r matches DispatchOutcome::Write(frame) && frame@ == spec_response_frame(
                req.tid,
                HapStatus::Success,
                spec_char_sig_body(svc, svc.version),
            )
        } else {
            r is UnknownCharacteristic
        }
    } else {
        r is Ignored
    }
}

/// Descriptor data of the protocol information service and its two
/// characteristics, fixed at setup time.
#[derive(Debug)]
pub struct ProtocolService {
    /// 128-bit service type UUID.
    pub uuid: [u8; 16],
    /// Instance id of the service itself.
    pub instance_id: u16,
    /// The service signature characteristic; signature-read responses are
    /// written into its value slot.
    pub signature: CharacteristicDesc,
    /// The protocol version characteristic.
    pub version: CharacteristicDesc,
}

impl ProtocolService {
    /// The 7-byte GATT presentation descriptor of `c`.
    fn gatt_format_bytes(c: &CharacteristicDesc) -> (v: Vec<u8>)
        ensures
            v@ == spec_gatt_format_bytes(*c),
            v@.len() == 7,
    {
        let unit = c.unit.value();
        let mut v: Vec<u8> = Vec::new();
        v.push(c.format.value());
        v.push(0);
        v.push(0);
        v.push((unit % 256) as u8);
        v.push((unit / 256) as u8);
        v.push(1);
        v.push(0);
        proof {
            assert(v@ =~= spec_gatt_format_bytes(*c));
        }
        v
    }

    /// Build the body of a characteristic signature read response for the
    /// owned characteristic `c`.
    fn build_characteristic_sig_body(&self, c: &CharacteristicDesc) -> (body: Vec<u8>)
        ensures
            body@ == spec_char_sig_body(*self, *c),
            body@.len() == 53,
    {
        let mut body: Vec<u8> = vec![0u8; 53];
        let mut offset: usize = 0;

        let characteristic_uuid = Tlv::new(0x04, c.uuid.as_slice());
        let service_uuid = Tlv::new(0x06, self.uuid.as_slice());

        let ghost t1 = spec_tlv_bytes(0x04, c.uuid@);
        let ghost t2 = spec_tlv_bytes(0x07, spec_le16(self.instance_id));
        let ghost t3 = spec_tlv_bytes(0x06, self.uuid@);
        let ghost t4 = spec_tlv_bytes(0x0a, spec_le16(c.properties));
        let ghost t5 = spec_tlv_bytes(0x0c, spec_gatt_format_bytes(*c));

        // characteristic type
        offset += characteristic_uuid.write_into(body.as_mut_slice(), offset);
        proof {
            assert(body@.subrange(0, 18) =~= t1);
        }

        // service id
        let service_iid = le_bytes_u16(self.instance_id);
        offset += Tlv::new(0x07, service_iid.as_slice()).write_into(body.as_mut_slice(), offset);
        proof {
            assert(body@.subrange(0, 22) =~= t1 + t2);
        }

        // service type
        offset += service_uuid.write_into(body.as_mut_slice(), offset);
        proof {
            assert(body@.subrange(0, 40) =~= t1 + t2 + t3);
        }

        // properties
        let props = le_bytes_u16(c.properties);
        offset += Tlv::new(0x0a, props.as_slice()).write_into(body.as_mut_slice(), offset);
        proof {
            assert(body@.subrange(0, 44) =~= t1 + t2 + t3 + t4);
        }

        // GATT presentation format
        let gatt_format = Self::gatt_format_bytes(c);
        offset += Tlv::new(0x0c, gatt_format.as_slice()).write_into(body.as_mut_slice(), offset);
        proof {
            assert(body@ =~= t1 + t2 + t3 + t4 + t5);
        }

        body
    }

    /// Frame a success response carrying `body` for transaction id `tid`.
    fn frame_success_response(tid: u8, body: &Vec<u8>) -> (frame: Vec<u8>)
        requires
            body@.len() <= 65535,
        ensures
            frame@ == spec_response_frame(tid, HapStatus::Success, body@),
    {
        let response = HapResponse::new(tid, HapStatus::Success, body.as_slice());
        let size = response.size();
        let mut frame: Vec<u8> = vec![0u8; size];
        let result = response.write_into(frame.as_mut_slice());
        proof {
            assert(result is Ok);
            assert(frame@ =~= frame@.subrange(0, frame@.len() as int));
        }
        frame
    }

    /// Decide what an incoming request addressed to this dispatcher
    /// amounts to, and build the response bytes where one is owed.
    pub fn dispatch(&self, req: &HapRequest) -> (r: DispatchOutcome)
        ensures
            spec_dispatch_outcome(*self, *req, r),
    {
        match req.op_code {
            OpCode::ServiceSignatureRead => {
                // Read of the protocol service signature: only when the
                // request names this service's own instance id.
                if req.char_id == self.instance_id {
                    // This service supports configuration (0x0004) and
                    // links to no other service.
                    let response_data: Vec<u8> = vec![0x0f, 0x02, 0x04, 0x00, 0x10, 0x00];
                    proof {
                        assert(response_data@ =~= spec_service_sig_body());
                    }
                    let frame = Self::frame_success_response(req.tid, &response_data);
                    DispatchOutcome::Write(frame)
                } else {
                    DispatchOutcome::Ignored
                }
            },
            OpCode::CharacteristicSignatureRead => {
                let characteristic = if req.char_id == self.signature.instance_id {
                    &self.signature
                } else if req.char_id == self.version.instance_id {
                    &self.version
                } else {
                    // The request names a characteristic this service
                    // does not own.
                    return DispatchOutcome::UnknownCharacteristic;
                };

                let body = self.build_characteristic_sig_body(characteristic);
                let frame = Self::frame_success_response(req.tid, &body);
                DispatchOutcome::Write(frame)
            },
            // Other opcodes are not implemented by this dispatcher.
            _ => DispatchOutcome::Ignored,
        }
    }

    /// Handle the payload of one attribute write: parse it and dispatch
    /// the request. A payload that does not parse into a request is
    /// dropped without side effects.
    pub fn handle_attribute_modified(&self, data: &[u8]) -> (r: DispatchOutcome)
        ensures
            (match spec_parse(data@) {
                Ok(req) => spec_dispatch_outcome(*self, req, r),
                Err(_) => r is Ignored,
            }),
    {
        match HapPdu::parse(data) {
            Ok(HapPdu::Request(request)) => self.dispatch(&request),
            _ => DispatchOutcome::Ignored,
        }
    }
}

} // verus!
