//! HomeKit Accessory Protocol (HAP) PDUs carried over Bluetooth LE GATT
//! attribute writes and reads: parsing of request PDUs, framing of response
//! PDUs, and dispatch of signature-read requests for the protocol
//! information service.

use vstd::prelude::*;

pub mod tlv;
pub mod dispatch;

verus! {

/// Errors reported by the PDU codec.
#[derive(Debug, Copy, Clone, PartialEq, Eq, Structural)]
pub enum Error {
    /// The buffer is shorter than the minimum required for the structure
    /// being parsed.
    BadLength,
    /// The control byte asks for a PDU kind this codec does not handle:
    /// reserved bits set, a response, or a continuation fragment. Carries
    /// the three control-byte bits above the least-significant bit.
    UnsupportedPduType(u8),
    /// The opcode byte is outside the closed set of HAP operations.
    UnknownOpCode(u8),
    /// Framing a response needs more space than the caller provided.
    InsufficientBuffer,
}

/// HAP opcode: the operation a request PDU asks for.
#[derive(Debug, Copy, Clone, PartialEq, Eq, Structural)]
pub enum OpCode {
    CharacteristicSignatureRead,
    CharacteristicWrite,
    CharacteristicRead,
    CharacteristicTimedWrite,
    CharacteristicExecuteWrite,
    ServiceSignatureRead,
    CharacteristicConfiguration,
    ProtocolConfiguration,
}

/// The wire value of an opcode.
pub open spec fn spec_opcode_value(op: OpCode) -> u8 {
    match op {
        OpCode::CharacteristicSignatureRead => 1,
        OpCode::CharacteristicWrite => 2,
        OpCode::CharacteristicRead => 3,
        OpCode::CharacteristicTimedWrite => 4,
        OpCode::CharacteristicExecuteWrite => 5,
        OpCode::ServiceSignatureRead => 6,
        OpCode::CharacteristicConfiguration => 7,
        OpCode::ProtocolConfiguration => 8,
    }
}

/// The opcode a wire value stands for; meaningful for values 1 through 8.
pub open spec fn spec_opcode_of(v: u8) -> OpCode {
    if v == 1 {
        OpCode::CharacteristicSignatureRead
    } else if v == 2 {
        OpCode::CharacteristicWrite
    } else if v == 3 {
        OpCode::CharacteristicRead
    } else if v == 4 {
        OpCode::CharacteristicTimedWrite
    } else if v == 5 {
        OpCode::CharacteristicExecuteWrite
    } else if v == 6 {
        OpCode::ServiceSignatureRead
    } else if v == 7 {
        OpCode::CharacteristicConfiguration
    } else {
        OpCode::ProtocolConfiguration
    }
}

impl OpCode {
    /// Decode an opcode byte; every byte outside 1 through 8 is rejected.
    pub fn try_from(value: u8) -> (r: Result<OpCode, Error>)
        ensures
            1 <= value <= 8 ==> r == Ok::<OpCode, Error>(spec_opcode_of(value)),
            !(1 <= value <= 8) ==> r == Err::<OpCode, Error>(Error::UnknownOpCode(value)),
    {
        let op_code = match value {
            1 => OpCode::CharacteristicSignatureRead,
            2 => OpCode::CharacteristicWrite,
            3 => OpCode::CharacteristicRead,
            4 => OpCode::CharacteristicTimedWrite,
            5 => OpCode::CharacteristicExecuteWrite,
            6 => OpCode::ServiceSignatureRead,
            7 => OpCode::CharacteristicConfiguration,
            8 => OpCode::ProtocolConfiguration,
            other => {
                return Err(Error::UnknownOpCode(other));
            },
        };
        Ok(op_code)
    }

    /// The wire value of this opcode.
    pub fn value(&self) -> (v: u8)
        ensures
            v == spec_opcode_value(*self),
    {
        match self {
            OpCode::CharacteristicSignatureRead => 1,
            OpCode::CharacteristicWrite => 2,
            OpCode::CharacteristicRead => 3,
            OpCode::CharacteristicTimedWrite => 4,
            OpCode::CharacteristicExecuteWrite => 5,
            OpCode::ServiceSignatureRead => 6,
            OpCode::CharacteristicConfiguration => 7,
            OpCode::ProtocolConfiguration => 8,
        }
    }
}

/// Fragmentation state selected by bit 7 of the control byte.
#[derive(Debug, Copy, Clone, PartialEq, Eq, Structural)]
pub enum Fragmented {
    First,
    Continuation,
}

/// Width of the instance-id field, selected by bit 4 of the control byte.
#[derive(Debug, Copy, Clone, PartialEq, Eq, Structural)]
pub enum IidSize {
    Bit16,
    Bit64,
}

/// PDU direction, selected by bit 1 of the control byte.
#[derive(Debug, Copy, Clone, PartialEq, Eq, Structural)]
pub enum PduType {
    Request,
    Response,
}

/// HAP response status.
#[derive(Debug, Copy, Clone, PartialEq, Eq, Structural)]
pub enum HapStatus {
    Success,
    UnsupportedPdu,
    MaxProcedures,
    InsufficientAuthorization,
    InvalidInstanceId,
    InsufficientAuthentication,
    InvalidRequest,
}

/// The wire value of a status code.
pub open spec fn spec_status_value(s: HapStatus) -> u8 {
    match s {
        HapStatus::Success => 0,
        HapStatus::UnsupportedPdu => 1,
        HapStatus::MaxProcedures => 2,
        HapStatus::InsufficientAuthorization => 3,
        HapStatus::InvalidInstanceId => 4,
        HapStatus::InsufficientAuthentication => 5,
        HapStatus::InvalidRequest => 6,
    }
}

impl HapStatus {
    /// The wire value of this status.
    pub fn value(&self) -> (v: u8)
        ensures
            v == spec_status_value(*self),
    {
        match self {
            HapStatus::Success => 0,
            HapStatus::UnsupportedPdu => 1,
            HapStatus::MaxProcedures => 2,
            HapStatus::InsufficientAuthorization => 3,
            HapStatus::InvalidInstanceId => 4,
            HapStatus::InsufficientAuthentication => 5,
            HapStatus::InvalidRequest => 6,
        }
    }
}

/// A decoded HAP request: the header fields of a request PDU.
///
/// A value of this type only comes out of a buffer whose control byte marks
/// a first (unfragmented) fragment of a request with all reserved bits
/// zero; every other control byte is a parse failure. The request body is
/// not decoded here and is always absent.
#[derive(Debug)]
pub struct HapRequest {
    /// Width of instance ids announced by the control byte (recorded, not
    /// consumed by header parsing).
    pub iid_size: IidSize,
    /// The operation requested.
    pub op_code: OpCode,
    /// Transaction id, echoed back verbatim in the response.
    pub tid: u8,
    /// Instance id of the addressed characteristic or service.
    pub char_id: u16,
    /// Request body; always absent, body decoding is out of scope.
    pub data: Option<Vec<u8>>,
}

/// What parsing a raw attribute-write payload yields, byte for byte.
///
/// The control byte is accepted when bit 7 (continuation) and bits 1
/// through 3 (response flag and reserved bits) are all zero; bit 4 picks
/// the instance-id width. After it, at least four bytes must follow:
/// opcode, transaction id, and a little-endian 16-bit instance id.
pub open spec fn spec_parse(data: Seq<u8>) -> Result<HapRequest, Error> {
    if data.len() < 1 {
        Err(Error::BadLength)
    } else {
        let c = data[0];
        if c & 0x80 != 0 || c & 0x0e != 0 {
            Err(Error::UnsupportedPduType((c & 0x0e) >> 1))
        } else if data.len() < 5 {
            Err(Error::BadLength)
        } else if !(1 <= data[1] <= 8) {
            Err(Error::UnknownOpCode(data[1]))
        } else {
            Ok(
                HapRequest {
                    iid_size: if c & 0x10 != 0 {
                        IidSize::Bit64
                    } else {
                        IidSize::Bit16
                    },
                    op_code: spec_opcode_of(data[1]),
                    tid: data[2],
                    char_id: (data[3] + 256 * data[4]) as u16,
                    data: None,
                },
            )
        }
    }
}

/// For every buffer of at least five bytes whose control byte marks a
/// first fragment of a request with the reserved bits zero and whose
/// opcode byte names a known operation, parsing succeeds and recovers
/// exactly the opcode, transaction id, and instance id the buffer
/// encodes.
pub proof fn lemma_parse_recovers_request(data: Seq<u8>)
    requires
        data.len() >= 5,
        data[0] & 0x80 == 0,
        data[0] & 0x0e == 0,
        1 <= data[1] <= 8,
    ensures
        spec_parse(data) matches Ok(req) && {
            &&& req.op_code == spec_opcode_of(data[1])
            &&& spec_opcode_value(req.op_code) == data[1]
            &&& req.tid == data[2]
            &&& req.char_id == data[3] + 256 * data[4]
        },
{
}

/// For every buffer whose control byte has bit 2 or bit 3 set, parsing
/// fails with `UnsupportedPduType` carrying bits 1 through 3 of the
/// control byte.
pub proof fn lemma_parse_rejects_reserved_bits(data: Seq<u8>)
    requires
        data.len() >= 1,
        data[0] & 0x0c != 0,
    ensures
        spec_parse(data) == Err::<HapRequest, Error>(
            Error::UnsupportedPduType((data[0] & 0x0e) >> 1),
        ),
{
    let c = data[0];
    assert(c & 0x0c != 0 ==> c & 0x0e != 0) by (bit_vector);
}

/// For every buffer long enough for a request header but whose opcode
/// byte is outside the closed set, parsing fails with `UnknownOpCode`
/// carrying the offending byte.
pub proof fn lemma_parse_rejects_unknown_opcode(data: Seq<u8>)
    requires
        data.len() >= 5,
        data[0] & 0x80 == 0,
        data[0] & 0x0e == 0,
        !(1 <= data[1] <= 8),
    ensures
        spec_parse(data) == Err::<HapRequest, Error>(Error::UnknownOpCode(data[1])),
{
}

/// A HAP protocol data unit: either a request or a response.
///
/// Response decoding is out of scope for this request-only transport, so
/// `parse` never yields the `Response` variant.
#[derive(Debug)]
pub enum HapPdu<'a> {
    Request(HapRequest),
    Response(HapResponse<'a>),
}

impl HapPdu<'_> {
    /// Decode a raw buffer into a request PDU.
    ///
    /// A continuation fragment, a response, and a control byte with
    /// reserved bits set are each rejected with `UnsupportedPduType`
    /// carrying bits 1 through 3 of the control byte; a buffer too short
    /// for the structure is rejected with `BadLength`, an opcode outside
    /// the closed set with `UnknownOpCode`.
    pub fn parse(data: &[u8]) -> (r: Result<HapPdu<'_>, Error>)
        ensures
            (match spec_parse(data@) {
                Ok(req) => r == Ok::<HapPdu<'_>, Error>(HapPdu::Request(req)),
                Err(e) => r == Err::<HapPdu<'_>, Error>(e),
            }),
    {
        // We need at least 1 byte for the control field
        if data.len() < 1 {
            return Err(Error::BadLength);
        }
        let control_field = data[0];

        proof {
            let c = control_field;
            assert(c & 0x0c != 0 ==> c & 0x0e != 0) by (bit_vector);
            assert(c & 0x02 != 0 ==> c & 0x0e != 0) by (bit_vector);
            assert(c & 0x0c == 0 && c & 0x02 == 0 ==> c & 0x0e == 0) by (bit_vector);
        }

        let fragmented = if control_field & 0x80 != 0 {
            Fragmented::Continuation
        } else {
            Fragmented::First
        };

        let iid_size = if control_field & 0x10 != 0 {
            IidSize::Bit64
        } else {
            IidSize::Bit16
        };

        let request_type = if control_field & 0x02 != 0 {
            PduType::Response
        } else {
            PduType::Request
        };

        // Reassembly of continuation fragments is out of scope; reject
        // them as an unsupported PDU kind rather than misparse them.
        if fragmented == Fragmented::Continuation {
            return Err(Error::UnsupportedPduType((control_field & 0x0e) >> 1));
        }

        // Check for reserved values in the PDU type bits.
        if control_field & 0x0c != 0 {
            // Unsupported type of PDU.
            return Err(Error::UnsupportedPduType((control_field & 0x0e) >> 1));
        }

        match request_type {
            PduType::Request => {
                match HapRequest::parse_after_control(&data[1..data.len()], iid_size) {
                    Ok(req) => Ok(HapPdu::Request(req)),
                    Err(e) => Err(e),
                }
            },
            // Response decoding is out of scope for this request-only
            // transport; reject it rather than return wrong data.
            PduType::Response => Err(Error::UnsupportedPduType((control_field & 0x0e) >> 1)),
        }
    }
}

impl HapRequest {
    /// Decode the request header that follows the control byte: opcode,
    /// transaction id, and little-endian 16-bit instance id.
    fn parse_after_control(data: &[u8], iid_size: IidSize) -> (r: Result<HapRequest, Error>)
        ensures
            data@.len() < 4 ==> r == Err::<HapRequest, Error>(Error::BadLength),
            data@.len() >= 4 && !(1 <= data@[0] <= 8) ==> r == Err::<HapRequest, Error>(
                Error::UnknownOpCode(data@[0]),
            ),
            data@.len() >= 4 && 1 <= data@[0] <= 8 ==> r == Ok::<HapRequest, Error>(
                HapRequest {
                    iid_size,
                    op_code: spec_opcode_of(data@[0]),
                    tid: data@[1],
                    char_id: (data@[2] + 256 * data@[3]) as u16,
                    data: None,
                },
            ),
    {
        // The request header is at least 4 bytes (excluding the control
        // field).
        if data.len() < 4 {
            return Err(Error::BadLength);
        }

        let op_code = match OpCode::try_from(data[0]) {
            Ok(op) => op,
            Err(e) => {
                return Err(e);
            },
        };

        let tid = data[1];

        let char_id: u16 = data[2] as u16 + (data[3] as u16) * 256;

        Ok(HapRequest { iid_size, op_code, tid, char_id, data: None })
    }
}

/// A HAP response PDU, held just long enough to be serialized.
#[derive(Debug)]
pub struct HapResponse<'a> {
    /// Transaction id of the request being answered.
    pub tid: u8,
    /// Outcome reported to the requester.
    pub status: HapStatus,
    /// Response body; at most 65535 bytes, the width of the length field.
    pub data: &'a [u8],
}

/// Number of bytes a framed response occupies: control byte, transaction
/// id and status, then, only if the body is non-empty, two length bytes
/// and the body itself.
pub open spec fn spec_response_size(body_len: nat) -> nat {
    if body_len == 0 {
        3
    } else {
        body_len + 5
    }
}

/// The framed bytes of a response: the control byte fixed to 2 (first
/// fragment, response), the transaction id, the status value, and for a
/// non-empty body its little-endian 16-bit length followed by its bytes.
pub open spec fn spec_response_frame(tid: u8, status: HapStatus, body: Seq<u8>) -> Seq<u8>
    recommends
        body.len() <= 65535,
{
    if body.len() == 0 {
        seq![2u8, tid, spec_status_value(status)]
    } else {
        seq![
            2u8,
            tid,
            spec_status_value(status),
            (body.len() % 256) as u8,
            (body.len() / 256) as u8,
        ] + body
    }
}

/// A framed response is as long as `spec_response_size` says; its first
/// three bytes are the fixed control byte, the transaction id, and the
/// status value; and a non-empty body follows its own little-endian
/// 16-bit length. With `write_into`, this pins down every byte a
/// response write produces in a buffer of exactly `size()` bytes.
pub proof fn lemma_response_frame_layout(tid: u8, status: HapStatus, body: Seq<u8>)
    requires
        body.len() <= 65535,
    ensures
        ({
            let frame = spec_response_frame(tid, status, body);
            &&& frame.len() == spec_response_size(body.len())
            &&& frame[0] == 2
            &&& frame[1] == tid
            &&& frame[2] == spec_status_value(status)
            &&& body.len() > 0 ==> {
                &&& frame[3] == body.len() % 256
                &&& frame[4] == body.len() / 256
                &&& frame.skip(5) == body
            }
        }),
{
    let frame = spec_response_frame(tid, status, body);
    if body.len() > 0 {
        assert(frame.skip(5) =~= body);
    }
}

impl<'a> HapResponse<'a> {
    /// Build a response for transaction id `tid` carrying `status` and the
    /// body `data`.
    pub fn new(tid: u8, status: HapStatus, data: &'a [u8]) -> (r: HapResponse<'a>)
        requires
            data@.len() <= 65535,
        ensures
            r.tid == tid,
            r.status == status,
            r.data@ == data@,
    {
        HapResponse { tid, status, data }
    }

    /// Write the response into a buffer.
    ///
    /// When the buffer is shorter than `size()` the write fails with
    /// `InsufficientBuffer` and leaves the buffer untouched; otherwise the
    /// first `size()` bytes become the framed response and the rest of the
    /// buffer keeps its contents.
    pub fn write_into(&self, buffer: &mut [u8]) -> (r: Result<(), Error>)
        requires
            self.data@.len() <= 65535,
        ensures
            old(buffer)@.len() < spec_response_size(self.data@.len()) ==> {
                &&& r == Err::<(), Error>(Error::InsufficientBuffer)
                &&& final(buffer)@ == old(buffer)@
            },
            old(buffer)@.len() >= spec_response_size(self.data@.len()) ==> {
                &&& r == Ok::<(), Error>(())
                &&& final(buffer)@.len() == old(buffer)@.len()
                &&& final(buffer)@.subrange(0, spec_response_size(self.data@.len()) as int)
                    == spec_response_frame(self.tid, self.status, self.data@)
                &&& final(buffer)@.skip(spec_response_size(self.data@.len()) as int)
                    == old(buffer)@.skip(spec_response_size(self.data@.len()) as int)
            },
    {
        if self.size() > buffer.len() {
            return Err(Error::InsufficientBuffer);
        }

        // Control field fixed to 2: first fragment, response, 16-bit ids.
        buffer[0] = 2;
        buffer[1] = self.tid;
        buffer[2] = self.status.value();

        let n = self.data.len();
        if n > 0 {
            buffer[3] = (n % 256) as u8;
            buffer[4] = (n / 256) as u8;

            let mut i: usize = 0;
            while i < n
                invariant
                    0 <= i <= n,
                    n == self.data@.len(),
                    n <= 65535,
                    n + 5 <= buffer@.len(),
                    n + 5 <= usize::MAX,
                    buffer@.len() == old(buffer)@.len(),
                    buffer@[0] == 2u8,
                    buffer@[1] == self.tid,
                    buffer@[2] == spec_status_value(self.status),
                    buffer@[3] == (n % 256) as u8,
                    buffer@[4] == (n / 256) as u8,
                    forall|j: int| 0 <= j < i ==> buffer@[5 + j] == self.data@[j],
                    forall|j: int|
                        5 + i <= j < buffer@.len() ==> buffer@[j] == old(buffer)@[j],
                decreases n - i,
            {
                buffer[5 + i] = self.data[i];
                i += 1;
            }
            proof {
                assert(buffer@.subrange(0, (n + 5) as int) =~= spec_response_frame(
                    self.tid,
                    self.status,
                    self.data@,
                ));
                assert(buffer@.skip((n + 5) as int) =~= old(buffer)@.skip((n + 5) as int));
            }
        } else {
            proof {
                assert(buffer@.subrange(0, 3) =~= spec_response_frame(
                    self.tid,
                    self.status,
                    self.data@,
                ));
                assert(buffer@.skip(3) =~= old(buffer)@.skip(3));
            }
        }

        Ok(())
    }

    /// Calculate the size of the framed response in bytes; same formula as
    /// `write_into`, so callers can size their buffer beforehand.
    pub fn size(&self) -> (n: usize)
        requires
            self.data@.len() <= 65535,
        ensures
            n == spec_response_size(self.data@.len()),
    {
        // Header consists of control field, TID, and status.
        let header_len: usize = 3;

        // The body is optional; when present it is preceded by its
        // two-byte length.
        let body_len: usize = if self.data.len() > 0 {
            self.data.len() + 2
        } else {
            0
        };

        header_len + body_len
    }
}

} // verus!
