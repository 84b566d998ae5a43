//! Type-length-value item encoding.
//!
//! A TLV item is one type byte, one length byte (0 through 255), and that
//! many value bytes. Items are written back to back into one buffer to
//! form composite response bodies.

use vstd::prelude::*;

verus! {

/// The encoded bytes of a TLV item: type, length, value.
pub open spec fn spec_tlv_bytes(tlv_type: u8, value: Seq<u8>) -> Seq<u8>
    recommends
        value.len() <= 255,
{
    seq![tlv_type, value.len() as u8] + value
}

/// The little-endian bytes of a 16-bit unsigned integer.
pub open spec fn spec_le16(v: u16) -> Seq<u8> {
    seq![(v % 256) as u8, (v / 256) as u8]
}

/// Encode a 16-bit unsigned integer as its little-endian bytes, the form
/// an integer-valued TLV item carries.
pub fn le_bytes_u16(v: u16) -> (r: [u8; 2])
    ensures
        r@ == spec_le16(v),
{
    let r = [(v % 256) as u8, (v / 256) as u8];
    proof {
        assert(r@ =~= spec_le16(v));
    }
    r
}

/// A single TLV item: a type byte and a value of at most 255 bytes, the
/// most a one-byte length field can announce. Longer values cannot be
/// represented and must not be constructed.
pub struct Tlv<'a> {
    /// The type byte.
    pub tlv_type: u8,
    /// The value bytes.
    pub value: &'a [u8],
}

impl<'a> Tlv<'a> {
    /// Build a TLV item of type `tlv_type` carrying `value`.
    pub fn new(tlv_type: u8, value: &'a [u8]) -> (t: Tlv<'a>)
        requires
            value@.len() <= 255,
        ensures
            t.tlv_type == tlv_type,
            t.value@ == value@,
    {
        Tlv { tlv_type, value }
    }

    /// Number of bytes the encoded item occupies.
    pub fn size(&self) -> (n: usize)
        requires
            self.value@.len() <= 255,
        ensures
            n == 2 + self.value@.len(),
    {
        2 + self.value.len()
    }

    /// Write the encoded item into `buffer` starting at `offset` and
    /// report the number of bytes written. Bytes outside the written
    /// region keep their contents.
    pub fn write_into(&self, buffer: &mut [u8], offset: usize) -> (n: usize)
        requires
            self.value@.len() <= 255,
            offset + 2 + self.value@.len() <= old(buffer)@.len(),
        ensures
            n == 2 + self.value@.len(),
            final(buffer)@.len() == old(buffer)@.len(),
            final(buffer)@.subrange(offset as int, offset + n) == spec_tlv_bytes(
                self.tlv_type,
                self.value@,
            ),
            forall|j: int|
                0 <= j < offset || offset + n <= j < old(buffer)@.len()
                    ==> final(buffer)@[j] == old(buffer)@[j],
    {
        let len = self.value.len();
        let buffer_len = buffer.len();

        buffer[offset] = self.tlv_type;
        buffer[offset + 1] = (len % 256) as u8;

        let mut i: usize = 0;
        while i < len
            invariant
                0 <= i <= len,
                len == self.value@.len(),
                len <= 255,
                offset + 2 + len <= buffer_len,
                buffer_len == buffer@.len(),
                buffer@.len() == old(buffer)@.len(),
                buffer@[offset as int] == self.tlv_type,
                buffer@[offset + 1] == (len % 256) as u8,
                forall|j: int| 0 <= j < i ==> buffer@[offset + 2 + j] == self.value@[j],
                forall|j: int|
                    0 <= j < offset || offset + 2 + i <= j < buffer@.len()
                        ==> buffer@[j] == old(buffer)@[j],
            decreases len - i,
        {
            buffer[offset + 2 + i] = self.value[i];
            i += 1;
        }

        proof {
            assert(buffer@.subrange(offset as int, offset + 2 + len) =~= spec_tlv_bytes(
                self.tlv_type,
                self.value@,
            ));
        }

        2 + len
    }
}

} // verus!
