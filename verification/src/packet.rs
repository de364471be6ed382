//! Fixed-size packet header of the wire protocol: a type tag and a payload
//! length, laid out as two little-endian 64-bit words with no padding.

use vstd::prelude::*;
use vstd::bytes::{
    lemma_auto_spec_u64_to_from_le_bytes, spec_u64_from_le_bytes, spec_u64_to_le_bytes,
    u64_from_le_bytes, u64_to_le_bytes,
};

verus! {

/// Number of bytes a serialized `PacketHeader` occupies on the wire.
pub const HEADER_SIZE: usize = 16;

/// Routing tag carried in a packet header. Any out-of-range numeric tag maps
/// to `Unknown`. The tag is informational metadata: the authoritative
/// discriminator for payload decoding is the tag embedded in the encoded
/// request record itself.
#[derive(Debug, Clone, Copy, PartialEq, Eq, Structural)]
pub enum PacketType {
    Unknown,
    OpenSession,
    CloseSession,
    InvokeCommand,
    RequestCancellation,
}

/// The packet type that a numeric header tag denotes.
pub open spec fn spec_packet_type_of_tag(value: u64) -> PacketType {
    if value == 1 {
        PacketType::OpenSession
    } else if value == 2 {
        PacketType::CloseSession
    } else if value == 3 {
        PacketType::InvokeCommand
    } else if value == 4 {
        PacketType::RequestCancellation
    } else {
        PacketType::Unknown
    }
}

impl From<u64> for PacketType {
    fn from(value: u64) -> (r: PacketType) {
        match value {
            1 => PacketType::OpenSession,
            2 => PacketType::CloseSession,
            3 => PacketType::InvokeCommand,
            4 => PacketType::RequestCancellation,
            _ => PacketType::Unknown,
        }
    }
}

impl vstd::std_specs::convert::FromSpecImpl<u64> for PacketType {
    open spec fn obeys_from_spec() -> bool {
        true
    }

    open spec fn from_spec(value: u64) -> PacketType {
        spec_packet_type_of_tag(value)
    }
}

/// Wire header preceding every payload on the encrypted stream: a numeric
/// type tag and the byte length of the payload that follows. The length is
/// untrusted input and must be bounded before it drives any allocation.
#[derive(Debug, Clone, Copy, PartialEq, Eq, Structural)]
pub struct PacketHeader {
    pub data_type: u64,
    pub data_size: u64,
}

/// The 16-byte wire form of a header: the type tag then the payload length,
/// each as eight little-endian bytes.
pub open spec fn spec_header_bytes(h: PacketHeader) -> Seq<u8> {
    spec_u64_to_le_bytes(h.data_type) + spec_u64_to_le_bytes(h.data_size)
}

impl PacketHeader {
    /// Serializes the header into its 16-byte wire form.
    pub fn to_bytes(&self) -> (r: Vec<u8>)
        ensures
            r@ == spec_header_bytes(*self),
            r@.len() == HEADER_SIZE,
    {
        proof {
            lemma_auto_spec_u64_to_from_le_bytes();
        }
        let mut bytes = u64_to_le_bytes(self.data_type);
        let mut size_bytes = u64_to_le_bytes(self.data_size);
        bytes.append(&mut size_bytes);
        bytes
    }

    /// Parses a header from its 16-byte wire form.
    pub fn from_bytes(buf: &[u8]) -> (r: Self)
        requires
            buf@.len() == HEADER_SIZE,
        ensures
            r.data_type == spec_u64_from_le_bytes(buf@.subrange(0, 8)),
            r.data_size == spec_u64_from_le_bytes(buf@.subrange(8, 16)),
            spec_header_bytes(r) == buf@,
    {
        proof {
            lemma_auto_spec_u64_to_from_le_bytes();
        }
        let tag_slice = vstd::slice::slice_subrange(buf, 0, 8);
        let size_slice = vstd::slice::slice_subrange(buf, 8, 16);
        let data_type: u64 = u64_from_le_bytes(tag_slice);
        let data_size: u64 = u64_from_le_bytes(size_slice);
        proof {
            assert(spec_header_bytes(PacketHeader { data_type, data_size }) =~= buf@);
        }
        PacketHeader { data_type, data_size }
    }
}

/// Serializing a header and parsing the bytes back yields the same header,
/// and parsing any 16-byte buffer and serializing the result reproduces the
/// buffer: the wire form loses nothing.
pub proof fn lemma_header_round_trip(h: PacketHeader, buf: Seq<u8>)
    requires
        buf.len() == HEADER_SIZE,
    ensures
        spec_u64_from_le_bytes(spec_header_bytes(h).subrange(0, 8)) == h.data_type,
        spec_u64_from_le_bytes(spec_header_bytes(h).subrange(8, 16)) == h.data_size,
        spec_header_bytes(
            PacketHeader {
                data_type: spec_u64_from_le_bytes(buf.subrange(0, 8)),
                data_size: spec_u64_from_le_bytes(buf.subrange(8, 16)),
            },
        ) == buf,
{
    lemma_auto_spec_u64_to_from_le_bytes();
    assert(spec_header_bytes(h).subrange(0, 8) =~= spec_u64_to_le_bytes(h.data_type));
    assert(spec_header_bytes(h).subrange(8, 16) =~= spec_u64_to_le_bytes(h.data_size));
    assert(spec_header_bytes(
        PacketHeader {
            data_type: spec_u64_from_le_bytes(buf.subrange(0, 8)),
            data_size: spec_u64_from_le_bytes(buf.subrange(8, 16)),
        },
    ) =~= buf);
}

} // verus!
