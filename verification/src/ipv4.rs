//! Typed, zero-copy, bounds-checked views over the bytes of an IPv4 header.
//!
//! A view is constructible only over a buffer of at least the minimum header
//! length; that is the sole validation done at construction. Field-internal
//! invariants (such as an out-of-range header length) are the callers'
//! responsibility to check before trusting derived offsets.

use crate::wire::{be16, be32, read_be16, read_be32, with_be16, with_be32, write_be16, write_be32};
use vstd::prelude::*;

verus! {

/// Minimum length in bytes of an IPv4 header.
pub const IPV4_MIN_LEN: usize = 20;

/// Version field: high nibble of byte 0.
pub open spec fn spec_version(s: Seq<u8>) -> u8 {
    (s[0] / 16) as u8
}

/// Header length in 32-bit words: low nibble of byte 0.
pub open spec fn spec_header_length(s: Seq<u8>) -> u8 {
    (s[0] % 16) as u8
}

/// Total length in bytes, header included: bytes 2-3, big-endian.
pub open spec fn spec_total_length(s: Seq<u8>) -> u16 {
    be16(s, 2)
}

/// Identification field: bytes 4-5, big-endian.
pub open spec fn spec_identification(s: Seq<u8>) -> u16 {
    be16(s, 4)
}

/// Time-to-live field: byte 8.
pub open spec fn spec_ttl(s: Seq<u8>) -> u8 {
    s[8]
}

/// Protocol field: byte 9 (ICMP is 1).
pub open spec fn spec_protocol(s: Seq<u8>) -> u8 {
    s[9]
}

/// Header checksum field: bytes 10-11, big-endian.
pub open spec fn spec_header_checksum(s: Seq<u8>) -> u16 {
    be16(s, 10)
}

/// Source address: bytes 12-15, big-endian.
pub open spec fn spec_source_address(s: Seq<u8>) -> u32 {
    be32(s, 12)
}

/// Destination address: bytes 16-19, big-endian.
pub open spec fn spec_destination_address(s: Seq<u8>) -> u32 {
    be32(s, 16)
}

/// Byte offset at which the payload starts: header length in words times 4.
pub open spec fn spec_payload_offset(s: Seq<u8>) -> int {
    4 * spec_header_length(s)
}

/// Immutable, zero-copy view over an IPv4 packet buffer.
pub struct IPv4Packet<'a> {
    data: &'a [u8],
}

impl<'a> View for IPv4Packet<'a> {
    type V = Seq<u8>;

    closed spec fn view(&self) -> Seq<u8> {
        self.data@
    }
}

impl<'a> IPv4Packet<'a> {
    #[verifier::type_invariant]
    closed spec fn type_inv(self) -> bool {
        self.data@.len() >= IPV4_MIN_LEN
    }

    /// The sole validation at construction: the buffer must be at least the
    /// minimum header length.
    pub fn new(data: &'a [u8]) -> (r: Option<IPv4Packet<'a>>)
        ensures
            data@.len() >= IPV4_MIN_LEN ==> (r matches Some(p) && p@ == data@),
            data@.len() < IPV4_MIN_LEN ==> r is None,
    {
        if data.len() >= IPV4_MIN_LEN {
            Some(IPv4Packet { data })
        } else {
            None
        }
    }

    pub fn data(&self) -> (r: &[u8])
        ensures
            r@ == self@,
    {
        self.data
    }

    pub fn version(&self) -> (r: u8)
        ensures
            r == spec_version(self@),
    {
        proof {
            use_type_invariant(self);
        }
        self.data[0] / 16
    }

    pub fn header_length(&self) -> (r: u8)
        ensures
            r == spec_header_length(self@),
    {
        proof {
            use_type_invariant(self);
        }
        self.data[0] % 16
    }

    pub fn total_length(&self) -> (r: u16)
        ensures
            r == spec_total_length(self@),
    {
        proof {
            use_type_invariant(self);
        }
        read_be16(self.data, 2)
    }

    pub fn identification(&self) -> (r: u16)
        ensures
            r == spec_identification(self@),
    {
        proof {
            use_type_invariant(self);
        }
        read_be16(self.data, 4)
    }

    pub fn ttl(&self) -> (r: u8)
        ensures
            r == spec_ttl(self@),
    {
        proof {
            use_type_invariant(self);
        }
        self.data[8]
    }

    pub fn protocol(&self) -> (r: u8)
        ensures
            r == spec_protocol(self@),
    {
        proof {
            use_type_invariant(self);
        }
        self.data[9]
    }

    pub fn header_checksum(&self) -> (r: u16)
        ensures
            r == spec_header_checksum(self@),
    {
        proof {
            use_type_invariant(self);
        }
        read_be16(self.data, 10)
    }

    pub fn source_address(&self) -> (r: u32)
        ensures
            r == spec_source_address(self@),
    {
        proof {
            use_type_invariant(self);
        }
        read_be32(self.data, 12)
    }

    pub fn destination_address(&self) -> (r: u32)
        ensures
            r == spec_destination_address(self@),
    {
        proof {
            use_type_invariant(self);
        }
        read_be32(self.data, 16)
    }

    /// The bytes after the header. The caller must have checked that the
    /// declared header length lies within the buffer.
    pub fn payload(&self) -> (r: &[u8])
        requires
            spec_payload_offset(self@) <= self@.len(),
        ensures
            r@ == self@.skip(spec_payload_offset(self@)),
    {
        proof {
            use_type_invariant(self);
        }
        let off = (self.data[0] % 16) as usize * 4;
        &self.data[off..self.data.len()]
    }
}

/// Exclusively owned, mutable view over an IPv4 packet buffer.
pub struct MutIPv4Packet {
    data: Vec<u8>,
}

impl View for MutIPv4Packet {
    type V = Seq<u8>;

    closed spec fn view(&self) -> Seq<u8> {
        self.data@
    }
}

impl MutIPv4Packet {
    #[verifier::type_invariant]
    closed spec fn type_inv(self) -> bool {
        self.data@.len() >= IPV4_MIN_LEN
    }

    /// Takes ownership of the buffer; yields no view when the buffer is
    /// shorter than the minimum header length.
    pub fn new(data: Vec<u8>) -> (r: Option<MutIPv4Packet>)
        ensures
            data@.len() >= IPV4_MIN_LEN ==> (r matches Some(p) && p@ == data@),
            data@.len() < IPV4_MIN_LEN ==> r is None,
    {
        if data.len() >= IPV4_MIN_LEN {
            Some(MutIPv4Packet { data })
        } else {
            None
        }
    }

    /// Downgrades to an immutable view of the same bytes once mutation is
    /// complete.
    pub fn as_immutable<'a>(&'a self) -> (r: IPv4Packet<'a>)
        ensures
            r@ == self@,
    {
        proof {
            use_type_invariant(self);
        }
        IPv4Packet { data: self.data.as_slice() }
    }

    /// Gives the finished buffer back.
    pub fn into_vec(self) -> (r: Vec<u8>)
        ensures
            r@ == self@,
    {
        self.data
    }

    /// Writes the header-length nibble, preserving the sibling version
    /// nibble; only the low four bits of the argument are used.
    pub fn set_header_length(&mut self, header_length: u8)
        ensures
            final(self)@ == old(self)@.update(
                0,
                (old(self)@[0] / 16 * 16 + header_length % 16) as u8,
            ),
    {
        proof {
            use_type_invariant(&*self);
        }
        let b = self.data[0];
        self.data[0] = b / 16 * 16 + header_length % 16;
    }

    pub fn set_identification(&mut self, identification: u16)
        ensures
            final(self)@ == with_be16(old(self)@, 4, identification),
    {
        proof {
            use_type_invariant(&*self);
        }
        write_be16(&mut self.data, 4, identification);
    }

    pub fn set_header_checksum(&mut self, checksum: u16)
        ensures
            final(self)@ == with_be16(old(self)@, 10, checksum),
    {
        proof {
            use_type_invariant(&*self);
        }
        write_be16(&mut self.data, 10, checksum);
    }

    pub fn set_source_address(&mut self, source_address: u32)
        ensures
            final(self)@ == with_be32(old(self)@, 12, source_address),
    {
        proof {
            use_type_invariant(&*self);
        }
        write_be32(&mut self.data, 12, source_address);
    }

    pub fn set_destination_address(&mut self, destination_address: u32)
        ensures
            final(self)@ == with_be32(old(self)@, 16, destination_address),
    {
        proof {
            use_type_invariant(&*self);
        }
        write_be32(&mut self.data, 16, destination_address);
    }

    /// Replaces the whole payload. The destination region (everything after
    /// the declared header) must exactly match the source length; a caller
    /// that cannot guarantee this must not copy at all rather than truncate.
    pub fn set_payload(&mut self, payload: &[u8])
        requires
            spec_payload_offset(old(self)@) + payload@.len() == old(self)@.len(),
        ensures
            final(self)@ == old(self)@.take(spec_payload_offset(old(self)@)) + payload@,
    {
        proof {
            use_type_invariant(&*self);
        }
        let off = (self.data[0] % 16) as usize * 4;
        let end = self.data.len();
        let mut j: usize = 0;
        while j < payload.len()
            invariant
                off == spec_payload_offset(old(self)@),
                off + payload@.len() == end,
                end == old(self)@.len(),
                end >= IPV4_MIN_LEN,
                j <= payload@.len(),
                self.data@.len() == end,
                forall|t: int| 0 <= t < off ==> self.data@[t] == old(self)@[t],
                forall|t: int| 0 <= t < j ==> self.data@[off + t] == payload@[t],
                forall|t: int| off + j <= t < self.data@.len() ==> self.data@[t] == old(self)@[t],
            decreases payload@.len() - j,
        {
            self.data[off + j] = payload[j];
            j = j + 1;
        }
        proof {
            assert(self@ =~= old(self)@.take(spec_payload_offset(old(self)@)) + payload@);
        }
    }
}

/// Header-length bit-field round trip: writing a header length and reading
/// it back yields the value's low nibble, and the adjacent version nibble is
/// unchanged.
pub proof fn lemma_header_length_round_trip(s: Seq<u8>, header_length: u8)
    requires
        s.len() >= 1,
    ensures
        ({
            let s2 = s.update(0, (s[0] / 16 * 16 + header_length % 16) as u8);
            spec_header_length(s2) == header_length % 16 && spec_version(s2) == spec_version(s)
        }),
{
    let a = s[0];
    let h = header_length;
    assert(((a / 16 * 16 + h % 16) as u8) % 16 == h % 16 && ((a / 16 * 16 + h % 16) as u8) / 16
        == a / 16) by (bit_vector);
}

} // verus!
