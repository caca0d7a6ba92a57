//! Typed, zero-copy, bounds-checked views over the bytes of an ICMP message:
//! an 8-byte header (type, code, checksum, identifier, sequence number)
//! followed by opaque payload bytes.

use crate::wire::{be16, read_be16, with_be16, write_be16};
use vstd::prelude::*;

verus! {

/// Minimum length in bytes of an ICMP message.
pub const ICMP_MIN_LEN: usize = 8;

/// ICMP type field: byte 0 (Echo Request is 8, Echo Reply is 0).
pub open spec fn spec_icmp_type(s: Seq<u8>) -> u8 {
    s[0]
}

/// ICMP code field: byte 1 (0 for echo messages).
pub open spec fn spec_icmp_code(s: Seq<u8>) -> u8 {
    s[1]
}

/// Checksum field: bytes 2-3, big-endian.
pub open spec fn spec_icmp_checksum(s: Seq<u8>) -> u16 {
    be16(s, 2)
}

/// Identifier field: bytes 4-5, big-endian.
pub open spec fn spec_identifier(s: Seq<u8>) -> u16 {
    be16(s, 4)
}

/// Sequence-number field: bytes 6-7, big-endian.
pub open spec fn spec_sequence_number(s: Seq<u8>) -> u16 {
    be16(s, 6)
}

/// Immutable, zero-copy view over an ICMP message buffer.
pub struct ICMPPacket<'a> {
    data: &'a [u8],
}

impl<'a> View for ICMPPacket<'a> {
    type V = Seq<u8>;

    closed spec fn view(&self) -> Seq<u8> {
        self.data@
    }
}

impl<'a> ICMPPacket<'a> {
    #[verifier::type_invariant]
    closed spec fn type_inv(self) -> bool {
        self.data@.len() >= ICMP_MIN_LEN
    }

    /// The sole validation at construction: the buffer must be at least the
    /// minimum message length.
    pub fn new(data: &'a [u8]) -> (r: Option<ICMPPacket<'a>>)
        ensures
            data@.len() >= ICMP_MIN_LEN ==> (r matches Some(p) && p@ == data@),
            data@.len() < ICMP_MIN_LEN ==> r is None,
    {
        if data.len() >= ICMP_MIN_LEN {
            Some(ICMPPacket { data })
        } else {
            None
        }
    }

    pub fn data(&self) -> (r: &[u8])
        ensures
            r@ == self@,
    {
        self.data
    }

    pub fn icmp_type(&self) -> (r: u8)
        ensures
            r == spec_icmp_type(self@),
    {
        proof {
            use_type_invariant(self);
        }
        self.data[0]
    }

    pub fn icmp_code(&self) -> (r: u8)
        ensures
            r == spec_icmp_code(self@),
    {
        proof {
            use_type_invariant(self);
        }
        self.data[1]
    }

    pub fn header_checksum(&self) -> (r: u16)
        ensures
            r == spec_icmp_checksum(self@),
    {
        proof {
            use_type_invariant(self);
        }
        read_be16(self.data, 2)
    }

    pub fn identifier(&self) -> (r: u16)
        ensures
            r == spec_identifier(self@),
    {
        proof {
            use_type_invariant(self);
        }
        read_be16(self.data, 4)
    }

    pub fn sequence_number(&self) -> (r: u16)
        ensures
            r == spec_sequence_number(self@),
    {
        proof {
            use_type_invariant(self);
        }
        read_be16(self.data, 6)
    }
}

/// Exclusively owned, mutable view over an ICMP message buffer.
pub struct MutICMPPacket {
    data: Vec<u8>,
}

impl View for MutICMPPacket {
    type V = Seq<u8>;

    closed spec fn view(&self) -> Seq<u8> {
        self.data@
    }
}

impl MutICMPPacket {
    #[verifier::type_invariant]
    closed spec fn type_inv(self) -> bool {
        self.data@.len() >= ICMP_MIN_LEN
    }

    /// Takes ownership of the buffer; yields no view when the buffer is
    /// shorter than the minimum message length.
    pub fn new(data: Vec<u8>) -> (r: Option<MutICMPPacket>)
        ensures
            data@.len() >= ICMP_MIN_LEN ==> (r matches Some(p) && p@ == data@),
            data@.len() < ICMP_MIN_LEN ==> r is None,
    {
        if data.len() >= ICMP_MIN_LEN {
            Some(MutICMPPacket { data })
        } else {
            None
        }
    }

    /// Downgrades to an immutable view of the same bytes once mutation is
    /// complete.
    pub fn as_immutable<'a>(&'a self) -> (r: ICMPPacket<'a>)
        ensures
            r@ == self@,
    {
        proof {
            use_type_invariant(self);
        }
        ICMPPacket { data: self.data.as_slice() }
    }

    /// Gives the finished buffer back.
    pub fn into_vec(self) -> (r: Vec<u8>)
        ensures
            r@ == self@,
    {
        self.data
    }

    pub fn set_icmp_type(&mut self, icmp_type: u8)
        ensures
            final(self)@ == old(self)@.update(0, icmp_type),
    {
        proof {
            use_type_invariant(&*self);
        }
        self.data[0] = icmp_type;
    }

    pub fn set_icmp_code(&mut self, icmp_code: u8)
        ensures
            final(self)@ == old(self)@.update(1, icmp_code),
    {
        proof {
            use_type_invariant(&*self);
        }
        self.data[1] = icmp_code;
    }

    pub fn set_header_checksum(&mut self, checksum: u16)
        ensures
            final(self)@ == with_be16(old(self)@, 2, checksum),
    {
        proof {
            use_type_invariant(&*self);
        }
        write_be16(&mut self.data, 2, checksum);
    }

    /// Fills everything after the type, code and checksum words: identifier,
    /// sequence number and the opaque echo data, copied byte-for-byte. The
    /// source must exactly fill the rest of the message.
    pub fn set_echo_data(&mut self, src: &[u8])
        requires
            4 + src@.len() == old(self)@.len(),
        ensures
            final(self)@ == old(self)@.take(4) + src@,
    {
        proof {
            use_type_invariant(&*self);
        }
        let end = self.data.len();
        let mut j: usize = 0;
        while j < src.len()
            invariant
                4 + src@.len() == end,
                end == old(self)@.len(),
                end >= ICMP_MIN_LEN,
                j <= src@.len(),
                self.data@.len() == end,
                forall|t: int| 0 <= t < 4 ==> self.data@[t] == old(self)@[t],
                forall|t: int| 0 <= t < j ==> self.data@[4 + t] == src@[t],
            decreases src@.len() - j,
        {
            self.data[4 + j] = src[j];
            j = j + 1;
        }
        proof {
            assert(self@ =~= old(self)@.take(4) + src@);
        }
    }
}

} // verus!
