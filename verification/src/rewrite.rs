//! Echo rewriter: inspects one inbound IPv4 packet and either synthesizes an
//! ICMP Echo Reply, passes the packet through unchanged, or drops it as
//! malformed.
//!
//! A reply is built in a fresh buffer sized to the request's declared total
//! length (not the physical read length). The reply carries no IP options,
//! so it is only constructible from an option-free request (header length 5);
//! a request whose declared lengths are inconsistent with its buffer is
//! treated as malformed and dropped, never passed on and never echoed.
//!
//! Inbound checksums are deliberately not validated before the header
//! fields are read: length consistency alone decides whether a packet is
//! malformed, and a request with a wrong checksum is still answered.

use crate::checksum::{checksum, checksum_spec, lemma_checksum_round_trip};
use crate::icmp::{ICMPPacket, MutICMPPacket};
use crate::ipv4::{
    lemma_header_length_round_trip, spec_destination_address, spec_header_length,
    spec_identification, spec_payload_offset, spec_protocol, spec_source_address,
    spec_total_length, spec_version, spec_ttl, IPv4Packet, MutIPv4Packet, IPV4_MIN_LEN,
};
use crate::wire::{be16, lemma_be16_of_parts, lemma_be32_of_parts, with_be16, with_be32};
use vstd::prelude::*;

verus! {

/// Protocol number of ICMP in the IPv4 protocol field.
pub const PROTOCOL_ICMP: u8 = 1;

/// ICMP type of an Echo Request.
pub const ICMP_TYPE_ECHO_REQUEST: u8 = 8;

/// ICMP type of an Echo Reply.
pub const ICMP_TYPE_ECHO_REPLY: u8 = 0;

/// The packet's protocol field says ICMP.
pub open spec fn spec_is_icmp(s: Seq<u8>) -> bool {
    spec_protocol(s) == PROTOCOL_ICMP
}

/// A full 8-byte ICMP header physically follows the declared IPv4 header.
pub open spec fn spec_icmp_present(s: Seq<u8>) -> bool {
    spec_payload_offset(s) + 8 <= s.len()
}

/// The encapsulated ICMP type field says Echo Request.
pub open spec fn spec_is_echo_request(s: Seq<u8>) -> bool {
    s[spec_payload_offset(s)] == ICMP_TYPE_ECHO_REQUEST
}

/// A reply can be synthesized: the request carries no IP options (header
/// length 5) and its declared total length covers the 28-byte minimum and
/// lies within the buffer actually read.
pub open spec fn spec_reply_constructible(s: Seq<u8>) -> bool {
    &&& spec_header_length(s) == 5
    &&& 28 <= spec_total_length(s)
    &&& spec_total_length(s) <= s.len()
}

/// The reply's ICMP segment before its checksum is written: type Echo Reply,
/// code 0, checksum 0, then the request's identifier, sequence number and
/// opaque data byte-for-byte.
pub open spec fn reply_icmp_zeroed(s: Seq<u8>) -> Seq<u8> {
    seq![0u8, 0u8, 0u8, 0u8] + s.subrange(24, spec_total_length(s) as int)
}

/// The reply's finished ICMP segment: the zeroed segment with its checksum
/// written big-endian at offset 2.
pub open spec fn reply_icmp_segment(s: Seq<u8>) -> Seq<u8> {
    with_be16(reply_icmp_zeroed(s), 2, checksum_spec(reply_icmp_zeroed(s)))
}

/// The reply's IPv4 header before its checksum is written: the request's
/// first 20 header bytes with the header length forced to 5, the
/// identification masked with 0xf8ff, the checksum field zeroed, and the
/// source and destination addresses swapped.
pub open spec fn reply_header_zeroed(s: Seq<u8>) -> Seq<u8> {
    let h0 = s.take(20);
    let h1 = h0.update(0, (h0[0] / 16 * 16 + 5) as u8);
    let h2 = with_be16(h1, 4, spec_identification(s) & 0xf8ff);
    let h3 = with_be16(h2, 10, 0u16);
    let h4 = with_be32(h3, 12, spec_destination_address(s));
    with_be32(h4, 16, spec_source_address(s))
}

/// The reply's finished IPv4 header: the zeroed header with its checksum,
/// computed over the whole header, written big-endian at offset 10.
pub open spec fn reply_header(s: Seq<u8>) -> Seq<u8> {
    with_be16(reply_header_zeroed(s), 10, checksum_spec(reply_header_zeroed(s)))
}

/// The complete synthesized Echo Reply for request bytes `s`.
pub open spec fn echo_reply_spec(s: Seq<u8>) -> Seq<u8> {
    reply_header(s) + reply_icmp_segment(s)
}

/// The packet is malformed and must be dropped: too short to view, an ICMP
/// claim without a full encapsulated header, or an Echo Request whose
/// declared lengths make a reply unconstructible.
pub open spec fn spec_discards(s: Seq<u8>) -> bool {
    ||| s.len() < IPV4_MIN_LEN
    ||| (s.len() >= IPV4_MIN_LEN && spec_is_icmp(s) && !spec_icmp_present(s))
    ||| (s.len() >= IPV4_MIN_LEN && spec_is_icmp(s) && spec_icmp_present(s)
        && spec_is_echo_request(s) && !spec_reply_constructible(s))
}

/// The packet passes through unchanged: viewable but either not ICMP at
/// all, or ICMP other than an Echo Request.
pub open spec fn spec_passes_through(s: Seq<u8>) -> bool {
    &&& s.len() >= IPV4_MIN_LEN
    &&& (!spec_is_icmp(s) || (spec_icmp_present(s) && !spec_is_echo_request(s)))
}

/// The packet is answered with a synthesized Echo Reply.
pub open spec fn spec_replies(s: Seq<u8>) -> bool {
    &&& s.len() >= IPV4_MIN_LEN
    &&& spec_is_icmp(s)
    &&& spec_icmp_present(s)
    &&& spec_is_echo_request(s)
    &&& spec_reply_constructible(s)
}

/// Every inbound buffer falls under exactly one of the three decisions:
/// dropped as malformed, passed through unchanged, or answered with a
/// reply.
pub proof fn lemma_actions_partition(s: Seq<u8>)
    ensures
        spec_discards(s) || spec_passes_through(s) || spec_replies(s),
        !(spec_discards(s) && spec_passes_through(s)),
        !(spec_discards(s) && spec_replies(s)),
        !(spec_passes_through(s) && spec_replies(s)),
{
}

/// What the rewriter decides for one inbound packet.
pub enum PacketAction {
    /// Emit this freshly built reply instead of the original packet.
    Reply(Vec<u8>),
    /// Emit the original packet unchanged.
    PassThrough,
    /// The packet is malformed: drop it, emit nothing.
    Discard,
}

/// Builds the Echo Reply for a valid, option-free Echo Request buffer.
pub fn build_echo_reply(buf: &[u8]) -> (r: Vec<u8>)
    requires
        buf@.len() >= IPV4_MIN_LEN,
        spec_reply_constructible(buf@),
    ensures
        r@ == echo_reply_spec(buf@),
{
    let total_len = 256 * (buf[2] as usize) + (buf[3] as usize);
    assert(total_len == spec_total_length(buf@));

    // Build the ICMP segment in its own buffer, as long as the declared
    // total length minus the 20-byte reply header.
    let seg_len = total_len - 20;
    let seg0: Vec<u8> = vec![0u8; seg_len];
    let mut icmp = match MutICMPPacket::new(seg0) {
        Some(p) => p,
        None => {
            proof {
                assert(false);
            }
            unreached()
        },
    };
    icmp.set_icmp_type(ICMP_TYPE_ECHO_REPLY);
    icmp.set_icmp_code(0);
    icmp.set_header_checksum(0);
    icmp.set_echo_data(&buf[24..total_len]);
    proof {
        assert(icmp@ =~= reply_icmp_zeroed(buf@));
    }
    let icmp_sum = checksum(icmp.as_immutable().data());
    icmp.set_header_checksum(icmp_sum);
    proof {
        assert(icmp@ == reply_icmp_segment(buf@));
    }
    let seg = icmp.into_vec();

    // Start the reply from the request's header bytes.
    let mut data: Vec<u8> = vec![0u8; total_len];
    let mut j: usize = 0;
    while j < IPV4_MIN_LEN
        invariant
            j <= IPV4_MIN_LEN,
            buf@.len() >= IPV4_MIN_LEN,
            data@.len() == total_len,
            total_len == spec_total_length(buf@),
            28 <= total_len,
            forall|t: int| 0 <= t < j ==> data@[t] == buf@[t],
            forall|t: int| j <= t < data@.len() ==> data@[t] == 0,
        decreases IPV4_MIN_LEN - j,
    {
        data[j] = buf[j];
        j = j + 1;
    }
    let mut pkt = match MutIPv4Packet::new(data) {
        Some(p) => p,
        None => {
            proof {
                assert(false);
            }
            unreached()
        },
    };
    let ghost before_hl = pkt@;
    pkt.set_header_length(5);
    proof {
        lemma_header_length_round_trip(before_hl, 5);
        assert(spec_header_length(pkt@) == 5);
        assert(spec_payload_offset(pkt@) == 20);
    }
    pkt.set_payload(seg.as_slice());
    pkt.set_header_checksum(0);
    pkt.set_source_address(read_dst(buf));
    pkt.set_destination_address(read_src(buf));
    pkt.set_identification(read_ident(buf) & 0xf8ff);
    proof {
        assert(pkt@.take(20) =~= reply_header_zeroed(buf@));
        assert(pkt@.skip(20) =~= reply_icmp_segment(buf@));
    }
    let header_sum = {
        let im = pkt.as_immutable();
        let d = im.data();
        checksum(&d[0..IPV4_MIN_LEN])
    };
    pkt.set_header_checksum(header_sum);
    proof {
        assert(pkt@ =~= echo_reply_spec(buf@));
    }
    pkt.into_vec()
}

fn read_ident(buf: &[u8]) -> (r: u16)
    requires
        buf@.len() >= IPV4_MIN_LEN,
    ensures
        r == spec_identification(buf@),
{
    crate::wire::read_be16(buf, 4)
}

fn read_src(buf: &[u8]) -> (r: u32)
    requires
        buf@.len() >= IPV4_MIN_LEN,
    ensures
        r == spec_source_address(buf@),
{
    crate::wire::read_be32(buf, 12)
}

fn read_dst(buf: &[u8]) -> (r: u32)
    requires
        buf@.len() >= IPV4_MIN_LEN,
    ensures
        r == spec_destination_address(buf@),
{
    crate::wire::read_be32(buf, 16)
}

/// One INSPECT / BUILD_REPLY decision over a raw inbound buffer, exactly as
/// the dispatch loop applies it: too short to view is malformed; non-ICMP
/// passes through untouched; ICMP without a full encapsulated header is
/// malformed; ICMP other than Echo Request passes through; an Echo Request
/// yields the synthesized reply when constructible and is otherwise dropped.
pub fn handle_packet(buf: &[u8]) -> (r: PacketAction)
    ensures
        buf@.len() < IPV4_MIN_LEN ==> r is Discard,
        buf@.len() >= IPV4_MIN_LEN && !spec_is_icmp(buf@) ==> r is PassThrough,
        buf@.len() >= IPV4_MIN_LEN && spec_is_icmp(buf@) && !spec_icmp_present(buf@) ==> r
            is Discard,
        buf@.len() >= IPV4_MIN_LEN && spec_is_icmp(buf@) && spec_icmp_present(buf@)
            && !spec_is_echo_request(buf@) ==> r is PassThrough,
        buf@.len() >= IPV4_MIN_LEN && spec_is_icmp(buf@) && spec_icmp_present(buf@)
            && spec_is_echo_request(buf@) && !spec_reply_constructible(buf@) ==> r is Discard,
        buf@.len() >= IPV4_MIN_LEN && spec_is_icmp(buf@) && spec_icmp_present(buf@)
            && spec_is_echo_request(buf@) && spec_reply_constructible(buf@) ==> (r matches
            PacketAction::Reply(v) && v@ == echo_reply_spec(buf@)),
{
    let packet = match IPv4Packet::new(buf) {
        Some(p) => p,
        None => {
            return PacketAction::Discard;
        },
    };
    if packet.protocol() != PROTOCOL_ICMP {
        return PacketAction::PassThrough;
    }
    let header_length = packet.header_length();
    let off = header_length as usize * 4;
    if off + 8 > buf.len() {
        return PacketAction::Discard;
    }
    let icmp = match ICMPPacket::new(packet.payload()) {
        Some(p) => p,
        None => {
            proof {
                assert(false);
            }
            unreached()
        },
    };
    if icmp.icmp_type() != ICMP_TYPE_ECHO_REQUEST {
        return PacketAction::PassThrough;
    }
    let total_len = packet.total_length() as usize;
    if header_length != 5 || total_len < 28 || total_len > buf.len() {
        return PacketAction::Discard;
    }
    PacketAction::Reply(build_echo_reply(buf))
}

/// Field-level shape of a synthesized reply: length equal to the request's
/// declared total length; version, type of service, total length, TTL and
/// protocol kept; header length forced to 5; identification masked with
/// 0xf8ff; source and destination addresses swapped; ICMP type and code set
/// to Echo Reply; identifier and sequence number echoed.
pub proof fn lemma_echo_reply_fields(s: Seq<u8>)
    requires
        s.len() >= IPV4_MIN_LEN,
        spec_icmp_present(s),
        spec_reply_constructible(s),
    ensures
        ({
            let r = echo_reply_spec(s);
            &&& r.len() == spec_total_length(s)
            &&& spec_version(r) == spec_version(s)
            &&& spec_header_length(r) == 5
            &&& spec_total_length(r) == spec_total_length(s)
            &&& spec_identification(r) == (spec_identification(s) & 0xf8ff)
            &&& spec_ttl(r) == spec_ttl(s)
            &&& spec_protocol(r) == spec_protocol(s)
            &&& spec_source_address(r) == spec_destination_address(s)
            &&& spec_destination_address(r) == spec_source_address(s)
            &&& r[20] == ICMP_TYPE_ECHO_REPLY
            &&& r[21] == 0
            &&& be16(r, 24) == be16(s, 24)
            &&& be16(r, 26) == be16(s, 26)
        }),
{
    let r = echo_reply_spec(s);
    let hz = reply_header_zeroed(s);
    let c = checksum_spec(hz);
    let h = reply_header(s);
    let z = reply_icmp_zeroed(s);
    let seg = reply_icmp_segment(s);
    let tl = spec_total_length(s) as int;
    assert(z.len() == tl - 20);
    assert(seg.len() == tl - 20);
    assert(hz.len() == 20 && h.len() == 20);
    assert(r.len() == tl);
    assert(forall|i: int| 0 <= i < 20 ==> r[i] == h[i]);
    assert(forall|i: int| 0 <= i < tl - 20 ==> r[20 + i] == seg[i]);

    // Version and header length come from byte 0.
    let a = s[0];
    assert(hz[0] == (a / 16 * 16 + 5) as u8);
    assert(h[0] == hz[0] && r[0] == h[0]);
    assert(((a / 16 * 16 + 5) as u8) % 16 == 5 && ((a / 16 * 16 + 5) as u8) / 16 == a / 16)
        by (bit_vector);

    // Untouched header bytes survive from the request.
    assert(r[2] == s[2] && r[3] == s[3]);
    assert(spec_total_length(r) == spec_total_length(s));
    assert(r[8] == s[8] && r[9] == s[9]);

    // Identification: the two parts of the masked value.
    let m = spec_identification(s) & 0xf8ff;
    assert(r[4] == (m / 256) as u8 && r[5] == (m % 256) as u8);
    lemma_be16_of_parts(r, 4, m);

    // Swapped addresses.
    let sa = spec_source_address(s);
    let da = spec_destination_address(s);
    assert(r[12] == (da / 0x1000000) as u8 && r[13] == ((da / 0x10000) % 0x100) as u8 && r[14]
        == ((da / 0x100) % 0x100) as u8 && r[15] == (da % 0x100) as u8);
    lemma_be32_of_parts(r, 12, da);
    assert(r[16] == (sa / 0x1000000) as u8 && r[17] == ((sa / 0x10000) % 0x100) as u8 && r[18]
        == ((sa / 0x100) % 0x100) as u8 && r[19] == (sa % 0x100) as u8);
    lemma_be32_of_parts(r, 16, sa);

    // The ICMP side: type and code are zero, identifier and sequence echoed.
    assert(seg[0] == z[0] && z[0] == 0);
    assert(seg[1] == z[1] && z[1] == 0);
    assert(seg[4] == z[4] && z[4] == s[24] && seg[5] == z[5] && z[5] == s[25]);
    assert(seg[6] == z[6] && z[6] == s[26] && seg[7] == z[7] && z[7] == s[27]);
    assert(be16(r, 24) == be16(s, 24));
    assert(be16(r, 26) == be16(s, 26));
}

/// The emitted reply carries valid checksums: the Internet checksum of the
/// finished reply header is zero, and so is that of the finished ICMP
/// segment — recomputing either over the completed bytes detects no error.
pub proof fn lemma_echo_reply_checksums_valid(s: Seq<u8>)
    requires
        s.len() >= IPV4_MIN_LEN,
        spec_icmp_present(s),
        spec_reply_constructible(s),
    ensures
        checksum_spec(echo_reply_spec(s).take(20)) == 0,
        checksum_spec(echo_reply_spec(s).skip(20)) == 0,
{
    let hz = reply_header_zeroed(s);
    assert(hz.len() == 20);
    assert(hz[10] == 0 && hz[11] == 0);
    lemma_checksum_round_trip(hz, 10);
    assert(echo_reply_spec(s).take(20) =~= reply_header(s));
    let c = checksum_spec(hz);
    assert(reply_header(s) == hz.update(10, (c / 256) as u8).update(11, (c % 256) as u8));

    let z = reply_icmp_zeroed(s);
    assert(z[2] == 0 && z[3] == 0);
    lemma_checksum_round_trip(z, 2);
    assert(echo_reply_spec(s).skip(20) =~= reply_icmp_segment(s));
    let c2 = checksum_spec(z);
    assert(reply_icmp_segment(s) == z.update(2, (c2 / 256) as u8).update(3, (c2 % 256) as u8));
}

} // verus!
