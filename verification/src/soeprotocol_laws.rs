//! What holds between the SOE decoder and encoder.

use crate::byte_cursor::{
    be_u16_at, be_u32_at, be_u64_at, lemma_be_u16_roundtrip, lemma_be_u32_roundtrip,
    lemma_be_u64_roundtrip, pos_after, u16_be_bytes, u32_be_bytes, u64_be_bytes, u8_at,
};
use crate::lib_utils::lemma_nul_terminated_roundtrip;
use crate::soeprotocol::{
    ack_of, carries_crc, crc_error, datagram_opcode, expected_crc, framed_len, given_crc,
    group_bytes, grouped_of, lemma_sub_packet_frames_len, passes_crc, sequenced_of, size_error,
    soe_parse, soe_parse_sub_packets, soe_serialize, soe_serialize_all, sub_packet_frames, with_crc,
    SoeOpcode,
};
use crate::soeprotocol_functions::{
    data_length_at, length_prefix, length_prefix_width, PacketsMinSize,
};
use crate::soeprotocol_packets_structs::{
    ack_bytes, data_bytes, net_status_reply_bytes, net_status_request_bytes, session_reply_bytes,
    session_request_bytes, AckPacket, NetStatusReplyPacket, NetStatusRequestPacket,
    SessionReplyPacket, SoePacketView,
};
use vstd::utf8::encode_utf8;
use crate::protocol_errors::ProtocolErrorView;
use vstd::prelude::*;

verus! {

/// A 16-bit value is read back from the place where its bytes stand.
pub proof fn lemma_read_be_u16(bytes: Seq<u8>, pos: int, v: u16)
    requires
        0 <= pos,
        pos + 2 <= bytes.len(),
        bytes.subrange(pos, pos + 2) == u16_be_bytes(v),
    ensures
        be_u16_at(bytes, pos) == v,
        pos_after(bytes, pos, 2) == pos + 2,
{
    lemma_be_u16_roundtrip(v);
}

/// A 32-bit value is read back from the place where its bytes stand.
pub proof fn lemma_read_be_u32(bytes: Seq<u8>, pos: int, v: u32)
    requires
        0 <= pos,
        pos + 4 <= bytes.len(),
        bytes.subrange(pos, pos + 4) == u32_be_bytes(v),
    ensures
        be_u32_at(bytes, pos) == v,
        pos_after(bytes, pos, 4) == pos + 4,
{
    lemma_be_u32_roundtrip(v);
}

/// A 64-bit value is read back from the place where its bytes stand.
pub proof fn lemma_read_be_u64(bytes: Seq<u8>, pos: int, v: u64)
    requires
        0 <= pos,
        pos + 8 <= bytes.len(),
        bytes.subrange(pos, pos + 8) == u64_be_bytes(v),
    ensures
        be_u64_at(bytes, pos) == v,
        pos_after(bytes, pos, 8) == pos + 8,
{
    lemma_be_u64_roundtrip(v);
}

/// The kind of a datagram that begins with the two bytes of `opcode`.
pub proof fn lemma_opcode_of_datagram(bytes: Seq<u8>, opcode: u16)
    requires
        bytes.len() >= 2,
        bytes.subrange(0, 2) == u16_be_bytes(opcode),
    ensures
        datagram_opcode(bytes) == SoeOpcode::spec_from_value(opcode),
{
    lemma_read_be_u16(bytes, 0, opcode);
}

/// A session reply decodes to itself.
pub proof fn lemma_session_reply_roundtrip(p: SessionReplyPacket, use_crc: bool, crc_seed: u32)
    ensures
        soe_parse(session_reply_bytes(p), use_crc, crc_seed) == SoePacketView::SessionReply(p),
{
    let b = session_reply_bytes(p);
    assert(b.len() == 21);
    assert(b.subrange(0, 2) =~= u16_be_bytes(0x02));
    lemma_opcode_of_datagram(b, 0x02);
    assert(be_u32_at(b, 2) == p.session_id && pos_after(b, 2, 4) == 6) by {
        assert(b.subrange(2, 6) =~= u32_be_bytes(p.session_id));
        lemma_read_be_u32(b, 2, p.session_id);
    }
    assert(be_u32_at(b, 6) == p.crc_seed && pos_after(b, 6, 4) == 10) by {
        assert(b.subrange(6, 10) =~= u32_be_bytes(p.crc_seed));
        lemma_read_be_u32(b, 6, p.crc_seed);
    }
    assert(u8_at(b, 10) == p.crc_length);
    assert(be_u16_at(b, 11) == p.encrypt_method && pos_after(b, 11, 2) == 13) by {
        assert(b.subrange(11, 13) =~= u16_be_bytes(p.encrypt_method));
        lemma_read_be_u16(b, 11, p.encrypt_method);
    }
    assert(be_u32_at(b, 13) == p.udp_length && pos_after(b, 13, 4) == 17) by {
        assert(b.subrange(13, 17) =~= u32_be_bytes(p.udp_length));
        lemma_read_be_u32(b, 13, p.udp_length);
    }
}

/// A client's statistics decode to themselves.
#[verifier::rlimit(30)]
pub proof fn lemma_net_status_request_roundtrip(
    p: NetStatusRequestPacket,
    use_crc: bool,
    crc_seed: u32,
)
    ensures
        soe_parse(net_status_request_bytes(p), use_crc, crc_seed)
            == SoePacketView::NetStatusRequest(p),
{
    let b = net_status_request_bytes(p);
    assert(b.len() == 42);
    assert(b.subrange(0, 2) =~= u16_be_bytes(0x07));
    lemma_opcode_of_datagram(b, 0x07);
    assert(be_u16_at(b, 2) == p.client_tick_count && pos_after(b, 2, 2) == 4) by {
        assert(b.subrange(2, 4) =~= u16_be_bytes(p.client_tick_count));
        lemma_read_be_u16(b, 2, p.client_tick_count);
    }
    assert(be_u32_at(b, 4) == p.last_client_update && pos_after(b, 4, 4) == 8) by {
        assert(b.subrange(4, 8) =~= u32_be_bytes(p.last_client_update));
        lemma_read_be_u32(b, 4, p.last_client_update);
    }
    assert(be_u32_at(b, 8) == p.average_update && pos_after(b, 8, 4) == 12) by {
        assert(b.subrange(8, 12) =~= u32_be_bytes(p.average_update));
        lemma_read_be_u32(b, 8, p.average_update);
    }
    assert(be_u32_at(b, 12) == p.shortest_update && pos_after(b, 12, 4) == 16) by {
        assert(b.subrange(12, 16) =~= u32_be_bytes(p.shortest_update));
        lemma_read_be_u32(b, 12, p.shortest_update);
    }
    assert(be_u32_at(b, 16) == p.longest_update && pos_after(b, 16, 4) == 20) by {
        assert(b.subrange(16, 20) =~= u32_be_bytes(p.longest_update));
        lemma_read_be_u32(b, 16, p.longest_update);
    }
    assert(be_u32_at(b, 20) == p.last_server_update && pos_after(b, 20, 4) == 24) by {
        assert(b.subrange(20, 24) =~= u32_be_bytes(p.last_server_update));
        lemma_read_be_u32(b, 20, p.last_server_update);
    }
    assert(be_u64_at(b, 24) == p.packets_sent && pos_after(b, 24, 8) == 32) by {
        assert(b.subrange(24, 32) =~= u64_be_bytes(p.packets_sent));
        lemma_read_be_u64(b, 24, p.packets_sent);
    }
    assert(be_u64_at(b, 32) == p.packets_received && pos_after(b, 32, 8) == 40) by {
        assert(b.subrange(32, 40) =~= u64_be_bytes(p.packets_received));
        lemma_read_be_u64(b, 32, p.packets_received);
    }
    assert(be_u16_at(b, 40) == p.unknown_field && pos_after(b, 40, 2) == 42) by {
        assert(b.subrange(40, 42) =~= u16_be_bytes(p.unknown_field));
        lemma_read_be_u16(b, 40, p.unknown_field);
    }
}

/// A server's statistics decode to themselves.
#[verifier::rlimit(30)]
pub proof fn lemma_net_status_reply_roundtrip(
    p: NetStatusReplyPacket,
    use_crc: bool,
    crc_seed: u32,
)
    ensures
        soe_parse(net_status_reply_bytes(p), use_crc, crc_seed) == SoePacketView::NetStatusReply(
            p,
        ),
{
    let b = net_status_reply_bytes(p);
    assert(b.len() == 42);
    assert(b.subrange(0, 2) =~= u16_be_bytes(0x08));
    lemma_opcode_of_datagram(b, 0x08);
    assert(be_u16_at(b, 2) == p.client_tick_count && pos_after(b, 2, 2) == 4) by {
        assert(b.subrange(2, 4) =~= u16_be_bytes(p.client_tick_count));
        lemma_read_be_u16(b, 2, p.client_tick_count);
    }
    assert(be_u32_at(b, 4) == p.server_tick_count && pos_after(b, 4, 4) == 8) by {
        assert(b.subrange(4, 8) =~= u32_be_bytes(p.server_tick_count));
        lemma_read_be_u32(b, 4, p.server_tick_count);
    }
    assert(be_u64_at(b, 8) == p.client_packet_sent && pos_after(b, 8, 8) == 16) by {
        assert(b.subrange(8, 16) =~= u64_be_bytes(p.client_packet_sent));
        lemma_read_be_u64(b, 8, p.client_packet_sent);
    }
    assert(be_u64_at(b, 16) == p.client_packet_received && pos_after(b, 16, 8) == 24) by {
        assert(b.subrange(16, 24) =~= u64_be_bytes(p.client_packet_received));
        lemma_read_be_u64(b, 16, p.client_packet_received);
    }
    assert(be_u64_at(b, 24) == p.server_packet_sent && pos_after(b, 24, 8) == 32) by {
        assert(b.subrange(24, 32) =~= u64_be_bytes(p.server_packet_sent));
        lemma_read_be_u64(b, 24, p.server_packet_sent);
    }
    assert(be_u64_at(b, 32) == p.server_packet_received && pos_after(b, 32, 8) == 40) by {
        assert(b.subrange(32, 40) =~= u64_be_bytes(p.server_packet_received));
        lemma_read_be_u64(b, 32, p.server_packet_received);
    }
    assert(be_u16_at(b, 40) == p.unknown_field && pos_after(b, 40, 2) == 42) by {
        assert(b.subrange(40, 42) =~= u16_be_bytes(p.unknown_field));
        lemma_read_be_u16(b, 40, p.unknown_field);
    }
}

/// A datagram that was closed with its checksum passes the check, and is
/// its body followed by two bytes.
pub proof fn lemma_with_crc(body: Seq<u8>, use_crc: bool, crc_seed: u32)
    ensures
        ({
            let framed = with_crc(body, use_crc, crc_seed);
            &&& framed.len() == body.len() + (if use_crc {
                2int
            } else {
                0int
            })
            &&& framed.subrange(0, body.len() as int) == body
            &&& passes_crc(framed, use_crc, crc_seed)
        }),
{
    let framed = with_crc(body, use_crc, crc_seed);
    assert(framed.subrange(0, body.len() as int) =~= body);
    if use_crc {
        let crc = crate::crc::crc16_value(body, crc_seed);
        assert(framed.subrange(framed.len() - 2, framed.len() as int) =~= u16_be_bytes(crc));
        lemma_read_be_u16(framed, framed.len() - 2, crc);
    }
}

/// Whether `opcode` is one that a sequenced payload goes out under.
pub open spec fn is_data_opcode(opcode: u16) -> bool {
    opcode == 0x09 || opcode == 0x0d || opcode == 0x1B
}

/// Whether `opcode` is one that an acknowledgement goes out under.
pub open spec fn is_ack_opcode(opcode: u16) -> bool {
    opcode == 0x15 || opcode == 0x11
}

/// Whether `opcode` is one that a group of sub-packets goes out under.
pub open spec fn is_group_opcode(opcode: u16) -> bool {
    opcode == 0x03 || opcode == 0x19
}

/// A sequenced payload of at least one byte decodes to itself.
pub proof fn lemma_data_roundtrip(
    opcode: u16,
    sequence: u16,
    data: Seq<u8>,
    use_crc: bool,
    crc_seed: u32,
)
    requires
        is_data_opcode(opcode),
        data.len() >= 1,
    ensures
        soe_parse(
            with_crc(data_bytes(opcode, sequence, data), use_crc, crc_seed),
            use_crc,
            crc_seed,
        ) == (SoePacketView::Data { opcode, sequence, data }),
{
    let body = data_bytes(opcode, sequence, data);
    let b = with_crc(body, use_crc, crc_seed);
    lemma_with_crc(body, use_crc, crc_seed);
    assert(body.len() == 4 + data.len());
    assert(b.subrange(0, 2) =~= u16_be_bytes(opcode));
    lemma_opcode_of_datagram(b, opcode);
    assert(b.subrange(2, 4) =~= u16_be_bytes(sequence));
    lemma_read_be_u16(b, 2, sequence);
    assert(b.subrange(4, body.len() as int) =~= data);
    assert(soe_parse(b, use_crc, crc_seed) == sequenced_of(b, opcode, use_crc, crc_seed));
}

/// An acknowledgement decodes to itself.
pub proof fn lemma_ack_roundtrip(a: AckPacket, use_crc: bool, crc_seed: u32)
    requires
        is_ack_opcode(a.opcode),
    ensures
        soe_parse(with_crc(ack_bytes(a.opcode, a.sequence), use_crc, crc_seed), use_crc, crc_seed)
            == SoePacketView::Ack(a),
{
    let body = ack_bytes(a.opcode, a.sequence);
    let b = with_crc(body, use_crc, crc_seed);
    lemma_with_crc(body, use_crc, crc_seed);
    assert(body.len() == 4);
    assert(b.subrange(0, 2) =~= u16_be_bytes(a.opcode));
    lemma_opcode_of_datagram(b, a.opcode);
    assert(b.subrange(2, 4) =~= u16_be_bytes(a.sequence));
    lemma_read_be_u16(b, 2, a.sequence);
    assert(soe_parse(b, use_crc, crc_seed) == ack_of(b, a.opcode, use_crc, crc_seed));
}

/// A session request whose protocol name holds no NUL decodes to itself.
pub proof fn lemma_session_request_roundtrip(
    protocol_version: u32,
    session_id: u32,
    udp_length: u32,
    protocol: Seq<char>,
    use_crc: bool,
    crc_seed: u32,
)
    requires
        forall|i: int| 0 <= i < protocol.len() ==> protocol[i] != '\0',
    ensures
        soe_parse(
            session_request_bytes(protocol_version, session_id, udp_length, protocol),
            use_crc,
            crc_seed,
        ) == (SoePacketView::SessionRequest { session_id, protocol_version, udp_length, protocol }),
{
    let b = session_request_bytes(protocol_version, session_id, udp_length, protocol);
    let name = encode_utf8(protocol).push(0);
    assert(b.len() == 14 + name.len());
    assert(b.subrange(0, 2) =~= u16_be_bytes(0x01));
    lemma_opcode_of_datagram(b, 0x01);
    assert(be_u32_at(b, 2) == protocol_version && pos_after(b, 2, 4) == 6) by {
        assert(b.subrange(2, 6) =~= u32_be_bytes(protocol_version));
        lemma_read_be_u32(b, 2, protocol_version);
    }
    assert(be_u32_at(b, 6) == session_id && pos_after(b, 6, 4) == 10) by {
        assert(b.subrange(6, 10) =~= u32_be_bytes(session_id));
        lemma_read_be_u32(b, 6, session_id);
    }
    assert(be_u32_at(b, 10) == udp_length && pos_after(b, 10, 4) == 14) by {
        assert(b.subrange(10, 14) =~= u32_be_bytes(udp_length));
        lemma_read_be_u32(b, 10, udp_length);
    }
    assert(b.subrange(14, b.len() as int) =~= name);
    lemma_nul_terminated_roundtrip(protocol);
}

/// The lengths that a length prefix gives back when it is read: those that
/// take one byte and are below 255, those that take two and begin with the
/// byte 255 but not with two of them, and those that take four and begin
/// with two bytes 255.
pub open spec fn prefix_reads_back(n: int) -> bool {
    1 <= n <= 0xFE || 0xFF00 <= n <= 0xFFFE || 0xFFFF_0000 <= n <= 0xFFFF_FFFF
}

/// A length that reads back is read back from the place where its prefix
/// stands.
pub proof fn lemma_length_prefix_roundtrip(bytes: Seq<u8>, pos: int, n: usize)
    requires
        0 <= pos,
        prefix_reads_back(n as int),
        pos + length_prefix(n).len() <= bytes.len(),
        bytes.subrange(pos, pos + length_prefix(n).len()) == length_prefix(n),
    ensures
        data_length_at(bytes, pos) == n,
        length_prefix_width(bytes, pos) == length_prefix(n).len(),
        pos_after(bytes, pos, length_prefix_width(bytes, pos)) == pos + length_prefix(n).len(),
{
    let prefix = length_prefix(n);
    let part = bytes.subrange(pos, pos + prefix.len());
    assert(bytes[pos] == part[0]);
    if 0xFE < n <= 0xFFFE {
        assert(bytes[pos + 1] == part[1]);
        lemma_read_be_u16(bytes, pos, n as u16);
    } else if n > 0xFFFE {
        assert(bytes[pos + 1] == part[1]);
        lemma_read_be_u32(bytes, pos, n as u32);
    }
}

/// Framed datagrams begin with the first of them behind its prefix.
pub proof fn lemma_frames_front(subs: Seq<Seq<u8>>)
    requires
        subs.len() >= 1,
    ensures
        sub_packet_frames(subs) == length_prefix(subs[0].len() as usize) + subs[0]
            + sub_packet_frames(subs.drop_first()),
    decreases subs.len(),
{
    let head = length_prefix(subs[0].len() as usize) + subs[0];
    if subs.len() == 1 {
        assert(subs.drop_last() =~= Seq::<Seq<u8>>::empty());
        assert(subs.drop_first() =~= Seq::<Seq<u8>>::empty());
        assert(sub_packet_frames(subs) =~= head + sub_packet_frames(subs.drop_first()));
    } else {
        let front = subs.drop_last();
        lemma_frames_front(front);
        assert(front.drop_first() =~= subs.drop_first().drop_last());
        assert(front[0] == subs[0]);
        assert(subs.drop_first().last() == subs.last());
        assert(sub_packet_frames(subs) =~= head + sub_packet_frames(subs.drop_first()));
    }
}

/// The datagrams of a list of records are those of each record, in order.
pub proof fn lemma_serialize_all(subs: Seq<SoePacketView>, crc_seed: u32)
    ensures
        soe_serialize_all(subs, crc_seed).len() == subs.len(),
        forall|i: int|
            0 <= i < subs.len() ==> #[trigger] soe_serialize_all(subs, crc_seed)[i]
                == soe_serialize(subs[i], false, crc_seed),
    decreases subs.len(),
{
    if subs.len() > 0 {
        lemma_serialize_all(subs.drop_last(), crc_seed);
    }
}

/// Where framed datagrams stand between `pos` and `end`, the first prefix
/// reads as the length of the first datagram, the datagram follows it, and
/// the frames of the others follow the datagram.
pub proof fn lemma_first_frame(bytes: Seq<u8>, pos: int, end: int, all: Seq<Seq<u8>>)
    requires
        0 <= pos <= end <= bytes.len(),
        all.len() >= 1,
        prefix_reads_back(all[0].len() as int),
        bytes.subrange(pos, end) == sub_packet_frames(all),
    ensures
        ({
            let n = all[0].len() as int;
            let start = pos + length_prefix(n as usize).len();
            &&& data_length_at(bytes, pos) == n
            &&& pos_after(bytes, pos, length_prefix_width(bytes, pos)) == start
            &&& start + n <= end
            &&& bytes.subrange(start, start + n) == all[0]
            &&& bytes.subrange(start + n, end) == sub_packet_frames(all.drop_first())
        }),
{
    let first = all[0];
    let n = first.len() as usize;
    let prefix = length_prefix(n);
    let frames = sub_packet_frames(all);
    lemma_frames_front(all);
    let rest_frames = sub_packet_frames(all.drop_first());
    assert(frames == prefix + first + rest_frames);
    assert(frames.len() == end - pos);
    assert(bytes.subrange(pos, pos + prefix.len()) =~= prefix) by {
        assert forall|k: int| 0 <= k < prefix.len() implies bytes[pos + k] == prefix[k] by {
            assert(bytes.subrange(pos, end)[k] == frames[k]);
        }
    }
    lemma_length_prefix_roundtrip(bytes, pos, n);
    let start = pos + prefix.len();
    assert(bytes.subrange(start, start + n) =~= first) by {
        assert forall|k: int| 0 <= k < n implies bytes[start + k] == first[k] by {
            assert(bytes.subrange(pos, end)[prefix.len() + k] == frames[prefix.len() + k]);
        }
    }
    assert(bytes.subrange(start + n, end) =~= rest_frames) by {
        assert forall|k: int| 0 <= k < rest_frames.len() implies bytes[start + n + k]
            == rest_frames[k] by {
            assert(bytes.subrange(pos, end)[prefix.len() + n + k] == frames[prefix.len() + n + k]);
        }
    }
}

/// Sub-packets that each decode to themselves, and whose lengths read back,
/// decode to themselves as a list.
#[verifier::rlimit(30)]
pub proof fn lemma_sub_packets_roundtrip(
    bytes: Seq<u8>,
    pos: int,
    end: int,
    crc_seed: u32,
    subs: Seq<SoePacketView>,
)
    requires
        2 <= pos <= end <= bytes.len(),
        subs.len() >= 1,
        bytes.subrange(pos, end) == sub_packet_frames(soe_serialize_all(subs, crc_seed)),
        forall|i: int|
            0 <= i < subs.len() ==> prefix_reads_back(
                soe_serialize(#[trigger] subs[i], false, crc_seed).len() as int,
            ) && soe_parse(soe_serialize(subs[i], false, crc_seed), false, crc_seed) == subs[i],
    ensures
        soe_parse_sub_packets(bytes, pos, end, crc_seed) == Ok::<
            Seq<SoePacketView>,
            ProtocolErrorView,
        >(subs),
    decreases subs.len(),
{
    let all = soe_serialize_all(subs, crc_seed);
    lemma_serialize_all(subs, crc_seed);
    let first = soe_serialize(subs[0], false, crc_seed);
    assert(all[0] == first);
    lemma_first_frame(bytes, pos, end, all);
    let n = first.len() as int;
    let start = pos + length_prefix(n as usize).len();
    let rest = subs.drop_first();
    lemma_serialize_all(rest, crc_seed);
    assert(all.drop_first() =~= soe_serialize_all(rest, crc_seed));
    if subs.len() == 1 {
        assert(rest =~= Seq::<SoePacketView>::empty());
        assert(sub_packet_frames(all.drop_first()).len() == 0);
        assert(seq![subs[0]] =~= subs);
    } else {
        lemma_frames_front(all.drop_first());
        assert(sub_packet_frames(all.drop_first()).len() >= 1);
        assert forall|i: int| 0 <= i < rest.len() implies prefix_reads_back(
            soe_serialize(#[trigger] rest[i], false, crc_seed).len() as int,
        ) && soe_parse(soe_serialize(rest[i], false, crc_seed), false, crc_seed) == rest[i] by {
            assert(rest[i] == subs[i + 1]);
        }
        lemma_sub_packets_roundtrip(bytes, start + n, end, crc_seed, rest);
        assert(seq![subs[0]] + rest =~= subs);
    }
}

/// The records that the encoder can send and the decoder gives back. The
/// others are: a sequenced payload without a byte of payload, which is
/// shorter than the decoder accepts; a record whose opcode is not one of its
/// kind; a session request whose protocol name holds a NUL; a disconnect
/// other than the one that a bare opcode decodes to, since session and reason
/// are not sent; an unknown datagram other than the empty one; a fatal error
/// and an error, which are not sent at all; and a group that is empty,
/// shorter than seven bytes, or holds a sub-packet that is not such a record
/// itself or whose length does not read back.
pub open spec fn valid_record(p: SoePacketView, use_crc: bool, crc_seed: u32) -> bool
    decreases p,
{
    match p {
        SoePacketView::SessionRequest { protocol, .. } => forall|i: int|
            0 <= i < protocol.len() ==> protocol[i] != '\0',
        SoePacketView::SessionReply(_) => true,
        SoePacketView::NetStatusRequest(_) => true,
        SoePacketView::NetStatusReply(_) => true,
        SoePacketView::Data { opcode, data, .. } => is_data_opcode(opcode) && data.len() >= 1,
        SoePacketView::Ack(a) => is_ack_opcode(a.opcode),
        SoePacketView::Grouped { opcode, sub_packets } => {
            &&& is_group_opcode(opcode)
            &&& sub_packets.len() >= 1
            &&& valid_sub_records(sub_packets, crc_seed)
            &&& 2 + framed_len(soe_serialize_all(sub_packets, crc_seed)) >= 7
        },
        SoePacketView::Ping => true,
        SoePacketView::Disconnect { session_id, reason } => session_id == 0 && reason
            == "unknown"@,
        SoePacketView::Unknown { raw } => raw.len() == 0,
        SoePacketView::FatalError { .. } => false,
        SoePacketView::Error(_) => false,
    }
}

/// Whether every record of `subs` can travel in a group: it is a valid
/// record of a session without checksum, and the length of its datagram
/// reads back from its prefix.
pub open spec fn valid_sub_records(subs: Seq<SoePacketView>, crc_seed: u32) -> bool
    decreases subs,
{
    if subs.len() == 0 {
        true
    } else {
        &&& valid_sub_records(subs.drop_last(), crc_seed)
        &&& valid_record(subs.last(), false, crc_seed)
        &&& prefix_reads_back(soe_serialize(subs.last(), false, crc_seed).len() as int)
    }
}

/// Decoding gives back what was encoded: for every valid record, under the
/// same checksum settings on both sides.
pub proof fn lemma_parse_serialize_roundtrip(p: SoePacketView, use_crc: bool, crc_seed: u32)
    requires
        valid_record(p, use_crc, crc_seed),
    ensures
        soe_parse(soe_serialize(p, use_crc, crc_seed), use_crc, crc_seed) == p,
    decreases p,
{
    match p {
        SoePacketView::SessionRequest { session_id, protocol_version, udp_length, protocol } => {
            lemma_session_request_roundtrip(
                protocol_version,
                session_id,
                udp_length,
                protocol,
                use_crc,
                crc_seed,
            );
        },
        SoePacketView::SessionReply(r) => {
            lemma_session_reply_roundtrip(r, use_crc, crc_seed);
        },
        SoePacketView::NetStatusRequest(r) => {
            lemma_net_status_request_roundtrip(r, use_crc, crc_seed);
        },
        SoePacketView::NetStatusReply(r) => {
            lemma_net_status_reply_roundtrip(r, use_crc, crc_seed);
        },
        SoePacketView::Data { opcode, sequence, data } => {
            lemma_data_roundtrip(opcode, sequence, data, use_crc, crc_seed);
        },
        SoePacketView::Ack(a) => {
            lemma_ack_roundtrip(a, use_crc, crc_seed);
        },
        SoePacketView::Grouped { opcode, sub_packets } => {
            lemma_sub_records_roundtrip(sub_packets, crc_seed);
            lemma_grouped_roundtrip(opcode, sub_packets, use_crc, crc_seed);
        },
        SoePacketView::Ping => {
            let b = u16_be_bytes(0x06);
            assert(b.subrange(0, 2) =~= b);
            lemma_opcode_of_datagram(b, 0x06);
        },
        SoePacketView::Disconnect { .. } => {
            let b = u16_be_bytes(0x05);
            assert(b.subrange(0, 2) =~= b);
            lemma_opcode_of_datagram(b, 0x05);
        },
        SoePacketView::Unknown { raw } => {
            assert(raw =~= Seq::<u8>::empty());
        },
        SoePacketView::FatalError { .. } => {},
        SoePacketView::Error(_) => {},
    }
}

/// Every record of a valid list of sub-packets decodes to itself, and the
/// length of its datagram reads back.
pub proof fn lemma_sub_records_roundtrip(subs: Seq<SoePacketView>, crc_seed: u32)
    requires
        valid_sub_records(subs, crc_seed),
    ensures
        forall|i: int|
            0 <= i < subs.len() ==> prefix_reads_back(
                soe_serialize(#[trigger] subs[i], false, crc_seed).len() as int,
            ) && soe_parse(soe_serialize(subs[i], false, crc_seed), false, crc_seed) == subs[i],
    decreases subs,
{
    if subs.len() > 0 {
        lemma_sub_records_roundtrip(subs.drop_last(), crc_seed);
        lemma_parse_serialize_roundtrip(subs.last(), false, crc_seed);
        assert forall|i: int| 0 <= i < subs.len() implies prefix_reads_back(
            soe_serialize(#[trigger] subs[i], false, crc_seed).len() as int,
        ) && soe_parse(soe_serialize(subs[i], false, crc_seed), false, crc_seed) == subs[i] by {
            if i < subs.len() - 1 {
                assert(subs[i] == subs.drop_last()[i]);
            } else {
                assert(subs[i] == subs.last());
            }
        }
    }
}

/// How a grouped datagram is laid out: the opcode, the framed sub-packets,
/// and a checksum that passes the check.
pub proof fn lemma_group_layout(opcode: u16, all: Seq<Seq<u8>>, use_crc: bool, crc_seed: u32)
    requires
        is_group_opcode(opcode),
    ensures
        ({
            let b = with_crc(group_bytes(opcode, all), use_crc, crc_seed);
            let end = 2 + framed_len(all);
            &&& b.len() == end + (if use_crc {
                2int
            } else {
                0int
            })
            &&& datagram_opcode(b) == SoeOpcode::spec_from_value(opcode)
            &&& b.subrange(2, end as int) == sub_packet_frames(all)
            &&& passes_crc(b, use_crc, crc_seed)
        }),
{
    let body = group_bytes(opcode, all);
    let b = with_crc(body, use_crc, crc_seed);
    lemma_with_crc(body, use_crc, crc_seed);
    lemma_sub_packet_frames_len(all);
    let end = body.len() as int;
    assert(b.subrange(0, 2) =~= u16_be_bytes(opcode));
    lemma_opcode_of_datagram(b, opcode);
    assert(b.subrange(2, end) =~= sub_packet_frames(all));
}

/// A grouped datagram that is long enough, passes the check of its checksum
/// and holds sub-packets that decode, decodes to the group of them.
proof fn lemma_grouped_of(
    b: Seq<u8>,
    opcode: u16,
    use_crc: bool,
    crc_seed: u32,
    sub_packets: Seq<SoePacketView>,
)
    requires
        is_group_opcode(opcode),
        datagram_opcode(b) == SoeOpcode::spec_from_value(opcode),
        b.len() >= 7 + (if use_crc {
            2int
        } else {
            0int
        }),
        passes_crc(b, use_crc, crc_seed),
        soe_parse_sub_packets(
            b,
            2,
            b.len() - (if use_crc {
                2int
            } else {
                0int
            }),
            crc_seed,
        ) == Ok::<Seq<SoePacketView>, ProtocolErrorView>(sub_packets),
    ensures
        soe_parse(b, use_crc, crc_seed) == (SoePacketView::Grouped { opcode, sub_packets }),
{
    assert(soe_parse(b, use_crc, crc_seed) == grouped_of(b, opcode, use_crc, crc_seed));
}

/// A group decodes to itself where its sub-packets do.
#[verifier::rlimit(30)]
pub proof fn lemma_grouped_roundtrip(
    opcode: u16,
    sub_packets: Seq<SoePacketView>,
    use_crc: bool,
    crc_seed: u32,
)
    requires
        is_group_opcode(opcode),
        sub_packets.len() >= 1,
        2 + framed_len(soe_serialize_all(sub_packets, crc_seed)) >= 7,
        forall|i: int|
            0 <= i < sub_packets.len() ==> prefix_reads_back(
                soe_serialize(#[trigger] sub_packets[i], false, crc_seed).len() as int,
            ) && soe_parse(soe_serialize(sub_packets[i], false, crc_seed), false, crc_seed)
                == sub_packets[i],
    ensures
        soe_parse(
            soe_serialize(SoePacketView::Grouped { opcode, sub_packets }, use_crc, crc_seed),
            use_crc,
            crc_seed,
        ) == (SoePacketView::Grouped { opcode, sub_packets }),
{
    let all = soe_serialize_all(sub_packets, crc_seed);
    let b = with_crc(group_bytes(opcode, all), use_crc, crc_seed);
    let end = 2 + framed_len(all);
    lemma_group_layout(opcode, all, use_crc, crc_seed);
    lemma_sub_packets_roundtrip(b, 2, end as int, crc_seed, sub_packets);
    lemma_grouped_of(b, opcode, use_crc, crc_seed, sub_packets);
}

/// The shortest datagram that the decoder accepts for `opcode`, for the
/// kinds that have a shortest one. A kind that carries a checksum needs two
/// bytes more where the session uses one.
pub open spec fn min_size_of(opcode: SoeOpcode, use_crc: bool) -> Option<int> {
    let crc = if use_crc {
        2int
    } else {
        0int
    };
    match opcode {
        SoeOpcode::SessionRequest => Some(PacketsMinSize::SessionRequest.spec_size() as int),
        SoeOpcode::SessionReply => Some(PacketsMinSize::SessionReply.spec_size() as int),
        SoeOpcode::NetStatusRequest | SoeOpcode::NetStatusReply => Some(
            PacketsMinSize::NetStatusPacket.spec_size() as int,
        ),
        SoeOpcode::MultiPacket | SoeOpcode::Group => Some(
            PacketsMinSize::MultiPacket.spec_size() + crc,
        ),
        SoeOpcode::Data | SoeOpcode::DataFragment | SoeOpcode::Ordered => Some(
            PacketsMinSize::DataPacket.spec_size() + crc,
        ),
        SoeOpcode::OutOfOrder | SoeOpcode::Ack => Some(PacketsMinSize::Ack.spec_size() + crc),
        SoeOpcode::Disconnect | SoeOpcode::Ping => None,
        SoeOpcode::FatalError | SoeOpcode::Unknown => None,
    }
}

/// Whether `data` is shorter than the minimum of its kind. The kinds
/// without a minimum are the ping, the fatal error and the unknown datagram,
/// which any length satisfies, and the disconnect, of which a short one is
/// taken as a disconnect without reason.
pub open spec fn is_too_short(data: Seq<u8>, use_crc: bool) -> bool {
    &&& min_size_of(datagram_opcode(data), use_crc) is Some
    &&& data.len() < min_size_of(datagram_opcode(data), use_crc)->0
}

/// A datagram shorter than the minimum of its kind decodes to a size error.
pub proof fn lemma_short_datagram_is_size_error(data: Seq<u8>, use_crc: bool, crc_seed: u32)
    requires
        is_too_short(data, use_crc),
    ensures
        soe_parse(data, use_crc, crc_seed) == size_error(data),
{
}

/// Whether `data` is checked against a checksum and fails the check: the
/// session uses a checksum, the kind of `data` carries one, `data` is long
/// enough for its kind, and the checksum of all but its last two bytes is
/// not what these two hold.
pub open spec fn fails_crc_check(data: Seq<u8>, use_crc: bool, crc_seed: u32) -> bool {
    &&& use_crc
    &&& data.len() >= 2
    &&& carries_crc(datagram_opcode(data))
    &&& data.len() >= min_size_of(datagram_opcode(data), use_crc)->0
    &&& given_crc(data) != expected_crc(data, crc_seed)
}

/// A datagram that fails the check of its checksum decodes to a checksum
/// error that names both values.
pub proof fn lemma_crc_mismatch_is_crc_error(data: Seq<u8>, use_crc: bool, crc_seed: u32)
    requires
        fails_crc_check(data, use_crc, crc_seed),
    ensures
        soe_parse(data, use_crc, crc_seed) == crc_error(data, crc_seed),
{
}

/// A grouped datagram is as long as its opcode, its sub-packets and their
/// length prefixes together, and two bytes longer with a checksum.
pub proof fn lemma_grouped_length(
    opcode: u16,
    sub_packets: Seq<SoePacketView>,
    use_crc: bool,
    crc_seed: u32,
)
    ensures
        soe_serialize(SoePacketView::Grouped { opcode, sub_packets }, use_crc, crc_seed).len() == 2
            + framed_len(soe_serialize_all(sub_packets, crc_seed)) + (if use_crc {
            2int
        } else {
            0int
        }),
{
    let all = soe_serialize_all(sub_packets, crc_seed);
    lemma_sub_packet_frames_len(all);
    lemma_with_crc(group_bytes(opcode, all), use_crc, crc_seed);
}

} // verus!
