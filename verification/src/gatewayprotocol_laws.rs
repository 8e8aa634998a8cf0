//! What holds between the gateway decoder and the frames that the records
//! build.

use crate::byte_cursor::{
    le_u32_at, le_u64_at, lemma_le_u32_roundtrip, lemma_le_u64_roundtrip, pos_after, u32_le_bytes,
    u64_le_bytes,
};
use crate::gatewayprotocol::{
    frame_header, gateway_parse, header_channel, header_opcode, GatewayOpcode,
};
use crate::gatewayprotocol_packets_structs::{
    login_reply_bytes, login_request_bytes, prefixed_string_bytes, tunnel_bytes, tunnel_header,
    GatewayPacketView, LoginReplyPacket,
};
use crate::lib_utils::prefixed_string;
use vstd::prelude::*;
use vstd::utf8::{encode_utf8, encode_utf8_decode_utf8, encode_utf8_valid_utf8};

verus! {

/// A string is read back from the place where it stands behind its length,
/// as long as the number of its bytes fits in 32 bits.
pub proof fn lemma_read_prefixed_string(data: Seq<u8>, pos: int, text: Seq<char>)
    requires
        0 <= pos,
        encode_utf8(text).len() <= u32::MAX,
        pos + prefixed_string_bytes(text).len() <= data.len(),
        data.subrange(pos, pos + prefixed_string_bytes(text).len()) == prefixed_string_bytes(text),
    ensures
        le_u32_at(data, pos) == encode_utf8(text).len(),
        prefixed_string(data, pos, encode_utf8(text).len() as int) == text,
{
    let bytes = encode_utf8(text);
    let n = bytes.len() as u32;
    let framed = prefixed_string_bytes(text);
    lemma_le_u32_roundtrip(n);
    assert(framed.len() == 4 + bytes.len());
    assert(data.subrange(pos, pos + 4) =~= u32_le_bytes(n)) by {
        assert forall|k: int| 0 <= k < 4 implies data[pos + k] == u32_le_bytes(n)[k] by {
            assert(data.subrange(pos, pos + framed.len())[k] == framed[k]);
        }
    }
    assert(data.subrange(pos + 4, pos + 4 + bytes.len()) =~= bytes) by {
        assert forall|k: int| 0 <= k < bytes.len() implies data[pos + 4 + k] == bytes[k] by {
            assert(data.subrange(pos, pos + framed.len())[4 + k] == framed[4 + k]);
        }
    }
    encode_utf8_valid_utf8(text);
    encode_utf8_decode_utf8(text);
}

/// Where the parts of a frame of five parts stand.
proof fn lemma_five_parts(a: Seq<u8>, b: Seq<u8>, c: Seq<u8>, d: Seq<u8>, e: Seq<u8>)
    ensures
        ({
            let data = a + b + c + d + e;
            let at1 = a.len() as int;
            let at2 = at1 + b.len();
            let at3 = at2 + c.len();
            let at4 = at3 + d.len();
            &&& data.len() == at4 + e.len()
            &&& data.subrange(0, at1) == a
            &&& data.subrange(at1, at2) == b
            &&& data.subrange(at2, at3) == c
            &&& data.subrange(at3, at4) == d
            &&& data.subrange(at4, data.len() as int) == e
        }),
{
    let data = a + b + c + d + e;
    let at1 = a.len() as int;
    let at2 = at1 + b.len();
    let at3 = at2 + c.len();
    let at4 = at3 + d.len();
    assert(data.subrange(0, at1) =~= a);
    assert(data.subrange(at1, at2) =~= b);
    assert(data.subrange(at2, at3) =~= c);
    assert(data.subrange(at3, at4) =~= d);
    assert(data.subrange(at4, data.len() as int) =~= e);
}

/// What the fields of the frame of a login request read as.
#[verifier::rlimit(30)]
proof fn lemma_login_request_fields(
    character_id: u64,
    ticket: Seq<char>,
    client_protocol: Seq<char>,
    client_build: Seq<char>,
)
    requires
        encode_utf8(ticket).len() <= u32::MAX,
        encode_utf8(client_protocol).len() <= u32::MAX,
        encode_utf8(client_build).len() <= u32::MAX,
    ensures
        ({
            let data = login_request_bytes(character_id, ticket, client_protocol, client_build);
            let n1 = encode_utf8(ticket).len() as int;
            let n2 = encode_utf8(client_protocol).len() as int;
            let n3 = encode_utf8(client_build).len() as int;
            let at1 = 9int;
            let at2 = at1 + n1 + 4;
            let at3 = at2 + n2 + 4;
            &&& frame_header(data) == 0x01
            &&& le_u64_at(data, 1) == character_id
            &&& pos_after(data, 1, 8) == at1
            &&& le_u32_at(data, at1) == n1
            &&& prefixed_string(data, at1, n1) == ticket
            &&& le_u32_at(data, at2) == n2
            &&& prefixed_string(data, at2, n2) == client_protocol
            &&& le_u32_at(data, at3) == n3
            &&& prefixed_string(data, at3, n3) == client_build
        }),
{
    let data = login_request_bytes(character_id, ticket, client_protocol, client_build);
    let f1 = prefixed_string_bytes(ticket);
    let f2 = prefixed_string_bytes(client_protocol);
    let f3 = prefixed_string_bytes(client_build);
    let at1 = 9int;
    let at2 = at1 + f1.len();
    let at3 = at2 + f2.len();
    lemma_five_parts(seq![0x01u8], u64_le_bytes(character_id), f1, f2, f3);
    assert(frame_header(data) == 0x01) by {
        assert(data[0] == data.subrange(0, 1)[0]);
    }
    assert(le_u64_at(data, 1) == character_id && pos_after(data, 1, 8) == at1) by {
        lemma_le_u64_roundtrip(character_id);
    }
    assert(f1.len() == encode_utf8(ticket).len() + 4);
    assert(f2.len() == encode_utf8(client_protocol).len() + 4);
    assert(f3.len() == encode_utf8(client_build).len() + 4);
    lemma_read_prefixed_string(data, at1, ticket);
    lemma_read_prefixed_string(data, at2, client_protocol);
    lemma_read_prefixed_string(data, at3, client_build);
}

/// The frame of a login request decodes to the request, as long as the
/// number of bytes of each of its strings fits in 32 bits.
pub proof fn lemma_login_request_roundtrip(
    character_id: u64,
    ticket: Seq<char>,
    client_protocol: Seq<char>,
    client_build: Seq<char>,
)
    requires
        encode_utf8(ticket).len() <= u32::MAX,
        encode_utf8(client_protocol).len() <= u32::MAX,
        encode_utf8(client_build).len() <= u32::MAX,
    ensures
        gateway_parse(login_request_bytes(character_id, ticket, client_protocol, client_build))
            == (GatewayPacketView::LoginRequest {
            character_id,
            ticket,
            client_protocol,
            client_build,
        }),
{
    lemma_login_request_fields(character_id, ticket, client_protocol, client_build);
    assert(0x01u8 & 0x1f == 0x01u8) by (bit_vector);
}

/// The frame of a login reply decodes to the reply.
pub proof fn lemma_login_reply_roundtrip(p: LoginReplyPacket)
    ensures
        gateway_parse(login_reply_bytes(p)) == GatewayPacketView::LoginReply(p),
{
    let data = login_reply_bytes(p);
    assert(data[0] == 0x02);
    assert(0x02u8 & 0x1f == 0x02u8) by (bit_vector);
}

/// The header of a tunnel frame names the opcode and the channel that it
/// was built from, for the eight channels that it has room for.
pub proof fn lemma_tunnel_header(opcode: GatewayOpcode, channel: u8)
    requires
        opcode == GatewayOpcode::TunnelDataClient || opcode == GatewayOpcode::TunnelDataServer,
        channel < 8,
    ensures
        header_opcode(tunnel_header(opcode, channel)) == opcode,
        header_channel(tunnel_header(opcode, channel)) == channel,
{
    let op = opcode.spec_value();
    assert((op | (channel << 5)) & 0x1f == op && (op | (channel << 5)) >> 5 == channel)
        by (bit_vector)
        requires
            op == 0x05 || op == 0x06,
            channel < 8,
    ;
}

/// A tunnel frame decodes to the opcode, the channel and the data that it
/// was built from, for the eight channels that its header has room for.
pub proof fn lemma_tunnel_roundtrip(opcode: GatewayOpcode, channel: u8, tunnel_data: Seq<u8>)
    requires
        opcode == GatewayOpcode::TunnelDataClient || opcode == GatewayOpcode::TunnelDataServer,
        channel < 8,
    ensures
        gateway_parse(tunnel_bytes(opcode, channel, tunnel_data)) == (GatewayPacketView::Tunnel {
            channel,
            opcode,
            tunnel_data,
        }),
{
    let data = tunnel_bytes(opcode, channel, tunnel_data);
    lemma_tunnel_header(opcode, channel);
    assert(frame_header(data) == tunnel_header(opcode, channel));
    assert(data.subrange(1, data.len() as int) =~= tunnel_data);
}

} // verus!
