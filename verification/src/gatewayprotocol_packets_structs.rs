//! The records that gateway frames decode to.

use crate::byte_cursor::{
    le_u32_at, le_u64_at, pos_after, put_u32_le, put_u64_le, u32_le_bytes, u64_le_bytes, u8_at,
    ByteCursor,
};
use crate::gatewayprotocol::{header_channel, header_opcode, GatewayOpcode};
use crate::lib_utils::{prefixed_string, read_prefixed_string_le};
use vstd::prelude::*;
use vstd::slice::slice_to_vec;
use vstd::utf8::encode_utf8;

verus! {

/// The request to log a character in.
#[derive(Debug, Clone, PartialEq, Eq)]
pub struct LoginRequestPacket {
    pub character_id: u64,
    pub ticket: String,
    pub client_protocol: String,
    pub client_build: String,
}

/// Where the field behind a length-prefixed string starts: behind the four
/// bytes of the prefix at `pos` and the `length` bytes it announces.
pub open spec fn after_prefixed_string(pos: int, length: u32) -> int {
    pos + length + 4
}

/// The login request whose fields stand at `pos`: the character, then the
/// ticket, the client's protocol and the client's build, each behind a
/// little-endian 32-bit length.
pub open spec fn login_request_at(data: Seq<u8>, pos: int) -> GatewayPacketView {
    let at1 = pos_after(data, pos, 8);
    let n1 = le_u32_at(data, at1);
    let at2 = after_prefixed_string(at1, n1);
    let n2 = le_u32_at(data, at2);
    let at3 = after_prefixed_string(at2, n2);
    let n3 = le_u32_at(data, at3);
    GatewayPacketView::LoginRequest {
        character_id: le_u64_at(data, pos),
        ticket: prefixed_string(data, at1, n1 as int),
        client_protocol: prefixed_string(data, at2, n2 as int),
        client_build: prefixed_string(data, at3, n3 as int),
    }
}

/// A string behind its length: the little-endian 32-bit number of its bytes,
/// then the bytes. A number beyond 32 bits keeps its low 32 bits.
pub open spec fn prefixed_string_bytes(text: Seq<char>) -> Seq<u8> {
    u32_le_bytes(encode_utf8(text).len() as u32) + encode_utf8(text)
}

/// The frame of a login request.
pub open spec fn login_request_bytes(
    character_id: u64,
    ticket: Seq<char>,
    client_protocol: Seq<char>,
    client_build: Seq<char>,
) -> Seq<u8> {
    seq![0x01u8] + u64_le_bytes(character_id) + prefixed_string_bytes(ticket)
        + prefixed_string_bytes(client_protocol) + prefixed_string_bytes(client_build)
}

/// Appends `text` behind its length.
fn put_prefixed_string(wtr: &mut Vec<u8>, text: &str)
    ensures
        final(wtr)@ == old(wtr)@ + prefixed_string_bytes(text@),
{
    let mut bytes = slice_to_vec(text.as_bytes());
    put_u32_le(wtr, #[verifier::truncate] (bytes.len() as u32));
    wtr.append(&mut bytes);
    assert(wtr@ =~= old(wtr)@ + prefixed_string_bytes(text@));
}

/// Reads the length prefix at the cursor's position and the string behind
/// it, and leaves the cursor behind the string.
fn take_prefixed_string(rdr: &mut ByteCursor) -> (text: String)
    ensures
        final(rdr).data == old(rdr).data,
        text@ == prefixed_string(
            old(rdr).data@,
            old(rdr).pos as int,
            le_u32_at(old(rdr).data@, old(rdr).pos as int) as int,
        ),
        ({
            let next = after_prefixed_string(
                old(rdr).pos as int,
                le_u32_at(old(rdr).data@, old(rdr).pos as int),
            );
            final(rdr).pos == next || (final(rdr).pos >= old(rdr).data@.len() && next >= old(
                rdr,
            ).data@.len())
        }),
{
    let raw = rdr.get_ref();
    let pos = rdr.position();
    let length = rdr.read_u32_le();
    let text = if pos > raw.len() as u64 {
        "Fail to read prefixed string little endiant".to_owned()
    } else {
        read_prefixed_string_le(raw.as_slice(), pos as usize, length)
    };
    let step = length as u64 + 4;
    if step > u64::MAX - pos {
        rdr.set_position(u64::MAX);
    } else {
        rdr.set_position(pos + step);
    }
    text
}

/// Past the end of the data every length reads as zero and every string as
/// the failure message.
proof fn lemma_past_the_end(data: Seq<u8>, p: int, q: int)
    requires
        p >= data.len(),
        q >= data.len(),
    ensures
        le_u32_at(data, p) == 0,
        le_u32_at(data, q) == 0,
        prefixed_string(data, p, 0) == prefixed_string(data, q, 0),
{
}

impl LoginRequestPacket {
    pub open spec fn view(&self) -> GatewayPacketView {
        GatewayPacketView::LoginRequest {
            character_id: self.character_id,
            ticket: self.ticket@,
            client_protocol: self.client_protocol@,
            client_build: self.client_build@,
        }
    }

    pub fn new(
        character_id: u64,
        ticket: String,
        client_protocol: String,
        client_build: String,
    ) -> (packet: LoginRequestPacket)
        ensures
            packet.character_id == character_id,
            packet.ticket == ticket,
            packet.client_protocol == client_protocol,
            packet.client_build == client_build,
    {
        LoginRequestPacket { character_id, ticket, client_protocol, client_build }
    }

    pub fn get_character_id(&self) -> (v: u64)
        ensures
            v == self.character_id,
    {
        self.character_id
    }

    pub fn get_ticket(&self) -> (v: String)
        ensures
            v@ == self.ticket@,
    {
        self.ticket.clone()
    }

    pub fn get_client_protocol(&self) -> (v: String)
        ensures
            v@ == self.client_protocol@,
    {
        self.client_protocol.clone()
    }

    pub fn get_client_build(&self) -> (v: String)
        ensures
            v@ == self.client_build@,
    {
        self.client_build.clone()
    }

    /// A copy of the packet.
    pub fn duplicate(&self) -> (copy: Self)
        ensures
            copy@ == self@,
    {
        LoginRequestPacket {
            character_id: self.character_id,
            ticket: self.ticket.clone(),
            client_protocol: self.client_protocol.clone(),
            client_build: self.client_build.clone(),
        }
    }

    /// The frame of this request.
    pub fn build(&self) -> (wtr: Vec<u8>)
        ensures
            wtr@ == login_request_bytes(
                self.character_id,
                self.ticket@,
                self.client_protocol@,
                self.client_build@,
            ),
    {
        let mut wtr: Vec<u8> = Vec::new();
        wtr.push(GatewayOpcode::LoginRequest.value());
        put_u64_le(&mut wtr, self.character_id);
        put_prefixed_string(&mut wtr, self.ticket.as_str());
        put_prefixed_string(&mut wtr, self.client_protocol.as_str());
        put_prefixed_string(&mut wtr, self.client_build.as_str());
        assert(wtr@ =~= login_request_bytes(
            self.character_id,
            self.ticket@,
            self.client_protocol@,
            self.client_build@,
        ));
        wtr
    }

    /// Reads the fields that follow the header, from the cursor's position
    /// on. A string whose prefix or bytes do not lie within the frame reads
    /// as a fixed message.
    pub fn from(rdr: ByteCursor) -> (packet: LoginRequestPacket)
        ensures
            packet@ == login_request_at(rdr.data@, rdr.pos as int),
    {
        let ghost data = rdr.data@;
        let mut cursor = rdr;
        let character_id = cursor.read_u64_le();
        let ghost at1 = cursor.pos as int;
        let ghost n1 = le_u32_at(data, at1);
        let ticket = take_prefixed_string(&mut cursor);
        let ghost at2 = after_prefixed_string(at1, n1);
        let ghost n2 = le_u32_at(data, at2);
        let ghost now2 = cursor.pos as int;
        proof {
            if now2 != at2 {
                lemma_past_the_end(data, at2, now2);
            }
        }
        let client_protocol = take_prefixed_string(&mut cursor);
        let ghost at3 = after_prefixed_string(at2, n2);
        let ghost now3 = cursor.pos as int;
        proof {
            if now3 != at3 {
                lemma_past_the_end(data, at3, now3);
            }
        }
        let client_build = take_prefixed_string(&mut cursor);
        LoginRequestPacket { character_id, ticket, client_protocol, client_build }
    }
}

/// The answer to a login request.
#[derive(Debug, Clone, Copy, PartialEq, Eq, Structural)]
pub struct LoginReplyPacket {
    pub logged_in: bool,
}

/// The login reply whose flag stands at `pos`: any byte but zero says yes.
pub open spec fn login_reply_at(data: Seq<u8>, pos: int) -> LoginReplyPacket {
    LoginReplyPacket { logged_in: u8_at(data, pos) != 0 }
}

/// The frame of a login reply.
pub open spec fn login_reply_bytes(p: LoginReplyPacket) -> Seq<u8> {
    seq![0x02u8, if p.logged_in { 1u8 } else { 0u8 }]
}

impl LoginReplyPacket {
    pub fn new(logged_in: bool) -> (packet: LoginReplyPacket)
        ensures
            packet.logged_in == logged_in,
    {
        LoginReplyPacket { logged_in }
    }

    pub fn get_logged_in(&self) -> (v: bool)
        ensures
            v == self.logged_in,
    {
        self.logged_in
    }

    /// The frame of this reply.
    pub fn build(&self) -> (wtr: Vec<u8>)
        ensures
            wtr@ == login_reply_bytes(*self),
    {
        let mut wtr: Vec<u8> = Vec::new();
        wtr.push(GatewayOpcode::LoginReply.value());
        wtr.push(if self.logged_in { 1 } else { 0 });
        assert(wtr@ =~= login_reply_bytes(*self));
        wtr
    }

    /// Reads the flag at the cursor's position.
    pub fn from(rdr: ByteCursor) -> (packet: LoginReplyPacket)
        ensures
            packet == login_reply_at(rdr.data@, rdr.pos as int),
    {
        let mut rdr = rdr;
        let logged_in: bool = rdr.read_u8() != 0;
        LoginReplyPacket { logged_in }
    }
}

/// The notice that a channel can be routed.
#[derive(Debug, Clone, Copy, PartialEq, Eq, Structural)]
pub struct ChannelIsRoutablePacket {
    pub is_routable: bool,
}

/// The notice whose flag stands at `pos`: the byte one says yes.
pub open spec fn channel_is_routable_at(data: Seq<u8>, pos: int) -> ChannelIsRoutablePacket {
    ChannelIsRoutablePacket { is_routable: u8_at(data, pos) == 1 }
}

impl ChannelIsRoutablePacket {
    pub fn new(is_routable: bool) -> (packet: ChannelIsRoutablePacket)
        ensures
            packet.is_routable == is_routable,
    {
        ChannelIsRoutablePacket { is_routable }
    }

    pub fn get_is_routable(&self) -> (v: bool)
        ensures
            v == self.is_routable,
    {
        self.is_routable
    }

    /// The frame of this notice: the header alone.
    pub fn build(&self) -> (wtr: Vec<u8>)
        ensures
            wtr@ == seq![0x07u8],
    {
        let mut wtr: Vec<u8> = Vec::new();
        wtr.push(GatewayOpcode::ChannelIsRoutable.value());
        assert(wtr@ =~= seq![0x07u8]);
        wtr
    }

    /// Reads the flag at the cursor's position.
    pub fn from(rdr: ByteCursor) -> (packet: ChannelIsRoutablePacket)
        ensures
            packet == channel_is_routable_at(rdr.data@, rdr.pos as int),
    {
        let mut rdr = rdr;
        let is_routable = rdr.read_u8() == 1;
        ChannelIsRoutablePacket { is_routable }
    }
}

/// Opaque data for a routing channel, from the client or from the server as
/// `opcode` says.
#[derive(Debug, Clone, PartialEq, Eq)]
pub struct TunnelPacket {
    pub channel: u8,
    pub opcode: GatewayOpcode,
    pub tunnel_data: Vec<u8>,
}

/// The header byte of a tunnel frame: the opcode in the low five bits, the
/// channel in the high three.
pub open spec fn tunnel_header(opcode: GatewayOpcode, channel: u8) -> u8 {
    opcode.spec_value() | (channel << 5)
}

/// The frame of tunnel data.
pub open spec fn tunnel_bytes(opcode: GatewayOpcode, channel: u8, tunnel_data: Seq<u8>) -> Seq<
    u8,
> {
    seq![tunnel_header(opcode, channel)] + tunnel_data
}

/// The record of the tunnel frame `data`, which holds a header at least.
pub open spec fn tunnel_of(data: Seq<u8>) -> GatewayPacketView {
    GatewayPacketView::Tunnel {
        channel: header_channel(data[0]),
        opcode: header_opcode(data[0]),
        tunnel_data: data.subrange(1, data.len() as int),
    }
}

impl TunnelPacket {
    pub open spec fn view(&self) -> GatewayPacketView {
        GatewayPacketView::Tunnel {
            channel: self.channel,
            opcode: self.opcode,
            tunnel_data: self.tunnel_data@,
        }
    }

    pub fn new(opcode: GatewayOpcode, channel: u8, tunnel_data: Vec<u8>) -> (packet: TunnelPacket)
        ensures
            packet.opcode == opcode,
            packet.channel == channel,
            packet.tunnel_data == tunnel_data,
    {
        TunnelPacket { opcode, channel, tunnel_data }
    }

    pub fn get_channel(&self) -> (v: u8)
        ensures
            v == self.channel,
    {
        self.channel
    }

    pub fn get_tunnel_data(&self) -> (v: Vec<u8>)
        ensures
            v@ == self.tunnel_data@,
    {
        self.tunnel_data.clone()
    }

    /// A copy of the packet.
    pub fn duplicate(&self) -> (copy: Self)
        ensures
            copy@ == self@,
    {
        TunnelPacket {
            opcode: self.opcode,
            channel: self.channel,
            tunnel_data: self.tunnel_data.clone(),
        }
    }

    /// The frame of this packet. The data moves into the frame: the packet
    /// is left with none.
    pub fn build(&mut self) -> (wtr: Vec<u8>)
        ensures
            wtr@ == tunnel_bytes(old(self).opcode, old(self).channel, old(self).tunnel_data@),
            final(self).opcode == old(self).opcode,
            final(self).channel == old(self).channel,
            final(self).tunnel_data@ == Seq::<u8>::empty(),
    {
        let mut wtr: Vec<u8> = Vec::new();
        wtr.push(self.opcode.value() | (self.channel << 5));
        wtr.append(&mut self.tunnel_data);
        assert(wtr@ =~= tunnel_bytes(old(self).opcode, old(self).channel, old(self).tunnel_data@));
        wtr
    }

    /// Splits a frame into its header and the data behind it.
    pub fn from(data: Vec<u8>) -> (packet: TunnelPacket)
        requires
            data@.len() >= 1,
        ensures
            packet@ == tunnel_of(data@),
    {
        let ghost frame = data@;
        let mut tunnel_data = data;
        let header = tunnel_data.remove(0);
        let channel = header >> 5;
        let opcode = GatewayOpcode::from_value(header & 0x1f);
        let packet = TunnelPacket { opcode, channel, tunnel_data };
        assert(packet.tunnel_data@ =~= frame.subrange(1, frame.len() as int));
        packet
    }
}

/// The notice that a channel cannot be routed. It has no fields.
#[derive(Debug, Clone, Copy, PartialEq, Eq, Structural)]
pub struct ChannelIsNotRoutablePacket {}

impl ChannelIsNotRoutablePacket {
    /// The notice, whatever the frame holds behind its header.
    pub fn from(rdr: ByteCursor) -> (packet: ChannelIsNotRoutablePacket) {
        ChannelIsNotRoutablePacket {  }
    }
}

/// The end of a login. It has no fields.
#[derive(Debug, Clone, Copy, PartialEq, Eq, Structural)]
pub struct LogoutPacket {}

impl LogoutPacket {
    /// The logout, whatever the frame holds behind its header.
    pub fn from(rdr: ByteCursor) -> (packet: LogoutPacket) {
        LogoutPacket {  }
    }
}

/// The order to drop a login. It has no fields.
#[derive(Debug, Clone, Copy, PartialEq, Eq, Structural)]
pub struct ForceDisconnectPacket {}

impl ForceDisconnectPacket {
    /// The order, whatever the frame holds behind its header.
    pub fn from(rdr: ByteCursor) -> (packet: ForceDisconnectPacket) {
        ForceDisconnectPacket {  }
    }
}

/// A frame whose opcode is not known, kept as it came, with the channel that
/// its header names.
#[derive(Debug, Clone, PartialEq, Eq)]
pub struct UnknownGatewayPacket {
    pub channel: u8,
    pub raw: Vec<u8>,
}

impl UnknownGatewayPacket {
    /// The frame under `rdr`, whatever the cursor's position.
    pub fn from(rdr: ByteCursor) -> (packet: UnknownGatewayPacket)
        ensures
            packet.channel == header_channel(u8_at(rdr.data@, 0)),
            packet.raw@ == rdr.data@,
    {
        let raw = rdr.get_ref();
        let mut start = ByteCursor::new(raw);
        let channel = start.read_u8() >> 5;
        UnknownGatewayPacket { channel, raw: raw.clone() }
    }
}

/// A decoded gateway frame.
#[derive(Debug, Clone, PartialEq, Eq)]
pub enum GatewayPacket {
    LoginRequest(LoginRequestPacket),
    LoginReply(LoginReplyPacket),
    ChannelIsRoutable(ChannelIsRoutablePacket),
    ChannelIsNotRoutable(ChannelIsNotRoutablePacket),
    Tunnel(TunnelPacket),
    Unknown(UnknownGatewayPacket),
    Logout(LogoutPacket),
    ForceDisconnect(ForceDisconnectPacket),
}

/// The mathematical content of a `GatewayPacket`.
pub enum GatewayPacketView {
    LoginRequest {
        character_id: u64,
        ticket: Seq<char>,
        client_protocol: Seq<char>,
        client_build: Seq<char>,
    },
    LoginReply(LoginReplyPacket),
    ChannelIsRoutable(ChannelIsRoutablePacket),
    ChannelIsNotRoutable,
    Tunnel { channel: u8, opcode: GatewayOpcode, tunnel_data: Seq<u8> },
    Unknown { channel: u8, raw: Seq<u8> },
    Logout,
    ForceDisconnect,
}

impl View for GatewayPacket {
    type V = GatewayPacketView;

    open spec fn view(&self) -> GatewayPacketView {
        match self {
            GatewayPacket::LoginRequest(p) => p.view(),
            GatewayPacket::LoginReply(p) => GatewayPacketView::LoginReply(*p),
            GatewayPacket::ChannelIsRoutable(p) => GatewayPacketView::ChannelIsRoutable(*p),
            GatewayPacket::ChannelIsNotRoutable(_) => GatewayPacketView::ChannelIsNotRoutable,
            GatewayPacket::Tunnel(p) => p.view(),
            GatewayPacket::Unknown(p) => GatewayPacketView::Unknown {
                channel: p.channel,
                raw: p.raw@,
            },
            GatewayPacket::Logout(_) => GatewayPacketView::Logout,
            GatewayPacket::ForceDisconnect(_) => GatewayPacketView::ForceDisconnect,
        }
    }
}

impl GatewayPacket {
    /// A copy of the packet.
    pub fn duplicate(&self) -> (copy: GatewayPacket)
        ensures
            copy@ == self@,
    {
        match self {
            GatewayPacket::LoginRequest(p) => GatewayPacket::LoginRequest(p.duplicate()),
            GatewayPacket::LoginReply(p) => GatewayPacket::LoginReply(*p),
            GatewayPacket::ChannelIsRoutable(p) => GatewayPacket::ChannelIsRoutable(*p),
            GatewayPacket::ChannelIsNotRoutable(p) => GatewayPacket::ChannelIsNotRoutable(*p),
            GatewayPacket::Tunnel(p) => GatewayPacket::Tunnel(p.duplicate()),
            GatewayPacket::Unknown(p) => GatewayPacket::Unknown(
                UnknownGatewayPacket { channel: p.channel, raw: p.raw.clone() },
            ),
            GatewayPacket::Logout(p) => GatewayPacket::Logout(*p),
            GatewayPacket::ForceDisconnect(p) => GatewayPacket::ForceDisconnect(*p),
        }
    }
}

/// A decoded gateway frame together with its kind.
#[derive(Debug, Clone, PartialEq, Eq)]
pub struct GatewayPacketParsed {
    pub opcode: GatewayOpcode,
    pub packet: GatewayPacket,
}

impl GatewayPacketParsed {
    pub fn new(opcode: GatewayOpcode, packet: GatewayPacket) -> (parsed: Self)
        ensures
            parsed.opcode == opcode,
            parsed.packet == packet,
    {
        Self { opcode, packet }
    }

    pub fn get_opcode(&self) -> (opcode: GatewayOpcode)
        ensures
            opcode == self.opcode,
    {
        self.opcode
    }

    /// A copy of the packet.
    pub fn get_packet(&self) -> (packet: GatewayPacket)
        ensures
            packet@ == self.packet@,
    {
        self.packet.duplicate()
    }

    /// The login request, where the packet is one.
    pub fn get_login_request_packet(&self) -> (packet: Option<LoginRequestPacket>)
        ensures
            packet is Some <==> self.packet is LoginRequest,
            packet is Some ==> packet->0@ == self.packet@,
    {
        match &self.packet {
            GatewayPacket::LoginRequest(packet) => Some(packet.duplicate()),
            _ => None,
        }
    }

    /// The login reply, where the packet is one.
    pub fn get_login_reply_packet(&self) -> (packet: Option<LoginReplyPacket>)
        ensures
            packet is Some <==> self.packet is LoginReply,
            packet is Some ==> packet->0 == self.packet->LoginReply_0,
    {
        match &self.packet {
            GatewayPacket::LoginReply(packet) => Some(*packet),
            _ => None,
        }
    }

    /// The notice that a channel can be routed, where the packet is one.
    pub fn get_channel_is_routable_packet(&self) -> (packet: Option<ChannelIsRoutablePacket>)
        ensures
            packet is Some <==> self.packet is ChannelIsRoutable,
            packet is Some ==> packet->0 == self.packet->ChannelIsRoutable_0,
    {
        match &self.packet {
            GatewayPacket::ChannelIsRoutable(packet) => Some(*packet),
            _ => None,
        }
    }

    /// The notice that a channel cannot be routed, where the packet is one.
    pub fn get_channel_is_not_routable_packet(&self) -> (packet: Option<
        ChannelIsNotRoutablePacket,
    >)
        ensures
            packet is Some <==> self.packet is ChannelIsNotRoutable,
    {
        match &self.packet {
            GatewayPacket::ChannelIsNotRoutable(packet) => Some(*packet),
            _ => None,
        }
    }

    /// The tunnel data, where the packet holds some.
    pub fn get_tunnel_packet(&self) -> (packet: Option<TunnelPacket>)
        ensures
            packet is Some <==> self.packet is Tunnel,
            packet is Some ==> packet->0@ == self.packet@,
    {
        match &self.packet {
            GatewayPacket::Tunnel(packet) => Some(packet.duplicate()),
            _ => None,
        }
    }

    /// The raw frame, where its opcode was not known.
    pub fn get_unknown_packet(&self) -> (packet: Option<UnknownGatewayPacket>)
        ensures
            packet is Some <==> self.packet is Unknown,
            packet is Some ==> GatewayPacket::Unknown(packet->0)@ == self.packet@,
    {
        match &self.packet {
            GatewayPacket::Unknown(packet) => Some(
                UnknownGatewayPacket { channel: packet.channel, raw: packet.raw.clone() },
            ),
            _ => None,
        }
    }

    /// The logout, where the packet is one.
    pub fn get_logout_packet(&self) -> (packet: Option<LogoutPacket>)
        ensures
            packet is Some <==> self.packet is Logout,
    {
        match &self.packet {
            GatewayPacket::Logout(packet) => Some(*packet),
            _ => None,
        }
    }

    /// The order to drop a login, where the packet is one.
    pub fn get_force_disconnect_packet(&self) -> (packet: Option<ForceDisconnectPacket>)
        ensures
            packet is Some <==> self.packet is ForceDisconnect,
    {
        match &self.packet {
            GatewayPacket::ForceDisconnect(packet) => Some(*packet),
            _ => None,
        }
    }
}

} // verus!
