use h1emu_core::byte_cursor::ByteCursor;
use h1emu_core::gatewayprotocol::{GatewayChannels, GatewayOpcode, GatewayProtocol};
use h1emu_core::gatewayprotocol_packets_structs::{
    ChannelIsRoutablePacket, GatewayPacket, LoginReplyPacket, LoginRequestPacket, TunnelPacket,
    UnknownGatewayPacket,
};

const FAILURE: &str = "Fail to read prefixed string little endiant";

fn login_request_frame() -> Vec<u8> {
    let mut frame = vec![0x01, 0xF4, 0xDD, 0xFD, 0xF5, 0x99, 0x38, 0x96, 0x7C];
    frame.extend_from_slice(&[5, 0, 0, 0]);
    frame.extend_from_slice(b"itsme");
    frame.extend_from_slice(&[19, 0, 0, 0]);
    frame.extend_from_slice(b"ClientProtocol_1080");
    frame.extend_from_slice(&[14, 0, 0, 0]);
    frame.extend_from_slice(b"0.195.4.147586");
    frame
}

#[test]
fn login_request_build() {
    let packet = LoginRequestPacket::new(
        0x7C963899F5FDDDF4,
        "itsme".to_string(),
        "ClientProtocol_1080".to_string(),
        "0.195.4.147586".to_string(),
    );
    let frame = packet.build();
    assert_eq!(frame.len(), 59);
    assert_eq!(
        frame[..18],
        [
            0x01, 0xF4, 0xDD, 0xFD, 0xF5, 0x99, 0x38, 0x96, 0x7C, 0x05, 0x00, 0x00, 0x00, 0x69,
            0x74, 0x73, 0x6D, 0x65
        ]
    );
    assert_eq!(frame, login_request_frame());
}

#[test]
fn login_request_parse() {
    let mut codec = GatewayProtocol::initialize();
    let parsed = codec.parse(login_request_frame());
    assert_eq!(parsed.get_opcode(), GatewayOpcode::LoginRequest);
    let packet = parsed.get_login_request_packet().unwrap();
    assert_eq!(packet.get_character_id(), 0x7C963899F5FDDDF4);
    assert_eq!(packet.get_ticket(), "itsme");
    assert_eq!(packet.get_client_protocol(), "ClientProtocol_1080");
    assert_eq!(packet.get_client_build(), "0.195.4.147586");
    assert!(parsed.get_login_reply_packet().is_none());
}

#[test]
fn login_request_that_is_cut_short() {
    let mut codec = GatewayProtocol::initialize();
    let mut frame = login_request_frame();
    frame.truncate(43);
    let packet = codec.parse(frame).get_login_request_packet().unwrap();
    assert_eq!(packet.get_character_id(), 0x7C963899F5FDDDF4);
    assert_eq!(packet.get_ticket(), "itsme");
    assert_eq!(packet.get_client_protocol(), "ClientProtocol_1080");
    assert_eq!(packet.get_client_build(), FAILURE);

    let packet = codec.parse(vec![0x01, 1, 2, 3]).get_login_request_packet().unwrap();
    assert_eq!(packet.get_character_id(), 0);
    assert_eq!(packet.get_ticket(), FAILURE);
    assert_eq!(packet.get_client_protocol(), FAILURE);
    assert_eq!(packet.get_client_build(), FAILURE);
}

#[test]
fn login_request_with_a_length_beyond_the_frame() {
    let mut codec = GatewayProtocol::initialize();
    let mut frame = vec![0x01, 1, 0, 0, 0, 0, 0, 0, 0];
    frame.extend_from_slice(&[0xff, 0xff, 0xff, 0xff]);
    frame.extend_from_slice(b"abcdefgh");
    let packet = codec.parse(frame).get_login_request_packet().unwrap();
    assert_eq!(packet.get_character_id(), 1);
    assert_eq!(packet.get_ticket(), FAILURE);
    assert_eq!(packet.get_client_protocol(), FAILURE);
    assert_eq!(packet.get_client_build(), FAILURE);
}

#[test]
fn login_request_from_a_cursor() {
    let data = login_request_frame();
    let mut rdr = ByteCursor::new(&data);
    rdr.set_position(1);
    let packet = LoginRequestPacket::from(rdr);
    assert_eq!(
        packet,
        LoginRequestPacket::new(
            0x7C963899F5FDDDF4,
            "itsme".to_string(),
            "ClientProtocol_1080".to_string(),
            "0.195.4.147586".to_string(),
        )
    );
}

#[test]
fn login_reply() {
    let mut codec = GatewayProtocol::initialize();
    assert_eq!(LoginReplyPacket::new(true).build(), [0x02, 1]);
    assert_eq!(LoginReplyPacket::new(false).build(), [0x02, 0]);
    let parsed = codec.parse(vec![0x02, 1]);
    assert_eq!(parsed.get_opcode(), GatewayOpcode::LoginReply);
    assert!(parsed.get_login_reply_packet().unwrap().get_logged_in());
    assert!(codec.parse(vec![0x02, 7]).get_login_reply_packet().unwrap().logged_in);
    assert!(!codec.parse(vec![0x02, 0]).get_login_reply_packet().unwrap().logged_in);
    assert!(!codec.parse(vec![0x02]).get_login_reply_packet().unwrap().logged_in);
}

#[test]
fn opcode_and_channel_share_the_header() {
    let mut codec = GatewayProtocol::initialize();
    let parsed = codec.parse(vec![0x05 | (4 << 5), 1, 2, 3]);
    assert_eq!(parsed.get_opcode(), GatewayOpcode::TunnelDataClient);
    let tunnel = parsed.get_tunnel_packet().unwrap();
    assert_eq!(tunnel.get_channel(), 4);
    assert_eq!(tunnel.opcode, GatewayOpcode::TunnelDataClient);
    assert_eq!(tunnel.get_tunnel_data(), [1, 2, 3]);

    let parsed = codec.parse(vec![0x06 | (7 << 5)]);
    assert_eq!(parsed.get_opcode(), GatewayOpcode::TunnelDataServer);
    let tunnel = parsed.get_tunnel_packet().unwrap();
    assert_eq!(tunnel.get_channel(), 7);
    assert_eq!(tunnel.opcode, GatewayOpcode::TunnelDataServer);
    assert_eq!(tunnel.get_tunnel_data(), Vec::<u8>::new());
}

#[test]
fn tunnel_build() {
    let mut packet = TunnelPacket::new(
        GatewayOpcode::TunnelDataServer,
        GatewayChannels::UpdatePosition.value(),
        vec![9, 8, 7],
    );
    assert_eq!(packet.build(), [0x06 | (2 << 5), 9, 8, 7]);
    assert!(packet.tunnel_data.is_empty());
    let mut packet = TunnelPacket::new(GatewayOpcode::TunnelDataClient, 0, vec![]);
    assert_eq!(packet.build(), [0x05]);
}

#[test]
fn tunnel_frames_read_back() {
    let mut codec = GatewayProtocol::initialize();
    for opcode in [GatewayOpcode::TunnelDataClient, GatewayOpcode::TunnelDataServer] {
        for channel in 0..8u8 {
            let mut packet = TunnelPacket::new(opcode, channel, vec![1, 2, 3, 4]);
            let frame = packet.build();
            let parsed = codec.parse(frame);
            assert_eq!(parsed.get_opcode(), opcode);
            assert_eq!(
                parsed.get_tunnel_packet().unwrap(),
                TunnelPacket::new(opcode, channel, vec![1, 2, 3, 4])
            );
        }
    }
}

#[test]
fn frames_without_payload() {
    let mut codec = GatewayProtocol::initialize();
    let parsed = codec.parse(vec![0x03]);
    assert_eq!(parsed.get_opcode(), GatewayOpcode::Logout);
    assert!(parsed.get_logout_packet().is_some());
    let parsed = codec.parse(vec![0x04]);
    assert_eq!(parsed.get_opcode(), GatewayOpcode::ForceDisconnect);
    assert!(parsed.get_force_disconnect_packet().is_some());
    let parsed = codec.parse(vec![0x08]);
    assert_eq!(parsed.get_opcode(), GatewayOpcode::ChannelIsNotRoutable);
    assert!(parsed.get_channel_is_not_routable_packet().is_some());
    assert!(parsed.get_logout_packet().is_none());
}

#[test]
fn channel_is_routable() {
    let mut codec = GatewayProtocol::initialize();
    assert_eq!(ChannelIsRoutablePacket::new(true).build(), [0x07]);
    let parsed = codec.parse(vec![0x07, 1]);
    assert_eq!(parsed.get_opcode(), GatewayOpcode::ChannelIsRoutable);
    assert!(parsed.get_channel_is_routable_packet().unwrap().get_is_routable());
    assert!(!codec.parse(vec![0x07, 2]).get_channel_is_routable_packet().unwrap().is_routable);
    assert!(!codec.parse(vec![0x07]).get_channel_is_routable_packet().unwrap().is_routable);
}

#[test]
fn unknown_frames_keep_their_bytes_and_channel() {
    let mut codec = GatewayProtocol::initialize();
    let parsed = codec.parse(vec![0x1f | (3 << 5), 1, 2]);
    assert_eq!(parsed.get_opcode(), GatewayOpcode::Unknown);
    assert_eq!(
        parsed.get_unknown_packet().unwrap(),
        UnknownGatewayPacket {
            channel: 3,
            raw: vec![0x1f | (3 << 5), 1, 2]
        }
    );
    let parsed = codec.parse(vec![]);
    assert_eq!(parsed.get_opcode(), GatewayOpcode::Unknown);
    assert_eq!(
        parsed.get_packet(),
        GatewayPacket::Unknown(UnknownGatewayPacket {
            channel: 0,
            raw: vec![]
        })
    );
    let parsed = codec.parse(vec![0x09]);
    assert_eq!(parsed.get_opcode(), GatewayOpcode::Unknown);
}

#[test]
fn gateway_opcode_numbers() {
    let mut codec = GatewayProtocol::initialize();
    let kinds = [
        GatewayOpcode::Unknown,
        GatewayOpcode::LoginRequest,
        GatewayOpcode::LoginReply,
        GatewayOpcode::Logout,
        GatewayOpcode::ForceDisconnect,
        GatewayOpcode::TunnelDataClient,
        GatewayOpcode::TunnelDataServer,
        GatewayOpcode::ChannelIsRoutable,
        GatewayOpcode::ChannelIsNotRoutable,
    ];
    for (value, kind) in kinds.iter().enumerate() {
        assert_eq!(codec.get_opcode(value as u8), *kind);
        assert_eq!(kind.value(), value as u8);
    }
    assert_eq!(codec.get_opcode(9), GatewayOpcode::Unknown);
    assert_eq!(codec.get_opcode(0xff), GatewayOpcode::Unknown);
    assert_eq!(GatewayChannels::Zone.value(), 0);
    assert_eq!(GatewayChannels::World.value(), 1);
    assert_eq!(GatewayChannels::UpdatePosition.value(), 2);
    assert_eq!(GatewayChannels::ShortCircuitZone.value(), 3);
    assert_eq!(GatewayChannels::Gateway.value(), 4);
}
