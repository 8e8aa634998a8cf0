use h1emu_core::crc::append_crc;
use h1emu_core::protocol_errors::ErrorType;
use h1emu_core::soeprotocol::{SoeOpcode, Soeprotocol};
use h1emu_core::soeprotocol_packets_structs::{
    AckPacket, DataPacket, GroupedPackets, NetStatusReplyPacket, NetStatusRequestPacket,
    PingPacket, SessionReplyPacket, SessionRequestPacket, SoePacket, UnknownPacket,
};

fn number(object: &serde_json::Value, key: &str) -> Option<u64> {
    object.get(key)?.as_u64()
}

fn bytes(value: &serde_json::Value) -> Option<Vec<u8>> {
    let mut out = Vec::new();
    for item in value.as_array()? {
        out.push(u8::try_from(item.as_u64()?).ok()?);
    }
    Some(out)
}

fn decode(opcode: SoeOpcode, json: &str) -> Option<SoePacket> {
    let object: serde_json::Value = serde_json::from_str(json).ok()?;
    let packet = match opcode {
        SoeOpcode::SessionRequest => SoePacket::SessionRequestPacket(SessionRequestPacket::new(
            u32::try_from(number(&object, "session_id")?).ok()?,
            u32::try_from(number(&object, "protocol_version")?).ok()?,
            u32::try_from(number(&object, "udp_length")?).ok()?,
            object.get("protocol")?.as_str()?.to_string(),
        )),
        SoeOpcode::SessionReply => SoePacket::SessionReplyPacket(SessionReplyPacket::new(
            u32::try_from(number(&object, "session_id")?).ok()?,
            u32::try_from(number(&object, "crc_seed")?).ok()?,
            u8::try_from(number(&object, "crc_length")?).ok()?,
            u16::try_from(number(&object, "encrypt_method")?).ok()?,
            u32::try_from(number(&object, "udp_length")?).ok()?,
        )),
        SoeOpcode::NetStatusRequest => {
            SoePacket::NetStatusRequestPacket(NetStatusRequestPacket::new(
                u16::try_from(number(&object, "client_tick_count")?).ok()?,
                u32::try_from(number(&object, "last_client_update")?).ok()?,
                u32::try_from(number(&object, "average_update")?).ok()?,
                u32::try_from(number(&object, "shortest_update")?).ok()?,
                u32::try_from(number(&object, "longest_update")?).ok()?,
                u32::try_from(number(&object, "last_server_update")?).ok()?,
                number(&object, "packets_sent")?,
                number(&object, "packets_received")?,
                u16::try_from(number(&object, "unknown_field")?).ok()?,
            ))
        }
        SoeOpcode::NetStatusReply => SoePacket::NetStatusReplyPacket(NetStatusReplyPacket::new(
            u16::try_from(number(&object, "client_tick_count")?).ok()?,
            u32::try_from(number(&object, "server_tick_count")?).ok()?,
            number(&object, "client_packet_sent")?,
            number(&object, "client_packet_received")?,
            number(&object, "server_packet_sent")?,
            number(&object, "server_packet_received")?,
            u16::try_from(number(&object, "unknown_field")?).ok()?,
        )),
        SoeOpcode::Data | SoeOpcode::DataFragment | SoeOpcode::Ordered => {
            SoePacket::DataPacket(DataPacket::new(
                bytes(object.get("data")?)?,
                u16::try_from(number(&object, "sequence")?).ok()?,
                opcode.value(),
            ))
        }
        SoeOpcode::Ack | SoeOpcode::OutOfOrder => SoePacket::AckPacket(AckPacket::new(
            opcode.value(),
            u16::try_from(number(&object, "sequence")?).ok()?,
        )),
        SoeOpcode::MultiPacket | SoeOpcode::Group => {
            let mut codec = Soeprotocol::initialize(false, 0);
            let mut grouped = GroupedPackets::with_opcode(opcode.value());
            for sub_packet in object.get("sub_packets")?.as_array()? {
                grouped.add_packet(codec.parse(bytes(sub_packet)?).packet);
            }
            SoePacket::GroupedPackets(grouped)
        }
        _ => SoePacket::PingPacket(PingPacket {}),
    };
    Some(packet)
}

/// The record that a JSON object describes, for the kind `opcode`. An object
/// that lacks a field of that kind gives a record of no kind.
fn record_from_json(opcode: SoeOpcode, json: &str) -> SoePacket {
    decode(opcode, json).unwrap_or(SoePacket::UnknownPacket(UnknownPacket { raw: vec![] }))
}

#[test]
fn session_request_parse_test() {
    let mut soeprotocol_class = Soeprotocol::initialize(true, 0);
    let data_to_parse: [u8; 25] = [
        0, 1, 0, 0, 0, 3, 60, 23, 140, 99, 0, 0, 2, 0, 76, 111, 103, 105, 110, 85, 100, 112,
        95, 57, 0,
    ];
    let data_parsed: serde_json::Value =
        serde_json::from_str(&soeprotocol_class.parse(data_to_parse.to_vec()).to_json())
            .unwrap_or_default();
    let succesful_data:serde_json::Value = serde_json::from_str(r#"{"name":"SessionRequest","protocol_version":3,"session_id":1008176227,"udp_length":512,"protocol":"LoginUdp_9"}"#).unwrap_or_default();
    assert_eq!(data_parsed, succesful_data)
}

#[test]
fn session_request_parse_size_error_test() {
    let mut soeprotocol_class = Soeprotocol::initialize(true, 0);
    let data_to_parse: [u8; 12] = [0, 1, 111, 103, 105, 110, 85, 100, 112, 95, 57, 2];
    let data_parsed: serde_json::Value =
        serde_json::from_str(&soeprotocol_class.parse(data_to_parse.to_vec()).to_json())
            .unwrap_or_default();
    let succesful_data:serde_json::Value = serde_json::from_str(r#"{"error": "size", "name": "Error", "raw": [0, 1, 111, 103, 105, 110, 85, 100, 112,95, 57, 2], "size": 12}"#).unwrap_or_default();
    assert_eq!(data_parsed, succesful_data)
}

#[test]
fn session_request_pack_test() {
    let mut soeprotocol_class = Soeprotocol::initialize(true, 0);
    let data_to_pack =
        r#"{"protocol_version":3,"session_id":1008176227,"udp_length":512,"protocol":"LoginUdp_9"}"#
            .to_string();
    let data_pack: Vec<u8> = soeprotocol_class.pack(SoeOpcode::SessionRequest, record_from_json(SoeOpcode::SessionRequest, &data_to_pack));
    assert_eq!(
        data_pack,
        [
            0, 1, 0, 0, 0, 3, 60, 23, 140, 99, 0, 0, 2, 0, 76, 111, 103, 105, 110, 85, 100,
            112, 95, 57, 0
        ]
    )
}

#[test]
fn session_request_pack_test_deserializing_error() {
    let mut soeprotocol_class = Soeprotocol::initialize(false, 0);
    let data_to_pack =
        r#"{"protocol_version":3,"udp_length":512,"protocol":"LoginUdp_9"}"#.to_string();
    let data_pack: Vec<u8> = soeprotocol_class.pack(SoeOpcode::SessionRequest, record_from_json(SoeOpcode::SessionRequest, &data_to_pack));
    let data_pack_opcode: u16 = u16::from_be_bytes([data_pack[0], data_pack[1]]);
    assert_eq!(data_pack_opcode, ErrorType::Deserializing.code() as u16)
}

#[test]
fn session_reply_parse_size_error_test() {
    let mut soeprotocol_class = Soeprotocol::initialize(true, 0);
    let data_to_parse: [u8; 10] = [0, 2, 111, 103, 105, 110, 85, 100, 112, 95];
    let data_parsed: serde_json::Value =
        serde_json::from_str(&soeprotocol_class.parse(data_to_parse.to_vec()).to_json())
            .unwrap_or_default();
    let succesful_data:serde_json::Value = serde_json::from_str(r#"{"error": "size", "name": "Error", "raw": [0,2,111,103,105,110,85,100,112,95], "size": 10}"#).unwrap_or_default();
    assert_eq!(data_parsed, succesful_data)
}

#[test]
fn session_reply_parse_test() {
    let mut soeprotocol_class = Soeprotocol::initialize(true, 0);
    let data_to_parse: [u8; 21] = [
        0, 2, 60, 23, 140, 99, 0, 0, 0, 0, 2, 1, 0, 0, 0, 2, 0, 0, 0, 0, 3,
    ];
    let data_parsed: serde_json::Value =
        serde_json::from_str(&soeprotocol_class.parse(data_to_parse.to_vec()).to_json())
            .unwrap_or_default();
    let succesful_data:serde_json::Value = serde_json::from_str(r#"{"name":"SessionReply","session_id":1008176227,"crc_seed":0,"crc_length":2,"encrypt_method":256,"udp_length":512}"#).unwrap_or_default();
    assert_eq!(data_parsed, succesful_data)
}

#[test]
fn session_reply_pack_test() {
    let mut soeprotocol_class = Soeprotocol::initialize(true, 0);
    let data_to_pack =  r#"{"session_id":1008176227,"crc_seed":0,"crc_length":2,"encrypt_method":256,"udp_length":512}"#.to_string();
    let data_pack: Vec<u8> = soeprotocol_class.pack(SoeOpcode::SessionReply, record_from_json(SoeOpcode::SessionReply, &data_to_pack));
    assert_eq!(
        data_pack,
        [0, 2, 60, 23, 140, 99, 0, 0, 0, 0, 2, 1, 0, 0, 0, 2, 0, 0, 0, 0, 3]
    )
}

#[test]
fn session_reply_pack_test_deserializing_error() {
    let mut soeprotocol_class = Soeprotocol::initialize(false, 0);
    let data_to_pack =
        r#"{"crc_seed":0,"crc_length":2,"encrypt_method":256,"udp_length":512}"#.to_string();
    let data_pack: Vec<u8> = soeprotocol_class.pack(SoeOpcode::SessionReply, record_from_json(SoeOpcode::SessionReply, &data_to_pack));
    let data_pack_opcode: u16 = u16::from_be_bytes([data_pack[0], data_pack[1]]);
    assert_eq!(data_pack_opcode, ErrorType::Deserializing.code() as u16)
}

#[test]
fn net_status_request_parse_test() {
    let mut soeprotocol_class = Soeprotocol::initialize(true, 0);
    let data_to_parse: [u8; 42] = [
        0, 7, 251, 92, 0, 0, 0, 0, 0, 0, 0, 0, 0, 0, 0, 0, 0, 0, 0, 0, 0, 0, 0, 0, 0, 0, 0, 0,
        0, 0, 0, 2, 0, 0, 0, 0, 0, 0, 0, 1, 235, 216,
    ];
    let data_parsed: serde_json::Value =
        serde_json::from_str(&soeprotocol_class.parse(data_to_parse.to_vec()).to_json())
            .unwrap_or_default();
    let succesful_data:serde_json::Value = serde_json::from_str(r#"{"average_update": 0, "client_tick_count": 64348, "last_client_update": 0, "last_server_update": 0, "longest_update": 0, "name": "NetStatusRequest", "packets_received": 1, "packets_sent": 2, "shortest_update": 0, "unknown_field": 60376}"#).unwrap_or_default();
    assert_eq!(data_parsed, succesful_data)
}

#[test]
fn net_status_request_parse_deserializing_error() {
    let mut soeprotocol_class = Soeprotocol::initialize(true, 0);
    let data_to_parse: [u8; 43] = [
        0, 7, 251, 92, 0, 0, 0, 0, 0, 0, 0, 0, 0, 0, 0, 0, 0, 0, 0, 0, 0, 0, 0, 0, 0, 0, 0, 0,
        0, 0, 0, 2, 0, 0, 0, 0, 0, 0, 0, 1, 235, 216, 0,
    ];
    let data_parsed: serde_json::Value =
        serde_json::from_str(&soeprotocol_class.parse(data_to_parse.to_vec()).to_json())
            .unwrap_or_default();
    let succesful_data:serde_json::Value = serde_json::from_str(r#"{"error": "size", "name": "Error", "raw": [0,7,251,92,0,0,0,0,0,0,0,0,0,0,0,0,0,0,0,0,0,0,0,0,0,0,0,0,0,0,0,2,0,0,0,0,0,0,0,1,235,216,0], "size": 43}"#).unwrap_or_default();
    assert_eq!(data_parsed, succesful_data)
}

#[test]
fn net_status_request_pack_test() {
    let mut soeprotocol_class = Soeprotocol::initialize(false, 0);
    let data_to_pack =
    r#"{"average_update": 0, "client_tick_count": 64348, "last_client_update": 0, "last_server_update": 0, "longest_update": 0, "name": "NetStatusRequest", "packets_received": 1, "packets_sent": 2, "shortest_update": 0, "unknown_field": 60376}"#
            .to_string();
    let data_pack: Vec<u8> = soeprotocol_class.pack(SoeOpcode::NetStatusRequest, record_from_json(SoeOpcode::NetStatusRequest, &data_to_pack));
    assert_eq!(
        data_pack,
        [
            0, 7, 251, 92, 0, 0, 0, 0, 0, 0, 0, 0, 0, 0, 0, 0, 0, 0, 0, 0, 0, 0, 0, 0, 0, 0, 0,
            0, 0, 0, 0, 2, 0, 0, 0, 0, 0, 0, 0, 1, 235, 216
        ]
    )
}

#[test]
fn net_status_request_pack_test_size_error() {
    let mut soeprotocol_class = Soeprotocol::initialize(false, 0);
    let data_to_pack =
    r#"{"client_packet_received": 0, "client_packet_sent": 0, "client_tick_count": 64348, "name": "NetStatusRequest", "server_packet_received": 1, "server_packet_sent": 2, "server_tick_count": 0}"#.to_string();
    let data_pack: Vec<u8> = soeprotocol_class.pack(SoeOpcode::NetStatusRequest, record_from_json(SoeOpcode::NetStatusRequest, &data_to_pack));
    let data_pack_opcode: u16 = u16::from_be_bytes([data_pack[0], data_pack[1]]);
    assert_eq!(data_pack_opcode, ErrorType::Deserializing.code() as u16)
}

#[test]
fn net_status_reply_parse_test() {
    let mut soeprotocol_class = Soeprotocol::initialize(true, 0);
    let data_to_parse: [u8; 42] = [
        0, 8, 251, 92, 33, 39, 197, 60, 0, 0, 0, 0, 0, 0, 0, 2, 0, 0, 0, 0, 0, 0, 0, 1, 0, 0,
        0, 0, 0, 0, 0, 1, 0, 0, 0, 0, 0, 0, 0, 2, 131, 212,
    ];
    let data_parsed: serde_json::Value =
        serde_json::from_str(&soeprotocol_class.parse(data_to_parse.to_vec()).to_json())
            .unwrap_or_default();
    let succesful_data:serde_json::Value = serde_json::from_str(r#"{"client_packet_received": 1, "client_packet_sent": 2, "client_tick_count": 64348, "name": "NetStatusReply", "server_packet_received": 2, "server_packet_sent": 1, "server_tick_count": 556254524, "unknown_field": 33748}"#).unwrap_or_default();
    assert_eq!(data_parsed, succesful_data)
}

#[test]
fn net_status_reply_parse_size_error() {
    let mut soeprotocol_class = Soeprotocol::initialize(true, 0);
    let data_to_parse: [u8; 43] = [
        0, 8, 251, 92, 33, 39, 197, 60, 0, 0, 0, 0, 0, 0, 0, 2, 0, 0, 0, 0, 0, 0, 0, 1, 0, 0,
        0, 0, 0, 0, 0, 1, 0, 0, 0, 0, 0, 0, 0, 2, 131, 212, 0,
    ];
    let data_parsed: serde_json::Value =
        serde_json::from_str(&soeprotocol_class.parse(data_to_parse.to_vec()).to_json())
            .unwrap_or_default();
    let succesful_data:serde_json::Value = serde_json::from_str(r#"{"error": "size", "name": "Error", "raw": [0,8,251,92,33,39,197,60,0,0,0,0,0,0,0,2,0,0,0,0,0,0,0,1,0,0,0,0,0,0,0,1,0,0,0,0,0,0,0,2,131,212,0], "size": 43}"#).unwrap_or_default();
    assert_eq!(data_parsed, succesful_data)
}

#[test]
fn net_status_reply_pack_test() {
    let mut soeprotocol_class = Soeprotocol::initialize(false, 0);
    let data_to_pack =
    r#"{"client_packet_received": 1, "client_packet_sent": 2, "client_tick_count": 64348, "name": "NetStatusReply", "server_packet_received": 2, "server_packet_sent": 1, "server_tick_count": 556254524, "unknown_field": 33748}"#
            .to_string();
    let data_pack: Vec<u8> = soeprotocol_class.pack(SoeOpcode::NetStatusReply, record_from_json(SoeOpcode::NetStatusReply, &data_to_pack));
    assert_eq!(
        data_pack,
        [
            0, 8, 251, 92, 33, 39, 197, 60, 0, 0, 0, 0, 0, 0, 0, 2, 0, 0, 0, 0, 0, 0, 0, 1, 0,
            0, 0, 0, 0, 0, 0, 1, 0, 0, 0, 0, 0, 0, 0, 2, 131, 212
        ]
    )
}

#[test]
fn net_status_reply_pack_test_deserializing_error() {
    let mut soeprotocol_class = Soeprotocol::initialize(false, 0);
    let data_to_pack =
    r#"{"client_packet_received": 0, "client_packet_sent": 0, "client_tick_cozunt": 64348, "name": "NetStatusRequest", "server_packet_received": 1, "server_packet_sent": 2, "server_tick_count": 0}"#.to_string();
    let data_pack: Vec<u8> = soeprotocol_class.pack(SoeOpcode::NetStatusRequest, record_from_json(SoeOpcode::NetStatusRequest, &data_to_pack));
    let data_pack_opcode: u16 = u16::from_be_bytes([data_pack[0], data_pack[1]]);
    assert_eq!(data_pack_opcode, ErrorType::Deserializing.code() as u16)
}

#[test]
fn ping_parse_test() {
    let mut soeprotocol_class = Soeprotocol::initialize(true, 0);
    let data_to_parse: [u8; 2] = [0, 6];
    let data_parsed: String = soeprotocol_class.parse(data_to_parse.to_vec()).to_json();
    assert_eq!(data_parsed, r#"{"name":"Ping"}"#)
}

#[test]
fn ping_pack_test() {
    let mut soeprotocol_class = Soeprotocol::initialize(true, 0);
    let data_to_pack: String = r#"{"name":"Ping"}"#.to_owned();
    let data_pack: Vec<u8> = soeprotocol_class.pack(SoeOpcode::Ping, record_from_json(SoeOpcode::Ping, &data_to_pack));
    assert_eq!(data_pack, [0, 6])
}

#[test]
fn outoforder_parse_size_error_test() {
    let mut soeprotocol_class = Soeprotocol::initialize(true, 0);
    let data_to_parse: [u8; 3] = [0, 17, 111];
    let data_parsed: serde_json::Value =
        serde_json::from_str(&soeprotocol_class.parse(data_to_parse.to_vec()).to_json())
            .unwrap_or_default();
    let succesful_data: serde_json::Value = serde_json::from_str(
        r#"{"error": "size", "name": "Error", "raw": [0, 17, 111], "size": 3}"#,
    )
    .unwrap_or_default();
    assert_eq!(data_parsed, succesful_data)
}

#[test]
fn outoforder_parse_test() {
    let mut soeprotocol_class = Soeprotocol::initialize(true, 0);
    let data_to_parse: [u8; 6] = [0, 17, 0, 1, 38, 184];
    let data_parsed: serde_json::Value =
        serde_json::from_str(&soeprotocol_class.parse(data_to_parse.to_vec()).to_json())
            .unwrap_or_default();
    let succesful_data: serde_json::Value =
        serde_json::from_str(r#"{"name":"OutOfOrder","sequence":1}"#).unwrap_or_default();
    assert_eq!(data_parsed, succesful_data)
}

#[test]
fn outoforder_parse_test_crc_fail() {
    let mut soeprotocol_class = Soeprotocol::initialize(true, 0);
    let data_to_parse: [u8; 6] = [0, 17, 0, 1, 142, 100];
    let data_parsed: serde_json::Value =
        serde_json::from_str(&soeprotocol_class.parse(data_to_parse.to_vec()).to_json())
            .unwrap_or_default();
    let succesful_data:serde_json::Value = serde_json::from_str(r#"{"error": "crc", "expected_crc": 9912, "given_crc": 36452, "name": "Error", "raw": [0, 17, 0, 1, 142, 100]}"#).unwrap_or_default();
    assert_eq!(data_parsed, succesful_data)
}

#[test]
fn outoforder_pack_test() {
    let mut soeprotocol_class = Soeprotocol::initialize(false, 0);
    let data_to_pack: String = r#"{"name":"OutOfOrder","sequence":1}"#.to_owned();
    let data_pack: Vec<u8> = soeprotocol_class.pack(SoeOpcode::OutOfOrder, record_from_json(SoeOpcode::OutOfOrder, &data_to_pack));
    assert_eq!(data_pack, [0, 17, 0, 1])
}

#[test]
fn outoforder_pack_test_deserializing_error() {
    let mut soeprotocol_class = Soeprotocol::initialize(false, 0);
    let data_to_pack: String = r#"{"sequednce":1}"#.to_owned();
    let data_pack: Vec<u8> = soeprotocol_class.pack(SoeOpcode::OutOfOrder, record_from_json(SoeOpcode::OutOfOrder, &data_to_pack));
    let data_pack_opcode: u16 = u16::from_be_bytes([data_pack[0], data_pack[1]]);
    assert_eq!(data_pack_opcode, ErrorType::Deserializing.code() as u16)
}

#[test]
fn ack_parse_size_error_test() {
    let mut soeprotocol_class = Soeprotocol::initialize(true, 0);
    let data_to_parse: [u8; 3] = [0, 21, 111];
    let data_parsed: serde_json::Value =
        serde_json::from_str(&soeprotocol_class.parse(data_to_parse.to_vec()).to_json())
            .unwrap_or_default();
    let succesful_data: serde_json::Value = serde_json::from_str(
        r#"{"error": "size", "name": "Error", "raw": [0, 21, 111], "size": 3}"#,
    )
    .unwrap_or_default();
    assert_eq!(data_parsed, succesful_data)
}

#[test]
fn ack_parse_test() {
    let mut soeprotocol_class = Soeprotocol::initialize(true, 0);
    let data_to_parse: [u8; 6] = [0, 21, 0, 1, 142, 100];
    let data_parsed: serde_json::Value =
        serde_json::from_str(&soeprotocol_class.parse(data_to_parse.to_vec()).to_json())
            .unwrap_or_default();
    let succesful_data: serde_json::Value =
        serde_json::from_str(r#"{"name":"Ack","sequence":1}"#).unwrap_or_default();
    assert_eq!(data_parsed, succesful_data)
}

#[test]
fn ack_pack_test() {
    let mut soeprotocol_class = Soeprotocol::initialize(false, 0);
    let data_to_pack: String = r#"{"name":"Ack","sequence":1}"#.to_owned();
    let data_pack: Vec<u8> = soeprotocol_class.pack(SoeOpcode::Ack, record_from_json(SoeOpcode::Ack, &data_to_pack));
    assert_eq!(data_pack, [0, 21, 0, 1])
}

#[test]
fn ack_pack_test_deserializing_error() {
    let mut soeprotocol_class = Soeprotocol::initialize(false, 0);
    let data_to_pack: String = r#"{"name":"Ack"}"#.to_owned();
    let data_pack: Vec<u8> = soeprotocol_class.pack(SoeOpcode::Ack, record_from_json(SoeOpcode::Ack, &data_to_pack));
    let data_pack_opcode: u16 = u16::from_be_bytes([data_pack[0], data_pack[1]]);
    assert_eq!(data_pack_opcode, ErrorType::Deserializing.code() as u16)
}

#[test]
fn multi_parse_size_error_test() {
    let mut soeprotocol_class = Soeprotocol::initialize(true, 0);
    let data_to_parse: [u8; 4] = [0, 3, 4, 0];
    let data_parsed: serde_json::Value =
        serde_json::from_str(&soeprotocol_class.parse(data_to_parse.to_vec()).to_json())
            .unwrap_or_default();
    let succesful_data: serde_json::Value = serde_json::from_str(
        r#"{"error": "size", "name": "Error", "raw": [0, 3, 4, 0], "size": 4}"#,
    )
    .unwrap_or_default();
    assert_eq!(data_parsed, succesful_data)
}

#[test]
fn multi_parse_corrupted_test() {
    let mut soeprotocol_class = Soeprotocol::initialize(false, 0);
    let data_to_parse: [u8; 75] = [
        0, 3, 54, 0, 21, 0, 206, 67, 0, 9, 0, 1, 0, 25, 41, 141, 45, 189, 85, 241, 64, 165, 71,
        228, 114, 81, 54, 5, 184, 205, 104, 0, 125, 184, 210, 74, 0, 247, 152, 225, 169, 102,
        204, 158, 233, 202, 228, 34, 202, 238, 136, 31, 3, 121, 222, 106, 11, 247, 177, 138,
        145, 21, 221, 187, 36, 170, 37, 171, 6, 32, 11, 180, 97, 10, 246,
    ];
    let data_parsed: serde_json::Value =
        serde_json::from_str(&soeprotocol_class.parse(data_to_parse.to_vec()).to_json())
            .unwrap_or_default();
    let succesful_data:serde_json::Value = serde_json::from_str(r#"{"error": "corruption", "name": "Error", "data_end": 75,"position": 58, "subpacket_length": 247,"raw":[0, 3, 54, 0, 21, 0, 206, 67, 0, 9, 0, 1, 0, 25, 41, 141, 45, 189, 85, 241, 64, 165, 71,228, 114, 81, 54, 5, 184, 205, 104, 0, 125, 184, 210, 74, 0, 247, 152, 225, 169, 102,204, 158, 233, 202, 228, 34, 202, 238, 136, 31, 3, 121, 222, 106, 11, 247, 177, 138,145, 21, 221, 187, 36, 170, 37, 171, 6, 32, 11, 180, 97, 10, 246]}"#).unwrap_or_default();
    assert_eq!(data_parsed, succesful_data)
}
#[test]
fn multi_parse_crc_fail_test() {
    let mut soeprotocol_class = Soeprotocol::initialize(true, 0);
    let data_to_parse: [u8; 75] = [
        0, 3, 54, 0, 21, 0, 206, 67, 0, 9, 0, 1, 0, 25, 41, 141, 45, 189, 85, 241, 64, 165, 71,
        228, 114, 81, 54, 5, 184, 205, 104, 0, 125, 184, 210, 74, 0, 247, 152, 225, 169, 102,
        204, 158, 233, 202, 228, 34, 202, 238, 136, 31, 3, 121, 222, 106, 11, 247, 177, 138,
        145, 21, 221, 187, 36, 170, 37, 171, 6, 32, 11, 180, 97, 10, 246,
    ];
    let data_parsed: serde_json::Value =
        serde_json::from_str(&soeprotocol_class.parse(data_to_parse.to_vec()).to_json())
            .unwrap_or_default();
    let succesful_data:serde_json::Value = serde_json::from_str(r#"{"error": "crc", "name": "Error", "expected_crc": 62304,"given_crc": 2806,"raw":[0, 3, 54, 0, 21, 0, 206, 67, 0, 9, 0, 1, 0, 25, 41, 141, 45, 189, 85, 241, 64, 165, 71,228, 114, 81, 54, 5, 184, 205, 104, 0, 125, 184, 210, 74, 0, 247, 152, 225, 169, 102,204, 158, 233, 202, 228, 34, 202, 238, 136, 31, 3, 121, 222, 106, 11, 247, 177, 138,145, 21, 221, 187, 36, 170, 37, 171, 6, 32, 11, 180, 97, 10, 246]}"#).unwrap_or_default();
    assert_eq!(data_parsed, succesful_data)
}

#[test]
fn multi_parse_test() {
    let mut soeprotocol_class = Soeprotocol::initialize(false, 0);
    let data_to_parse: [u8; 75] = [
        0, 3, 4, 0, 21, 0, 206, 67, 0, 9, 0, 1, 0, 25, 41, 141, 45, 189, 85, 241, 64, 165, 71,
        228, 114, 81, 54, 5, 184, 205, 104, 0, 125, 184, 210, 74, 0, 247, 152, 225, 169, 102,
        204, 158, 233, 202, 228, 34, 202, 238, 136, 31, 3, 121, 222, 106, 11, 247, 177, 138,
        145, 21, 221, 187, 36, 170, 37, 171, 6, 32, 11, 180, 97, 10, 246,
    ];
    let data_parsed: serde_json::Value =
        serde_json::from_str(&soeprotocol_class.parse(data_to_parse.to_vec()).to_json())
            .unwrap_or_default();
    let succesful_data:serde_json::Value = serde_json::from_str(r#"{"name":"MultiPacket","sub_packets":[{"name":"Ack","sequence":206},{"name":"Data","sequence":1,"data":[0,25,41,141,45,189,85,241,64,165,71,228,114,81,54,5,184,205,104,0,125,184,210,74,0,247,152,225,169,102,204,158,233,202,228,34,202,238,136,31,3,121,222,106,11,247,177,138,145,21,221,187,36,170,37,171,6,32,11,180,97,10,246]}]}"#).unwrap_or_default();
    assert_eq!(data_parsed, succesful_data)
}

#[test]
fn multi_parse_with_crc_test() {
    let mut soeprotocol_class = Soeprotocol::initialize(true, 0);
    let data_to_parse: [u8; 77] = [
        0, 3, 4, 0, 21, 0, 206, 67, 0, 9, 0, 1, 0, 25, 41, 141, 45, 189, 85, 241, 64, 165, 71,
        228, 114, 81, 54, 5, 184, 205, 104, 0, 125, 184, 210, 74, 0, 247, 152, 225, 169, 102,
        204, 158, 233, 202, 228, 34, 202, 238, 136, 31, 3, 121, 222, 106, 11, 247, 177, 138,
        145, 21, 221, 187, 36, 170, 37, 171, 6, 32, 11, 180, 97, 10, 246, 10, 27,
    ];
    let data_parsed: serde_json::Value =
        serde_json::from_str(&soeprotocol_class.parse(data_to_parse.to_vec()).to_json())
            .unwrap_or_default();
    let succesful_data:serde_json::Value = serde_json::from_str(r#"{"name":"MultiPacket","sub_packets":[{"name":"Ack","sequence":206},{"name":"Data","sequence":1,"data":[0,25,41,141,45,189,85,241,64,165,71,228,114,81,54,5,184,205,104,0,125,184,210,74,0,247,152,225,169,102,204,158,233,202,228,34,202,238,136,31,3,121,222,106,11,247,177,138,145,21,221,187,36,170,37,171,6,32,11,180,97,10,246]}]}"#).unwrap_or_default();
    assert_eq!(data_parsed, succesful_data)
}

#[test]
fn multi_pack_test() {
    let mut soeprotocol_class = Soeprotocol::initialize(false, 0);
    let data_to_pack:String = r#"{"sub_packets":[[0, 21, 0, 1],[0, 9, 0, 1, 0, 25, 41, 141, 45, 189, 85, 241, 64, 165,
    71, 228, 114, 81, 54, 5, 184, 205, 104, 0, 125, 184, 210, 74, 0, 247, 152, 225,
    169, 102, 204, 158, 233, 202, 228, 34, 202, 238, 136, 31, 3, 121, 222, 106, 11,
    247, 177, 138, 145, 21, 221, 187, 36, 170, 37, 171, 6, 32, 11, 180, 97, 10, 246]]}"#.to_owned();
    let data_pack: Vec<u8> = soeprotocol_class.pack(SoeOpcode::MultiPacket, record_from_json(SoeOpcode::MultiPacket, &data_to_pack));
    assert_eq!(
        data_pack,
        [
            0, 3, 4, 0, 21, 0, 1, 67, 0, 9, 0, 1, 0, 25, 41, 141, 45, 189, 85, 241, 64, 165,
            71, 228, 114, 81, 54, 5, 184, 205, 104, 0, 125, 184, 210, 74, 0, 247, 152, 225,
            169, 102, 204, 158, 233, 202, 228, 34, 202, 238, 136, 31, 3, 121, 222, 106, 11,
            247, 177, 138, 145, 21, 221, 187, 36, 170, 37, 171, 6, 32, 11, 180, 97, 10, 246
        ]
    )
}

#[test]
fn multi_pack_test_deserializing_error() {
    let mut soeprotocol_class = Soeprotocol::initialize(false, 0);
    let data_to_pack:String = r#"{"sub_packzts":[[4, 0, 21, 0, 206],[0, 9, 0, 1, 0, 25, 41, 141, 45, 189, 85, 241, 64, 165,
    71, 228, 114, 81, 54, 5, 184, 205, 104, 0, 125, 184, 210, 74, 0, 247, 152, 225,
    169, 102, 204, 158, 233, 202, 228, 34, 202, 238, 136, 31, 3, 121, 222, 106, 11,
    247, 177, 138, 145, 21, 221, 187, 36, 170, 37, 171, 6, 32, 11, 180, 97, 10, 246]]}"#.to_owned();
    let data_pack: Vec<u8> = soeprotocol_class.pack(SoeOpcode::MultiPacket, record_from_json(SoeOpcode::MultiPacket, &data_to_pack));
    let data_pack_opcode: u16 = u16::from_be_bytes([data_pack[0], data_pack[1]]);
    assert_eq!(data_pack_opcode, ErrorType::Deserializing.code() as u16)
}

#[test]
fn data_parse_test() {
    let mut soeprotocol_class = Soeprotocol::initialize(false, 0);
    let data_to_parse: [u8; 45] = [
        0, 9, 0, 4, 252, 100, 40, 209, 68, 247, 21, 93, 18, 172, 91, 68, 145, 53, 24, 155, 2,
        113, 179, 28, 217, 33, 80, 76, 9, 235, 87, 98, 233, 235, 220, 124, 107, 61, 62, 132,
        117, 146, 204, 94, 60,
    ];
    let data_parsed: serde_json::Value =
        serde_json::from_str(&soeprotocol_class.parse(data_to_parse.to_vec()).to_json())
            .unwrap_or_default();
    let succesful_data:serde_json::Value = serde_json::from_str(r#"{"name":"Data","sequence":4,"data":[252,100,40,209,68,247,21,93,18,172,91,68,145,53,24,155,2,113,179,28,217,33,80,76,9,235,87,98,233,235,220,124,107,61,62,132,117,146,204,94,60]}"#).unwrap_or_default();
    assert_eq!(data_parsed, succesful_data)
}

#[test]
fn data_parse_with_crc_test() {
    let mut soeprotocol_class = Soeprotocol::initialize(true, 0);
    let data_to_parse: [u8; 45] = [
        0, 9, 0, 4, 252, 100, 40, 209, 68, 247, 21, 93, 18, 172, 91, 68, 145, 53, 24, 155, 2,
        113, 179, 28, 217, 33, 80, 76, 9, 235, 87, 98, 233, 235, 220, 124, 107, 61, 62, 132,
        117, 146, 204, 94, 60,
    ];
    let data_parsed: serde_json::Value =
        serde_json::from_str(&soeprotocol_class.parse(data_to_parse.to_vec()).to_json())
            .unwrap_or_default();
    let succesful_data:serde_json::Value = serde_json::from_str(r#"{"name":"Data","sequence":4,"data":[252,100,40,209,68,247,21,93,18,172,91,68,145,53,24,155,2,113,179,28,217,33,80,76,9,235,87,98,233,235,220,124,107,61,62,132,117,146,204]}"#).unwrap_or_default();
    assert_eq!(data_parsed, succesful_data)
}

#[test]
fn data_parse_with_crc_test_fail() {
    let mut soeprotocol_class = Soeprotocol::initialize(true, 0);
    let data_to_parse: [u8; 45] = [
        0, 9, 0, 4, 252, 100, 40, 209, 68, 247, 21, 93, 18, 172, 91, 68, 145, 53, 24, 155, 2,
        113, 179, 28, 217, 33, 80, 76, 9, 235, 87, 98, 233, 235, 220, 124, 107, 61, 62, 132,
        117, 146, 204, 94, 61,
    ];
    let data_parsed: serde_json::Value =
        serde_json::from_str(&soeprotocol_class.parse(data_to_parse.to_vec()).to_json())
            .unwrap_or_default();
    let succesful_data:serde_json::Value = serde_json::from_str(r#"{"error": "crc", "expected_crc": 24124, "given_crc": 24125, "name": "Error", "raw": [0, 9, 0, 4, 252, 100, 40, 209, 68, 247, 21, 93, 18, 172, 91, 68, 145, 53, 24, 155, 2,113, 179, 28, 217, 33, 80, 76, 9, 235, 87, 98, 233, 235, 220, 124, 107, 61, 62, 132,117, 146, 204, 94, 61]}"#).unwrap_or_default();
    assert_eq!(data_parsed, succesful_data)
}

#[test]
fn ordered_data_parse_test() {
    let mut soeprotocol_class = Soeprotocol::initialize(false, 0);
    let data_to_parse: [u8; 6] = [0, 27, 147, 127, 1, 0];
    let data_parsed: serde_json::Value =
        serde_json::from_str(&soeprotocol_class.parse(data_to_parse.to_vec()).to_json())
            .unwrap_or_default();
    let succesful_data: serde_json::Value =
        serde_json::from_str(r#"{"name":"Ordered","order":37759,"data":[1,0]}"#)
            .unwrap_or_default();
    assert_eq!(data_parsed, succesful_data)
}

#[test]
fn ordered_data_with_crc_test() {
    let mut soeprotocol_class = Soeprotocol::initialize(true, 0);
    let mut data_to_parse: Vec<u8> = [0, 27, 147, 127, 1, 0].to_vec();
    append_crc(&mut data_to_parse, 0);
    let data_parsed: serde_json::Value =
        serde_json::from_str(&soeprotocol_class.parse(data_to_parse.to_vec()).to_json())
            .unwrap_or_default();
    let succesful_data: serde_json::Value =
        serde_json::from_str(r#"{"name":"Ordered","order":37759,"data":[1,0]}"#)
            .unwrap_or_default();
    assert_eq!(data_parsed, succesful_data)
}

#[test]
fn ordered_data_with_crc_test_fail() {
    let mut soeprotocol_class = Soeprotocol::initialize(true, 0);
    let data_to_parse: [u8; 6] = [0, 27, 147, 127, 1, 1];
    let data_parsed: serde_json::Value =
        serde_json::from_str(&soeprotocol_class.parse(data_to_parse.to_vec()).to_json())
            .unwrap_or_default();
    let succesful_data: serde_json::Value =
        serde_json::from_str(r#"{"name":"Ordered","order":37759,"data":[1,0]}"#)
            .unwrap_or_default();
    assert_ne!(data_parsed, succesful_data)
}

#[test]
fn data_pack_test() {
    let mut soeprotocol_class = Soeprotocol::initialize(false, 0);
    let data_to_pack =
        r#"{"sequence":0,"data":[2,1,1,0,0,0,1,1,3,0,0,0,115,111,101,0,0,0,0]}"#.to_string();
    let data_pack: Vec<u8> = soeprotocol_class.pack(SoeOpcode::Data, record_from_json(SoeOpcode::Data, &data_to_pack));
    assert_eq!(
        data_pack,
        [0, 9, 0, 0, 2, 1, 1, 0, 0, 0, 1, 1, 3, 0, 0, 0, 115, 111, 101, 0, 0, 0, 0]
    )
}

#[test]
fn data_ordered_pack_test() {
    let mut soeprotocol_class = Soeprotocol::initialize(false, 0);
    let data_to_pack =
        r#"{"sequence":1,"data":[2,1,1,0,0,0,1,1,3,0,0,0,115,111,101,0,0,0,0]}"#.to_string();
    let data_pack: Vec<u8> = soeprotocol_class.pack(SoeOpcode::Ordered, record_from_json(SoeOpcode::Ordered, &data_to_pack));
    assert_eq!(
        data_pack,
        [0, 27, 0, 1, 2, 1, 1, 0, 0, 0, 1, 1, 3, 0, 0, 0, 115, 111, 101, 0, 0, 0, 0]
    )
}

#[test]
fn data_pack_test_deserializing_error() {
    let mut soeprotocol_class = Soeprotocol::initialize(false, 0);
    let data_to_pack = r#"{"data":[2,1,1,0,0,0,1,1,3,0,0,0,115,111,101,0,0,0,0]}"#.to_string();
    let data_pack: Vec<u8> = soeprotocol_class.pack(SoeOpcode::Data, record_from_json(SoeOpcode::Data, &data_to_pack));
    let data_pack_opcode: u16 = u16::from_be_bytes([data_pack[0], data_pack[1]]);
    assert_eq!(data_pack_opcode, ErrorType::Deserializing.code() as u16)
}

#[test]
fn data_fragment_parse_test() {
    let mut soeprotocol_class = Soeprotocol::initialize(false, 0);
    let data_to_parse: [u8; 257] = [
        0, 13, 0, 2, 208, 127, 31, 117, 87, 54, 201, 180, 188, 226, 247, 253, 136, 66, 78, 125,
        224, 112, 23, 87, 147, 110, 18, 68, 183, 87, 20, 3, 65, 116, 82, 111, 93, 219, 229, 20,
        61, 238, 143, 63, 8, 137, 8, 196, 128, 89, 59, 4, 198, 191, 207, 141, 23, 164, 242, 77,
        176, 206, 49, 45, 207, 210, 17, 33, 75, 177, 157, 242, 169, 37, 60, 87, 245, 58, 2,
        130, 102, 146, 227, 66, 193, 153, 155, 105, 230, 203, 120, 114, 160, 223, 229, 190,
        129, 106, 19, 25, 8, 52, 55, 8, 100, 68, 109, 228, 178, 186, 148, 108, 138, 242, 136,
        66, 219, 25, 73, 129, 110, 31, 121, 32, 246, 86, 156, 212, 85, 217, 213, 119, 165, 140,
        83, 95, 6, 183, 184, 251, 73, 102, 221, 156, 240, 204, 50, 217, 217, 13, 218, 2, 19,
        44, 143, 73, 168, 109, 67, 176, 129, 225, 187, 171, 12, 146, 21, 66, 252, 150, 143,
        142, 46, 39, 72, 12, 22, 222, 7, 29, 63, 201, 227, 251, 9, 28, 0, 100, 84, 153, 84,
        212, 163, 78, 135, 33, 66, 20, 195, 223, 62, 214, 32, 59, 6, 187, 222, 99, 29, 34, 87,
        81, 61, 63, 174, 255, 1, 85, 241, 6, 10, 152, 237, 52, 51, 126, 149, 218, 125, 232,
        199, 40, 113, 139, 187, 43, 232, 209, 167, 226, 91, 236, 212, 165, 117, 19, 118, 110,
        18, 0, 26, 152, 33, 115, 61, 208, 21,
    ];
    let data_parsed: serde_json::Value =
        serde_json::from_str(&soeprotocol_class.parse(data_to_parse.to_vec()).to_json())
            .unwrap_or_default();
    let succesful_data:serde_json::Value = serde_json::from_str(r#"{"name":"DataFragment","sequence":2,"data":[208,127,31,117,87,54,201,180,188,226,247,253,136,66,78,125,224,112,23,87,147,110,18,68,183,87,20,3,65,116,82,111,93,219,229,20,61,238,143,63,8,137,8,196,128,89,59,4,198,191,207,141,23,164,242,77,176,206,49,45,207,210,17,33,75,177,157,242,169,37,60,87,245,58,2,130,102,146,227,66,193,153,155,105,230,203,120,114,160,223,229,190,129,106,19,25,8,52,55,8,100,68,109,228,178,186,148,108,138,242,136,66,219,25,73,129,110,31,121,32,246,86,156,212,85,217,213,119,165,140,83,95,6,183,184,251,73,102,221,156,240,204,50,217,217,13,218,2,19,44,143,73,168,109,67,176,129,225,187,171,12,146,21,66,252,150,143,142,46,39,72,12,22,222,7,29,63,201,227,251,9,28,0,100,84,153,84,212,163,78,135,33,66,20,195,223,62,214,32,59,6,187,222,99,29,34,87,81,61,63,174,255,1,85,241,6,10,152,237,52,51,126,149,218,125,232,199,40,113,139,187,43,232,209,167,226,91,236,212,165,117,19,118,110,18,0,26,152,33,115,61,208,21]}"#).unwrap_or_default();
    assert_eq!(data_parsed, succesful_data)
}

#[test]
fn data_fragment_parse_with_crc_test() {
    let mut soeprotocol_class = Soeprotocol::initialize(false, 0);
    let data_to_parse: [u8; 257] = [
        0, 13, 0, 2, 208, 127, 31, 117, 87, 54, 201, 180, 188, 226, 247, 253, 136, 66, 78, 125,
        224, 112, 23, 87, 147, 110, 18, 68, 183, 87, 20, 3, 65, 116, 82, 111, 93, 219, 229, 20,
        61, 238, 143, 63, 8, 137, 8, 196, 128, 89, 59, 4, 198, 191, 207, 141, 23, 164, 242, 77,
        176, 206, 49, 45, 207, 210, 17, 33, 75, 177, 157, 242, 169, 37, 60, 87, 245, 58, 2,
        130, 102, 146, 227, 66, 193, 153, 155, 105, 230, 203, 120, 114, 160, 223, 229, 190,
        129, 106, 19, 25, 8, 52, 55, 8, 100, 68, 109, 228, 178, 186, 148, 108, 138, 242, 136,
        66, 219, 25, 73, 129, 110, 31, 121, 32, 246, 86, 156, 212, 85, 217, 213, 119, 165, 140,
        83, 95, 6, 183, 184, 251, 73, 102, 221, 156, 240, 204, 50, 217, 217, 13, 218, 2, 19,
        44, 143, 73, 168, 109, 67, 176, 129, 225, 187, 171, 12, 146, 21, 66, 252, 150, 143,
        142, 46, 39, 72, 12, 22, 222, 7, 29, 63, 201, 227, 251, 9, 28, 0, 100, 84, 153, 84,
        212, 163, 78, 135, 33, 66, 20, 195, 223, 62, 214, 32, 59, 6, 187, 222, 99, 29, 34, 87,
        81, 61, 63, 174, 255, 1, 85, 241, 6, 10, 152, 237, 52, 51, 126, 149, 218, 125, 232,
        199, 40, 113, 139, 187, 43, 232, 209, 167, 226, 91, 236, 212, 165, 117, 19, 118, 110,
        18, 0, 26, 152, 33, 115, 61, 208, 21,
    ];
    let data_parsed: serde_json::Value =
        serde_json::from_str(&soeprotocol_class.parse(data_to_parse.to_vec()).to_json())
            .unwrap_or_default();
    let succesful_data:serde_json::Value = serde_json::from_str(r#"{"name":"DataFragment","sequence":2,"data":[208,127,31,117,87,54,201,180,188,226,247,253,136,66,78,125,224,112,23,87,147,110,18,68,183,87,20,3,65,116,82,111,93,219,229,20,61,238,143,63,8,137,8,196,128,89,59,4,198,191,207,141,23,164,242,77,176,206,49,45,207,210,17,33,75,177,157,242,169,37,60,87,245,58,2,130,102,146,227,66,193,153,155,105,230,203,120,114,160,223,229,190,129,106,19,25,8,52,55,8,100,68,109,228,178,186,148,108,138,242,136,66,219,25,73,129,110,31,121,32,246,86,156,212,85,217,213,119,165,140,83,95,6,183,184,251,73,102,221,156,240,204,50,217,217,13,218,2,19,44,143,73,168,109,67,176,129,225,187,171,12,146,21,66,252,150,143,142,46,39,72,12,22,222,7,29,63,201,227,251,9,28,0,100,84,153,84,212,163,78,135,33,66,20,195,223,62,214,32,59,6,187,222,99,29,34,87,81,61,63,174,255,1,85,241,6,10,152,237,52,51,126,149,218,125,232,199,40,113,139,187,43,232,209,167,226,91,236,212,165,117,19,118,110,18,0,26,152,33,115,61,208,21]}"#).unwrap_or_default();
    assert_eq!(data_parsed, succesful_data)
}

#[test]
fn data_fragment_pack_test() {
    let mut soeprotocol_class = Soeprotocol::initialize(false, 0);
    let data_to_pack =
        r#"{"sequence":2,"data":[2,1,1,0,0,0,1,1,3,0,0,0,115,111,101,0,0,0,0]}"#.to_string();
    let data_pack: Vec<u8> = soeprotocol_class.pack(SoeOpcode::DataFragment, record_from_json(SoeOpcode::DataFragment, &data_to_pack));
    assert_eq!(
        data_pack,
        [0, 13, 0, 2, 2, 1, 1, 0, 0, 0, 1, 1, 3, 0, 0, 0, 115, 111, 101, 0, 0, 0, 0]
    )
}

#[test]
fn data_fragment_pack_test_deserializing_error() {
    let mut soeprotocol_class = Soeprotocol::initialize(false, 0);
    let data_to_pack = r#"{"data":[2,1,1,0,0,0,1,1,3,0,0,0,115,111,101,0,0,0,0]}"#.to_string();
    let data_pack: Vec<u8> = soeprotocol_class.pack(SoeOpcode::DataFragment, record_from_json(SoeOpcode::DataFragment, &data_to_pack));
    let data_pack_opcode: u16 = u16::from_be_bytes([data_pack[0], data_pack[1]]);
    assert_eq!(data_pack_opcode, ErrorType::Deserializing.code() as u16)
}
