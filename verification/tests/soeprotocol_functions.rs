use h1emu_core::byte_cursor::ByteCursor;
use h1emu_core::soeprotocol::SoeOpcode;
use h1emu_core::soeprotocol_functions::{
    check_min_size, disconnect_reason_to_string, extract_subpacket_data, get_data_end,
    read_data_length, write_data_length, write_packet_data, PacketsMinSize,
};
use h1emu_core::soeprotocol_packets_structs::DataPacket;

#[test]
fn write_packet_data_test() {
    let data_to_pack: Vec<u8> = [
        2, 1, 1, 0, 0, 0, 1, 1, 3, 0, 0, 0, 115, 111, 101, 0, 0, 0, 0,
    ]
    .to_vec();
    let mut wtr = vec![];
    let mut data_packet = DataPacket {
        data: data_to_pack,
        sequence: 0,
        opcode: SoeOpcode::Data.value(),
    };
    write_packet_data(&mut wtr, &mut data_packet);
    assert_eq!(
        wtr,
        [0, 0, 2, 1, 1, 0, 0, 0, 1, 1, 3, 0, 0, 0, 115, 111, 101, 0, 0, 0, 0].to_vec()
    )
}

#[test]
fn soeprotocol_functions_write_packet_data_test() {
    let data_to_pack: Vec<u8> = [
        2, 1, 1, 0, 0, 0, 1, 1, 3, 0, 0, 0, 115, 111, 101, 0, 0, 0, 0,
    ]
    .to_vec();
    let mut wtr = vec![];
    let mut data_packet = DataPacket::new(data_to_pack, 0, SoeOpcode::Data.value());
    write_packet_data(&mut wtr, &mut data_packet);
    assert_eq!(
        wtr,
        [0, 0, 2, 1, 1, 0, 0, 0, 1, 1, 3, 0, 0, 0, 115, 111, 101, 0, 0, 0, 0].to_vec()
    )
}

#[test]
fn write_packet_data_takes_the_payload() {
    let mut wtr = vec![9];
    let mut data_packet = DataPacket::new(vec![1, 2, 3], 0x0102, SoeOpcode::Data.value());
    write_packet_data(&mut wtr, &mut data_packet);
    assert_eq!(wtr, [9, 1, 2, 1, 2, 3]);
    assert!(data_packet.data.is_empty());
    assert_eq!(data_packet.sequence, 0x0102);
}

#[test]
fn min_sizes() {
    assert_eq!(PacketsMinSize::SessionRequest.size(), 14);
    assert_eq!(PacketsMinSize::SessionReply.size(), 21);
    assert_eq!(PacketsMinSize::Disconnect.size(), 6);
    assert_eq!(PacketsMinSize::NetStatusPacket.size(), 42);
    assert_eq!(PacketsMinSize::MultiPacket.size(), 7);
    assert_eq!(PacketsMinSize::DataPacket.size(), 5);
    assert_eq!(PacketsMinSize::Ack.size(), 4);
}

#[test]
fn check_min_size_counts_the_checksum() {
    let data = vec![0u8; 6];
    let rdr = ByteCursor::new(&data);
    assert!(check_min_size(&rdr, 6, false));
    assert!(!check_min_size(&rdr, 7, false));
    assert!(check_min_size(&rdr, 4, true));
    assert!(!check_min_size(&rdr, 5, true));
    let empty = vec![];
    let rdr = ByteCursor::new(&empty);
    assert!(check_min_size(&rdr, 0, false));
    assert!(!check_min_size(&rdr, 0, true));
}

#[test]
fn data_end_leaves_out_the_checksum() {
    let data = vec![0u8; 10];
    let rdr = ByteCursor::new(&data);
    assert_eq!(get_data_end(&rdr, false), 10);
    assert_eq!(get_data_end(&rdr, true), 8);
}

#[test]
fn disconnect_reasons() {
    let names = [
        "IcmpError",
        "Timeout",
        "None",
        "OtherSideTerminated",
        "ManagerDeleted",
        "ConnectFail",
        "Application",
        "UnreachableConnection",
        "UnacknowledgedTimeout",
        "NewConnectionAttempt",
        "ConnectionRefused",
        "ConnectError",
        "ConnectingToSelf",
        "ReliableOverflow",
        "ApplicationReleased",
        "CorruptPacket",
        "ProtocolMismatch",
    ];
    for (id, name) in names.iter().enumerate() {
        assert_eq!(disconnect_reason_to_string(id as u16), *name);
    }
    assert_eq!(disconnect_reason_to_string(17), "unknown");
    assert_eq!(disconnect_reason_to_string(0xffff), "unknown");
}

#[test]
fn length_prefix_widths() {
    let mut wtr = vec![];
    write_data_length(&mut wtr, 0);
    assert_eq!(wtr, [0]);
    let mut wtr = vec![];
    write_data_length(&mut wtr, 0xfe);
    assert_eq!(wtr, [0xfe]);
    let mut wtr = vec![];
    write_data_length(&mut wtr, 0xff);
    assert_eq!(wtr, [0xff]);
    let mut wtr = vec![];
    write_data_length(&mut wtr, 0x100);
    assert_eq!(wtr, [0x01, 0x00]);
    let mut wtr = vec![];
    write_data_length(&mut wtr, 0xffff);
    assert_eq!(wtr, [0xff, 0xff]);
    let mut wtr = vec![7];
    write_data_length(&mut wtr, 0x1_0000);
    assert_eq!(wtr, [7, 0x00, 0x01, 0x00, 0x00]);
    let mut wtr = vec![];
    write_data_length(&mut wtr, 0xffff_0102);
    assert_eq!(wtr, [0xff, 0xff, 0x01, 0x02]);
}

#[test]
fn read_length_of_one_byte() {
    let data = vec![0x43, 0xff, 0xff];
    let mut rdr = ByteCursor::new(&data);
    assert_eq!(read_data_length(&mut rdr), 0x43);
    assert_eq!(rdr.position(), 1);
}

#[test]
fn read_length_of_two_bytes() {
    let data = vec![9, 0xff, 0x12, 0xff];
    let mut rdr = ByteCursor::new(&data);
    rdr.set_position(1);
    assert_eq!(read_data_length(&mut rdr), 0xff12);
    assert_eq!(rdr.position(), 3);
}

#[test]
fn read_length_of_four_bytes() {
    let data = vec![0xff, 0xff, 0x01, 0x02, 0x03];
    let mut rdr = ByteCursor::new(&data);
    assert_eq!(read_data_length(&mut rdr), 0xffff_0102);
    assert_eq!(rdr.position(), 4);
}

#[test]
fn read_length_that_is_cut_short() {
    let data = vec![1, 0xff];
    let mut rdr = ByteCursor::new(&data);
    rdr.set_position(1);
    assert_eq!(read_data_length(&mut rdr), 0);
    assert_eq!(rdr.position(), 2);
    let data = vec![0xff, 0xff, 1];
    let mut rdr = ByteCursor::new(&data);
    assert_eq!(read_data_length(&mut rdr), 0);
    assert_eq!(rdr.position(), 3);
    let data = vec![];
    let mut rdr = ByteCursor::new(&data);
    assert_eq!(read_data_length(&mut rdr), 0);
    assert_eq!(rdr.position(), 0);
}

#[test]
fn lengths_that_read_back() {
    for n in [1usize, 2, 0x43, 0xfe, 0xff00, 0xff7f, 0xfffe, 0xffff_0000, 0xffff_ffff] {
        let mut wtr = vec![];
        write_data_length(&mut wtr, n);
        wtr.push(0);
        let mut rdr = ByteCursor::new(&wtr);
        assert_eq!(read_data_length(&mut rdr) as usize, n);
        assert_eq!(rdr.position() as usize, wtr.len() - 1);
    }
}

#[test]
fn extract_subpacket() {
    let data = vec![0, 3, 4, 0, 21, 0, 206, 67];
    let rdr = ByteCursor::new(&data);
    assert_eq!(extract_subpacket_data(&rdr, 3, 4), [0, 21, 0, 206]);
    assert_eq!(extract_subpacket_data(&rdr, 8, 0), []);
    assert_eq!(extract_subpacket_data(&rdr, 0, 8), data);
}
