use uplift_desk::packets::{command_packet, query_packet, Command};

#[test]
fn packet_layout_is_bit_exact() {
    assert_eq!(
        command_packet(Command::SaveSit),
        vec![0xf1, 0xf1, 0x03, 0x00, 0x03, 0x7e]
    );
    assert_eq!(
        command_packet(Command::SaveStand),
        vec![0xf1, 0xf1, 0x04, 0x00, 0x04, 0x7e]
    );
    assert_eq!(
        command_packet(Command::Sit),
        vec![0xf1, 0xf1, 0x05, 0x00, 0x05, 0x7e]
    );
    assert_eq!(
        command_packet(Command::Stand),
        vec![0xf1, 0xf1, 0x06, 0x00, 0x06, 0x7e]
    );
    assert_eq!(
        command_packet(Command::Query),
        vec![0xf1, 0xf1, 0x07, 0x00, 0x07, 0x7e]
    );
    assert_eq!(query_packet(), command_packet(Command::Query));
}

#[test]
fn checksum_equals_opcode() {
    for command in [
        Command::SaveSit,
        Command::SaveStand,
        Command::Sit,
        Command::Stand,
        Command::Query,
    ] {
        let packet = command_packet(command);
        assert_eq!(packet.len(), 6);
        assert_eq!(packet[0], 0xf1);
        assert_eq!(packet[1], 0xf1);
        assert_eq!(packet[2], command.opcode());
        assert_eq!(packet[3], 0x00);
        assert_eq!(packet[4], packet[2]);
        assert_eq!(packet[5], 0x7e);
    }
}
