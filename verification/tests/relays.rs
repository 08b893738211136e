use brewdrivers::relays::bytestring::Bytestring;
use brewdrivers::relays::str1::{baudrate_index, STR1Error, STR1};
use brewdrivers::relays::str1xx::{command_bytes, Bytestring as HexBytestring, Str1xx};
use brewdrivers::relays::waveshare::{Board, Waveshare, WAVESHARE_BAUD};
use brewdrivers::relays::{BoardError, State};
use brewdrivers::str1::{zfill, Str1};

fn modbus_crc(bytes: &[u8]) -> u16 {
    crc::Crc::<u16>::new(&crc::CRC_16_MODBUS).checksum(bytes)
}

#[test]
fn test_change_baudrate() {
    // Not going to test this because I think the baudrate on the board
    // doesn't work properly. I was able to connect at 2 different baudrates and
    // both worked.
}

#[test]
fn test_crc_16_checksum() {
    let checksum = modbus_crc(&[0x01, 0x05, 0x00, 0x00, 0xFF, 0x00]);
    assert_eq!(checksum, 0x3A8C);

    // test swapping the bytes
    // from 0x3A8C we want [8C, 3A]
    assert_eq!([0x8C, 0x3A], checksum.to_le_bytes());

    let mut bytes = vec![0x01, 0x05, 0x00, 0x00, 0xFF, 0x00];
    assert!(Waveshare::append_checksum(&mut bytes).is_ok());
    assert_eq!(bytes, vec![0x01, 0x05, 0x00, 0x00, 0xFF, 0x00, 0x8C, 0x3A]);
}

#[test]
fn bytestring_full_bytestring() {
    assert_eq!("55aafeff01030177", Bytestring::from(vec![254, 255, 1, 3]).full());
    assert_eq!("55aafefe77", Bytestring::from(vec![254]).full());
    assert_eq!("55aa010177", Bytestring::from(vec![1]).full());
    assert_eq!("55aa0077", Bytestring::from(vec![]).full());
}

#[test]
fn bytestring_checksum_as_hex() {
    let bs = Bytestring::from(vec![5, 5, 10]);
    assert_eq!(0x14, bs.checksum_as_hex());
}

#[test]
fn bytestring_keeps_the_low_byte_of_the_sum() {
    assert_eq!(Bytestring::from(vec![0x07, 0x14, 0x01, 0x00, 0x01]).checksum_as_hex(), 0x1D);
    // 0xF3 + 0xF3 = 0x01E6
    let bs = Bytestring::from(vec![0xF3, 0xF3]);
    assert_eq!(bs.checksum_as_hex(), 0xE6);
    assert_eq!(bs.full(), "55aaf3f3e677");
    assert_eq!(bs.to_bytes(), vec![0x55, 0xAA, 0xF3, 0xF3, 0xE6, 0x77]);
}

#[test]
fn bytestring_full_is_the_hex_of_its_bytes() {
    let data = vec![0x08, 0x17, 0xFE, 0x01, 0x01, 0x01];
    let full = Bytestring::from(data.clone()).full();
    let bytes = Bytestring::from(data).to_bytes();
    assert_eq!(full, hex::encode(bytes));
}

#[test]
fn bytestring_hex_to_u8() {
    assert_eq!(Some(254), HexBytestring::to_u8("fe"));
    assert_eq!(Some(0), HexBytestring::to_u8("00"));
    assert_eq!(Some(16), HexBytestring::to_u8("10"));
    assert_eq!(None, HexBytestring::to_u8("0"));
    assert_eq!(None, HexBytestring::to_u8("fefe"));
}

#[test]
fn hex_bytestring_reads_back_its_digits() {
    for v in [0u8, 1, 9, 10, 15, 16, 127, 200, 254, 255] {
        let hex = HexBytestring::to_hex(v);
        assert_eq!(hex.len(), 2);
        assert_eq!(HexBytestring::to_u8(&hex), Some(v));
    }
    assert_eq!(HexBytestring::to_hex(5), "05");
    assert_eq!(HexBytestring::to_u8("FE"), Some(254));
    assert_eq!(HexBytestring::to_u8("g0"), None);
    assert_eq!(HexBytestring::to_u8("é"), None);
}

#[test]
fn relays_full_bytestring() {
    assert_eq!("55aafeff01030177", HexBytestring::from(vec![254, 255, 1, 3]).full());
    assert_eq!("55aafefe77", HexBytestring::from(vec![254]).full());
    assert_eq!("55aa010177", HexBytestring::from(vec![1]).full());
    assert_eq!("55aa0077", HexBytestring::from(vec![]).full());
}

#[test]
fn relays_checksum_as_hex() {
    let bs = HexBytestring::from(vec![5, 5, 10]);
    assert_eq!("14", bs.checksum_as_hex());
}

#[test]
fn str1_commands_are_framed() {
    let board = STR1::new(0x01, "/dev/ttyUSB0", 9600);
    assert_eq!(board.port_path, "/dev/ttyUSB0");
    assert_eq!(board.get_relay_command(0), vec![0x55, 0xAA, 0x07, 0x14, 0x01, 0x00, 0x01, 0x1D, 0x77]);
    assert_eq!(
        board.set_relay_command(0, State::On),
        vec![0x55, 0xAA, 0x08, 0x17, 0x01, 0x00, 0x01, 0x01, 0x22, 0x77]
    );
    assert_eq!(
        board.set_relay_command(0, State::Off),
        vec![0x55, 0xAA, 0x08, 0x17, 0x01, 0x00, 0x01, 0x00, 0x21, 0x77]
    );
    assert_eq!(board.relay_count_command(), vec![0x55, 0xAA, 0x05, 0x02, 0x01, 0x08, 0x77]);
}

#[test]
fn str1_reads_relay_state_from_eighth_hex_digit() {
    assert_eq!(STR1::relay_state_from_response(&vec![0x55, 0xAA, 0x07, 0x01]), State::On);
    assert_eq!(STR1::relay_state_from_response(&vec![0x55, 0xAA, 0x07, 0x11]), State::On);
    assert_eq!(STR1::relay_state_from_response(&vec![0x55, 0xAA, 0x07, 0x00]), State::Off);
    assert_eq!(STR1::relay_state_from_response(&vec![0x55, 0xAA, 0x07, 0x10]), State::Off);
    assert_eq!(STR1::relay_state_from_response(&vec![0x55, 0xAA, 0x07]), State::Off);
    assert_eq!(STR1::relay_state_from_response(&vec![]), State::Off);
}

#[test]
fn str1_relay_count_needs_four_bytes() {
    assert_eq!(STR1::relay_count_from_response(&vec![0x55, 0xAA, 0x09]), None);
    assert_eq!(STR1::relay_count_from_response(&vec![0x55, 0xAA, 0x09, 0x08, 0x08]), Some(8));
    assert_eq!(STR1::relay_count_from_response(&vec![0x55, 0xAA, 0x09, 0x10]), Some(16));
}

#[test]
fn str1_set_controller_num_addresses_old_number() {
    let mut board = STR1::new(0xFE, "/dev/ttyUSB0", 9600);
    let command = board.set_controller_num(253);
    assert_eq!(command, vec![0x55, 0xAA, 0x06, 0x01, 0xFE, 0xFD, 0x02, 0x77]);
    assert_eq!(board.address, 253);
    assert_eq!(board.baudrate, 9600);
}

#[test]
fn str1_set_baudrate_accepts_listed_rates() {
    let mut board = STR1::new(0xFE, "/dev/ttyUSB0", 19200);
    let command = board.set_baudrate(9600).unwrap();
    assert_eq!(command, vec![0x55, 0xAA, 0x08, 0x33, 0xFE, 0xAA, 0x55, 0x05, 0x3D, 0x77]);
    assert_eq!(board.baudrate, 9600);
    assert_eq!(baudrate_index(300), Ok(0));
    assert_eq!(baudrate_index(115200), Ok(9));
}

#[test]
fn str1_set_baudrate_refuses_other_rates() {
    let mut board = STR1::new(0xFE, "/dev/ttyUSB0", 19200);
    let err = board.set_baudrate(9601).unwrap_err();
    assert_eq!(
        err,
        "Unacceptable baudrate 9601, options are [300, 600, 1200, 2400, 4800, 9600, 19200, 38400, 57600, 115200]"
    );
    assert_eq!(board.baudrate, 19200);
    assert_eq!(board.address, 0xFE);
}

#[test]
fn str1_error_displays_its_message() {
    let err = STR1Error::new(String::from("Couldn't open serial port at /dev/null: busy"));
    assert_eq!(err.to_string(), "Couldn't open serial port at /dev/null: busy");
}

#[test]
fn waveshare_set_relay_matches_manual_example() {
    // Example: 01 05 00 00 FF 00 8C 3A
    let ws = Waveshare::new(0x01);
    assert_eq!(ws.0.address(), 0x01);
    assert_eq!(ws.0.baudrate(), WAVESHARE_BAUD);
    assert_eq!(ws.set_relay_command(0, State::On), vec![0x01, 0x05, 0x00, 0x00, 0xFF, 0x00, 0x8C, 0x3A]);
    let off = ws.set_relay_command(3, State::Off);
    assert_eq!(&off[..6], &[0x01, 0x05, 0x00, 0x03, 0x00, 0x00]);
    assert_eq!(&off[6..], &modbus_crc(&off[..6]).to_le_bytes());
}

#[test]
fn waveshare_read_and_set_all_commands() {
    let ws = Waveshare::new(0x02);
    let read = ws.get_relay_command();
    assert_eq!(&read[..6], &[0x02, 0x01, 0x00, 0xFF, 0x00, 0x01]);
    assert_eq!(&read[6..], &modbus_crc(&read[..6]).to_le_bytes());
    let all_on = ws.set_all_relays_command(State::On);
    assert_eq!(&all_on[..6], &[0x02, 0x05, 0x00, 0xFF, 0xFF, 0xFF]);
    assert_eq!(&all_on[6..], &modbus_crc(&all_on[..6]).to_le_bytes());
    let all_off = ws.set_all_relays_command(State::Off);
    assert_eq!(&all_off[..6], &[0x02, 0x05, 0x00, 0xFF, 0x00, 0x00]);
}

#[test]
fn waveshare_reads_relays_from_binary_digits() {
    let resp = vec![0x01, 0x01, 0x01, 0b101, 0x00, 0x00];
    assert_eq!(Waveshare::relay_state_from_response(&resp, 0).unwrap(), State::On);
    assert_eq!(Waveshare::relay_state_from_response(&resp, 1).unwrap(), State::Off);
    assert_eq!(Waveshare::relay_state_from_response(&resp, 2).unwrap(), State::On);
    let err = Waveshare::relay_state_from_response(&resp, 3).unwrap_err();
    assert_eq!(
        err.to_string(),
        "Something went wrong with the boards response: [\"1\", \"0\", \"1\"]"
    );
}

#[test]
fn waveshare_reports_at_most_eight_relays() {
    let resp = vec![0x01, 0x01, 0x01, 0xFF];
    for relay in 0..8 {
        assert_eq!(Waveshare::relay_state_from_response(&resp, relay).unwrap(), State::On);
    }
    assert!(Waveshare::relay_state_from_response(&resp, 8).is_err());
    let zero = vec![0x01, 0x01, 0x01, 0x00];
    assert_eq!(Waveshare::relay_state_from_response(&zero, 0).unwrap(), State::Off);
    assert!(Waveshare::relay_state_from_response(&zero, 1).is_err());
}

#[test]
fn waveshare_short_reply_is_an_error() {
    let err = Waveshare::relay_state_from_response(&vec![1, 2], 0).unwrap_err();
    assert_eq!(err.to_string(), "Something went wrong, resp: [1, 2]");
    let err = Waveshare::relay_state_from_response(&vec![], 0).unwrap_err();
    assert_eq!(err.to_string(), "Something went wrong, resp: []");
}

#[test]
fn board_keeps_address_and_baudrate() {
    let mut board = Board::new(0x05, 19200);
    assert_eq!(board.address(), 0x05);
    board.set_address(0x06);
    assert_eq!(board.address(), 0x06);
    assert_eq!(board.baudrate(), 19200);
}

#[test]
fn state_from_bool_and_display() {
    assert_eq!(State::from(true), State::On);
    assert_eq!(State::from(false), State::Off);
    assert_eq!(State::On.to_string(), "on");
    assert_eq!(State::Off.to_string(), "off");
}

#[test]
fn board_error_display() {
    let err = BoardError::new(String::from("Error writing to board: timed out"), Some(0x1F));
    assert_eq!(err.to_string(), "Board 0x1F: Error writing to board: timed out");
    let err = BoardError::new(String::from("bad"), Some(10));
    assert_eq!(err.to_string(), "Board 0xA: bad");
    let parsed: BoardError = "no board here".parse().unwrap();
    assert_eq!(parsed.to_string(), "no board here");
}

#[test]
fn str1xx_get_checksum_keeps_last_two_digits() {
    // 0x08 + 0x17 + 0xFE + 0x01 + 0x01 + 0x01 = 0x120
    assert_eq!(Str1xx::get_checksum("0817fe010101"), "20");
    assert_eq!(Str1xx::get_checksum("0601fefd"), "02");
}

#[test]
fn str1xx_commands() {
    let mut board = Str1xx::new(2);
    assert_eq!(board.get_relay_command(), "55aa0714020000102d77");
    assert_eq!(board.set_relay_command(1, State::On), "55aa0817020101012477");
    let mut fe = Str1xx::new(0xFE);
    let text = fe.set_controller_num(0xFD);
    assert_eq!(text, "55aa0601fefd0277");
    assert_eq!(fe.address, 0xFD);
    // The same command as the framed STR1 command
    let mut str1 = STR1::new(0xFE, "/dev/ttyUSB0", 9600);
    assert_eq!(text, hex::encode(str1.set_controller_num(0xFD)));
    board.address = 0x10;
    assert_eq!(board.get_relay_command(), "55aa0714100000102d77");
}

#[test]
fn str1xx_status_reply() {
    let mut reply = vec![0x55, 0xAA, 0x10];
    for relay in 0..16u8 {
        reply.push(if relay % 3 == 0 { 1 } else { 0 });
    }
    for relay in 0..16u8 {
        let expected = if relay % 3 == 0 { State::On } else { State::Off };
        assert_eq!(Str1xx::relay_state_from_response(&reply, relay), expected);
        assert_eq!(Str1::relay_state_from_response(&reply, relay), expected);
    }
}

#[test]
fn test_zfill() {
    assert_eq!("02", zfill(2));
    assert_eq!("05", zfill(5));
    assert_eq!("14", zfill(14));
    assert_eq!("145", zfill(145));

    let s = Str1::new(2);
    assert_eq!("02", s.address);
    assert_ne!("2", s.address);
}

#[test]
fn str1_text_commands() {
    let mut board = Str1::new(2);
    assert_eq!(Str1::get_checksum("0817020101"), "23");
    assert_eq!(board.set_relay_command(1, State::On), "55aa0817020101012477");
    assert_eq!(board.set_relay_command(1, State::Off), "55aa0817020101002377");
    assert_eq!(board.get_relay_command(3), Some(String::from("55aa07140200102d77")));
    assert_eq!(board.get_relay_command(16), None);
    assert_eq!(board.set_controller_num(3), "55aa060102030c77");
    assert_eq!(board.address, "03");
}

#[test]
fn waveshare_push_checksum_is_low_byte_first() {
    let mut bytes = vec![0x01, 0x02];
    Waveshare::push_checksum(&mut bytes, 0x1234);
    assert_eq!(bytes, vec![0x01, 0x02, 0x34, 0x12]);
}

#[test]
fn command_bytes_decode_hex_text() {
    assert_eq!(command_bytes("55aa0714020000102d77"), Some(vec![0x55, 0xAA, 0x07, 0x14, 0x02, 0x00, 0x00, 0x10, 0x2D, 0x77]));
    assert_eq!(command_bytes("FE"), Some(vec![0xFE]));
    assert_eq!(command_bytes(""), Some(vec![]));
    assert_eq!(command_bytes("0"), None);
    assert_eq!(command_bytes("zz"), None);
    assert_eq!(command_bytes("é0"), None);
}

#[test]
fn str1_checked_commands() {
    let mut board = Str1::new(2);
    assert_eq!(board.checked_set_relay_command(1, State::On), Some(String::from("55aa0817020101012477")));
    assert_eq!(board.checked_set_controller_num(3), Some(String::from("55aa060102030c77")));
    assert_eq!(board.address, "03");

    // A controller number that is not decimal
    let mut big = Str1::new(2);
    big.address = String::from("ff");
    assert_eq!(big.checked_set_relay_command(1, State::On), None);
    big.address = String::from("99");
    // 08 17 99 10 01 01 sum to 0xca, which fits
    assert!(big.checked_set_relay_command(10, State::On).is_some());
    // 06 01 99 99 sum past 255: nothing changes
    assert_eq!(big.checked_set_controller_num(99), None);
    assert_eq!(big.address, "99");
}
