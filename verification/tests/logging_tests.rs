use webmux::logging::{format_record, Direction, SerialLogger};
use webmux::web::{decode_payload, DataFormat, SendDataRequest};

#[test]
fn a_received_block() {
    let line = format_record("2024-01-31 12:00:00.000", "port-a", Direction::Rx, b"Hello");
    assert_eq!(
        line,
        "[2024-01-31 12:00:00.000] port-a | RX | 5 bytes | HEX: 48 65 6c 6c 6f | ASCII: Hello\n"
    );
}

#[test]
fn a_sent_block_with_bytes_that_do_not_print() {
    let line = format_record("t", "n", Direction::Tx, &[0x00, 0x1f, 0x20, 0x7e, 0x7f, 0xff, 0x0a]);
    assert_eq!(line, "[t] n | TX | 7 bytes | HEX: 00 1f 20 7e 7f ff 0a | ASCII: .. ~...\n");
}

#[test]
fn an_empty_block_and_a_single_byte() {
    assert_eq!(format_record("t", "n", Direction::Rx, b""), "[t] n | RX | 0 bytes | HEX:  | ASCII: \n");
    assert_eq!(
        format_record("t", "n", Direction::Rx, b"\xab"),
        "[t] n | RX | 1 bytes | HEX: ab | ASCII: .\n"
    );
}

#[test]
fn the_length_is_written_in_decimal() {
    let block = vec![b'x'; 1024];
    let line = format_record("t", "n", Direction::Rx, &block);
    assert!(line.starts_with("[t] n | RX | 1024 bytes | HEX: 78 78 "));
    assert!(line.ends_with(&format!(" 78 | ASCII: {}\n", "x".repeat(1024))));
    let block = vec![0u8; 100];
    assert!(format_record("t", "n", Direction::Tx, &block).contains(" | 100 bytes | "));
}

#[test]
fn every_byte_as_the_standard_library_formats_it() {
    let block: Vec<u8> = (0..=255).collect();
    let hex: Vec<String> = block.iter().map(|b| format!("{:02x}", b)).collect();
    let ascii: String = block
        .iter()
        .map(|&b| if b.is_ascii_graphic() || b == b' ' { b as char } else { '.' })
        .collect();
    let expected = format!("[s] p | TX | 256 bytes | HEX: {} | ASCII: {}\n", hex.join(" "), ascii);
    assert_eq!(format_record("s", "p", Direction::Tx, &block), expected);
}

#[test]
fn names_and_stamps_are_copied_as_they_are() {
    let line = format_record("", "caf\u{e9} | x", Direction::Rx, b"a");
    assert_eq!(line, "[] caf\u{e9} | x | RX | 1 bytes | HEX: 61 | ASCII: a\n");
}

#[test]
fn the_logger_stamps_with_the_local_time() {
    let logger = SerialLogger::new("ttyS0");
    let line = logger.log_received(b"Hi");
    assert!(line.starts_with('['));
    assert!(line.ends_with("] ttyS0 | RX | 2 bytes | HEX: 48 69 | ASCII: Hi\n"));
    let stamp = &line[1..line.find(']').unwrap()];
    // Year, month, day, hour, minute, second, milliseconds.
    let shape: String =
        stamp.chars().map(|c| if c.is_ascii_digit() { '9' } else { c }).collect();
    assert_eq!(shape, "9999-99-99 99:99:99.999");
    let line = logger.log_sent(b"");
    assert!(line.ends_with("] ttyS0 | TX | 0 bytes | HEX:  | ASCII: \n"));
}

#[test]
fn hello_in_three_formats_gives_three_equal_records() {
    let requests = [
        ("Hello", DataFormat::Text),
        ("48656c6c6f", DataFormat::Hex),
        ("SGVsbG8=", DataFormat::Base64),
    ];
    for (data, format) in requests {
        let block = decode_payload(&SendDataRequest { data: data.to_string(), format }).unwrap();
        assert_eq!(block, [b'H', b'e', b'l', b'l', b'o']);
        let line = format_record("t", "dev", Direction::Tx, &block);
        assert!(line.contains(" | TX | 5 bytes | "));
        assert!(line.contains("HEX: 48 65 6c 6c 6f |"));
    }
}
