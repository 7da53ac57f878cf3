use base64::Engine;
use webmux::codec::{
    base64_outcome, decode_base64, decode_hex, hex_outcome, strip_spaces, Encoding, PayloadError,
};
use webmux::web::{decode_payload, DataFormat, SendDataRequest};

#[test]
fn test_hex_decode_with_spaces() {
    let hex_string = "48 65 6c 6c 6f";
    let decoded = decode_hex(hex_string.as_bytes()).unwrap();
    assert_eq!(decoded, b"Hello");
}

#[test]
fn test_hex_decode_without_spaces() {
    let hex_string = "48656c6c6f";
    let decoded = decode_hex(hex_string.as_bytes()).unwrap();
    assert_eq!(decoded, b"Hello");
}

#[test]
fn test_base64_decode() {
    let base64_string = "SGVsbG8=";
    let decoded = decode_base64(base64_string.as_bytes()).unwrap();
    assert_eq!(decoded, b"Hello");
}

#[test]
fn test_invalid_hex() {
    let hex_string = "ZZZZ";
    let result = decode_hex(hex_string.as_bytes());
    assert!(result.is_err());
}

#[test]
fn test_invalid_base64() {
    let base64_string = "!!!invalid!!!";
    let result = decode_base64(base64_string.as_bytes());
    assert!(result.is_err());
}

#[test]
fn test_data_format_conversions() {
    let request = |data: &str, format: DataFormat| SendDataRequest { data: data.to_string(), format };

    // Test text to bytes
    let bytes = decode_payload(&request("Hello", DataFormat::Text)).unwrap();
    assert_eq!(bytes, b"Hello");

    // Test hex to bytes
    let hex_decoded = decode_payload(&request("48656c6c6f", DataFormat::Hex)).unwrap();
    assert_eq!(hex_decoded, b"Hello");

    // Test base64 to bytes
    let base64_decoded = decode_payload(&request("SGVsbG8=", DataFormat::Base64)).unwrap();
    assert_eq!(base64_decoded, b"Hello");
}

fn lower_hex(data: &[u8]) -> String {
    let digits = b"0123456789abcdef";
    let mut text = String::new();
    for b in data {
        text.push(digits[(b >> 4) as usize] as char);
        text.push(digits[(b & 15) as usize] as char);
    }
    text
}

#[test]
fn hex_round_trip_of_every_byte() {
    let data: Vec<u8> = (0..=255).collect();
    let text = lower_hex(&data);
    assert_eq!(text, hex::encode(&data));
    assert_eq!(decode_hex(text.as_bytes()).unwrap(), data);
}

#[test]
fn hex_with_spaces_anywhere() {
    let data = vec![0x00, 0x7f, 0x80, 0xff, 0x20];
    let spaced = " 0 07 f8  0ff2 0  ";
    assert_eq!(decode_hex(spaced.as_bytes()).unwrap(), data);
    assert_eq!(decode_hex(b"").unwrap(), Vec::<u8>::new());
    assert_eq!(decode_hex(b"   ").unwrap(), Vec::<u8>::new());
}

#[test]
fn hex_takes_both_cases() {
    assert_eq!(decode_hex(b"aAbBcCdDeEfF").unwrap(), vec![0xaa, 0xbb, 0xcc, 0xdd, 0xee, 0xff]);
    assert_eq!(decode_hex(b"09").unwrap(), vec![0x09]);
}

#[test]
fn hex_faults() {
    for bad in ["4", "486", "4g", "g4", "48\t65", "0x48", "48,65", "4\u{e9}"] {
        let error = decode_hex(bad.as_bytes()).unwrap_err();
        assert_eq!(error.encoding, Encoding::Hex);
        assert!(error.message().starts_with("Invalid hex data: "));
        assert_eq!(error.message(), format!("Invalid hex data: {}", error.detail));
    }
    // One digit is left once the spaces are gone.
    assert!(decode_hex(b"48 6").is_err());
    assert_eq!(decode_hex(b"123").unwrap_err().detail, "Odd number of digits");
}

#[test]
fn strip_spaces_takes_only_spaces() {
    assert_eq!(strip_spaces(b" a b\tc \n "), b"ab\tc\n");
    assert_eq!(strip_spaces(b""), b"");
    assert_eq!(strip_spaces(b"abc"), b"abc");
}

#[test]
fn base64_round_trip_of_the_padded_encoding() {
    let engine = base64::engine::general_purpose::STANDARD;
    let data: Vec<u8> = (0..=255).collect();
    for len in [0usize, 1, 2, 3, 4, 5, 254, 255, 256] {
        let text = engine.encode(&data[..len]);
        assert_eq!(decode_base64(text.as_bytes()).unwrap(), &data[..len]);
    }
}

#[test]
fn base64_faults() {
    for bad in ["SGVsbG8", "SGVsbG8==", "SGVs bG8=", "SGVsbG9=", "SGVsbG8=\n", "S", "===="] {
        let error = decode_base64(bad.as_bytes()).unwrap_err();
        assert_eq!(error.encoding, Encoding::Base64);
        assert!(error.message().starts_with("Invalid base64 data: "));
    }
}

#[test]
fn outcomes_of_the_decoders() {
    assert_eq!(hex_outcome(Ok(vec![1, 2])), Ok(vec![1, 2]));
    assert_eq!(
        hex_outcome(Err(hex::FromHexError::OddLength)),
        Err(PayloadError { encoding: Encoding::Hex, detail: "Odd number of digits".to_string() })
    );
    assert_eq!(base64_outcome(Ok(vec![])), Ok(vec![]));
    let error = base64_outcome(Err(base64::DecodeError::InvalidPadding)).unwrap_err();
    assert_eq!(error.encoding, Encoding::Base64);
    assert_eq!(error.message(), format!("Invalid base64 data: {}", base64::DecodeError::InvalidPadding));
}

#[test]
fn text_payload_is_its_utf8_bytes() {
    let request = SendDataRequest { data: "h\u{e9} \u{1f600}".to_string(), format: DataFormat::Text };
    assert_eq!(decode_payload(&request).unwrap(), "h\u{e9} \u{1f600}".as_bytes());
    // Spaces count in text, and only in text.
    let request = SendDataRequest { data: "4 8".to_string(), format: DataFormat::Text };
    assert_eq!(decode_payload(&request).unwrap(), b"4 8");
    let request = SendDataRequest { data: "4 8".to_string(), format: DataFormat::Hex };
    assert_eq!(decode_payload(&request).unwrap(), b"H");
    let request = SendDataRequest { data: "SGVs bG8=".to_string(), format: DataFormat::Base64 };
    assert_eq!(decode_payload(&request).unwrap_err().encoding, Encoding::Base64);
}

#[test]
fn a_request_without_format_is_text() {
    assert_eq!(DataFormat::default(), DataFormat::Text);
}
