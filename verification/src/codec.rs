//! Decoding of payloads that arrive as text: hexadecimal and Base64.
//!
//! The decoders themselves are those of the `hex` and `base64` crates. What
//! this module adds is the rule that spaces in hexadecimal text do not
//! count, the error type that the API reports, and the statement of what
//! hexadecimal decoding returns, from which the round-trip laws follow.

use vstd::prelude::*;
use vstd::string::*;
use base64::Engine;

verus! {

/// The error of `hex::decode`.
#[verifier::external_type_specification]
#[verifier::external_body]
pub struct ExFromHexError(hex::FromHexError);

/// The error of the `base64` decoders.
#[verifier::external_type_specification]
#[verifier::external_body]
pub struct ExBase64PayloadError(base64::DecodeError);

/// A textual encoding of bytes.
#[derive(Debug, Clone, Copy, PartialEq, Eq, Structural)]
pub enum Encoding {
    Hex,
    Base64,
}

/// A payload that could not be decoded.
#[derive(Debug, Clone, PartialEq, Eq)]
pub struct PayloadError {
    /// The encoding that the payload was said to be in.
    pub encoding: Encoding,
    /// What the decoder found wrong, in its own words.
    pub detail: String,
}

/// What a client is told about a payload that could not be decoded.
pub open spec fn decode_error_text(encoding: Encoding, detail: Seq<char>) -> Seq<char> {
    match encoding {
        Encoding::Hex => "Invalid hex data: "@ + detail,
        Encoding::Base64 => "Invalid base64 data: "@ + detail,
    }
}

impl PayloadError {
    /// The text of the error as shown to API clients.
    pub open spec fn message_text(self) -> Seq<char> {
        decode_error_text(self.encoding, self.detail@)
    }

    /// Renders the error for API clients.
    pub fn message(&self) -> (text: String)
        ensures
            text@ == self.message_text(),
    {
        match self.encoding {
            Encoding::Hex => String::from_str("Invalid hex data: ").concat(self.detail.as_str()),
            Encoding::Base64 => String::from_str("Invalid base64 data: ").concat(
                self.detail.as_str(),
            ),
        }
    }
}

/// The value of a hexadecimal digit in either case, if the byte is one.
pub open spec fn hex_value(c: u8) -> Option<int> {
    if 0x30 <= c <= 0x39 {
        Some(c - 0x30)
    } else if 0x61 <= c <= 0x66 {
        Some(c - 0x61 + 10)
    } else if 0x41 <= c <= 0x46 {
        Some(c - 0x41 + 10)
    } else {
        None
    }
}

/// Text that hexadecimal decoding accepts: an even number of hexadecimal
/// digits and nothing else.
pub open spec fn is_hex(text: Seq<u8>) -> bool {
    &&& text.len() % 2 == 0
    &&& forall|i: int| 0 <= i < text.len() ==> hex_value(#[trigger] text[i]) is Some
}

/// The bytes that accepted hexadecimal text stands for: each pair of digits
/// is one byte, high digit first.
pub open spec fn hex_bytes(text: Seq<u8>) -> Seq<u8> {
    Seq::new(
        text.len() / 2,
        |i: int| (hex_value(text[2 * i]).unwrap() * 16 + hex_value(text[2 * i + 1]).unwrap()) as u8,
    )
}

/// The text with every space (byte 0x20) taken out.
pub open spec fn without_spaces(text: Seq<u8>) -> Seq<u8>
    decreases text.len(),
{
    if text.len() == 0 {
        Seq::empty()
    } else if text.last() == 0x20 {
        without_spaces(text.drop_last())
    } else {
        without_spaces(text.drop_last()).push(text.last())
    }
}

/// What hexadecimal text decodes to, spaces not counting.
pub open spec fn hex_decoding(text: Seq<u8>) -> Option<Seq<u8>> {
    if is_hex(without_spaces(text)) {
        Some(hex_bytes(without_spaces(text)))
    } else {
        None
    }
}

/// The lower-case hexadecimal digit for a value below 16, as a byte.
pub open spec fn hex_digit_byte(d: int) -> u8 {
    if d < 10 {
        (0x30 + d) as u8
    } else {
        (0x57 + d) as u8
    }
}

/// The lower-case hexadecimal encoding of bytes, without separators.
pub open spec fn hex_text(data: Seq<u8>) -> Seq<u8> {
    Seq::new(
        2 * data.len(),
        |i: int|
            if i % 2 == 0 {
                hex_digit_byte(data[i / 2] as int / 16)
            } else {
                hex_digit_byte(data[i / 2] as int % 16)
            },
    )
}

/// What the standard Base64 decoder of the `base64` crate makes of a text:
/// the bytes, or nothing where it reports an error.
pub uninterp spec fn base64_standard_decoding(text: Seq<u8>) -> Option<Seq<u8>>;

/// `hex::decode`. It succeeds exactly on an even number of hexadecimal
/// digits of either case, and then returns one byte for each pair of
/// digits, high digit first.
#[verifier::external_body]
fn hex_decode(text: &[u8]) -> (result: Result<Vec<u8>, hex::FromHexError>)
    ensures
        match result {
            Ok(bytes) => is_hex(text@) && bytes@ == hex_bytes(text@),
            Err(_) => !is_hex(text@),
        },
{
    hex::decode(text)
}

/// The `Display` text of a `hex::FromHexError`. Nothing is claimed of it.
#[verifier::external_body]
fn hex_error_text(error: &hex::FromHexError) -> (text: String) {
    error.to_string()
}

/// `base64::engine::general_purpose::STANDARD.decode`: the standard
/// alphabet with canonical padding required. Its result is a function of
/// the text alone, which this library names and does not spell out.
#[verifier::external_body]
fn base64_decode(text: &[u8]) -> (result: Result<Vec<u8>, base64::DecodeError>)
    ensures
        match result {
            Ok(bytes) => base64_standard_decoding(text@) == Some(bytes@),
            Err(_) => base64_standard_decoding(text@) is None,
        },
{
    base64::engine::general_purpose::STANDARD.decode(text)
}

/// The `Display` text of a `base64::DecodeError`. Nothing is claimed of it.
#[verifier::external_body]
fn base64_error_text(error: &base64::DecodeError) -> (text: String) {
    error.to_string()
}

/// Copies the text without its spaces.
pub fn strip_spaces(text: &[u8]) -> (stripped: Vec<u8>)
    ensures
        stripped@ == without_spaces(text@),
{
    let mut stripped: Vec<u8> = Vec::new();
    let mut i: usize = 0;
    while i < text.len()
        invariant
            i <= text@.len(),
            stripped@ == without_spaces(text@.subrange(0, i as int)),
        decreases text@.len() - i,
    {
        let b: u8 = text[i];
        proof {
            let next = text@.subrange(0, i + 1);
            assert(next.drop_last() =~= text@.subrange(0, i as int));
        }
        if b != 0x20 {
            stripped.push(b);
        }
        i += 1;
    }
    assert(text@.subrange(0, text@.len() as int) =~= text@);
    stripped
}

/// Turns the outcome of the hexadecimal decoder into the library's result:
/// the bytes as they are, or an error that carries the decoder's words.
pub fn hex_outcome(outcome: Result<Vec<u8>, hex::FromHexError>) -> (result: Result<
    Vec<u8>,
    PayloadError,
>)
    ensures
        match outcome {
            Ok(bytes) => result == Ok::<Vec<u8>, PayloadError>(bytes),
            Err(_) => result matches Err(error) && error.encoding == Encoding::Hex,
        },
{
    match outcome {
        Ok(bytes) => Ok(bytes),
        Err(error) => Err(PayloadError { encoding: Encoding::Hex, detail: hex_error_text(&error) }),
    }
}

/// Turns the outcome of the Base64 decoder into the library's result: the
/// bytes as they are, or an error that carries the decoder's words.
pub fn base64_outcome(outcome: Result<Vec<u8>, base64::DecodeError>) -> (result: Result<
    Vec<u8>,
    PayloadError,
>)
    ensures
        match outcome {
            Ok(bytes) => result == Ok::<Vec<u8>, PayloadError>(bytes),
            Err(_) => result matches Err(error) && error.encoding == Encoding::Base64,
        },
{
    match outcome {
        Ok(bytes) => Ok(bytes),
        Err(error) => Err(
            PayloadError { encoding: Encoding::Base64, detail: base64_error_text(&error) },
        ),
    }
}

/// Decodes hexadecimal text. Spaces anywhere in the text are ignored; what
/// is left must be an even number of hexadecimal digits.
pub fn decode_hex(text: &[u8]) -> (result: Result<Vec<u8>, PayloadError>)
    ensures
        match result {
            Ok(bytes) => hex_decoding(text@) == Some(bytes@),
            Err(error) => hex_decoding(text@) is None && error.encoding == Encoding::Hex,
        },
{
    let stripped = strip_spaces(text);
    hex_outcome(hex_decode(stripped.as_slice()))
}

/// Decodes standard Base64 text with padding.
pub fn decode_base64(text: &[u8]) -> (result: Result<Vec<u8>, PayloadError>)
    ensures
        match result {
            Ok(bytes) => base64_standard_decoding(text@) == Some(bytes@),
            Err(error) => base64_standard_decoding(text@) is None && error.encoding
                == Encoding::Base64,
        },
{
    base64_outcome(base64_decode(text))
}

/// The encoding has two digits for every byte and no other character.
pub proof fn lemma_hex_text_is_hex(data: Seq<u8>)
    ensures
        is_hex(hex_text(data)),
        hex_bytes(hex_text(data)) == data,
{
    let text = hex_text(data);
    assert forall|i: int| 0 <= i < text.len() implies hex_value(#[trigger] text[i]) is Some by {
        let b = data[i / 2];
        assert(0 <= b as int / 16 < 16);
        assert(0 <= b as int % 16 < 16);
    }
    assert forall|i: int| 0 <= i < data.len() implies hex_bytes(text)[i] == data[i] by {
        let b = data[i];
        assert(text[2 * i] == hex_digit_byte(b as int / 16));
        assert(text[2 * i + 1] == hex_digit_byte(b as int % 16));
        assert(hex_value(hex_digit_byte(b as int / 16)) == Some(b as int / 16));
        assert(hex_value(hex_digit_byte(b as int % 16)) == Some(b as int % 16));
    }
    assert(hex_bytes(text) =~= data);
}

/// Text without any space is left as it is.
pub proof fn lemma_nothing_to_strip(text: Seq<u8>)
    requires
        forall|i: int| 0 <= i < text.len() ==> text[i] != 0x20,
    ensures
        without_spaces(text) == text,
    decreases text.len(),
{
    if text.len() > 0 {
        lemma_nothing_to_strip(text.drop_last());
        assert(text.drop_last().push(text.last()) =~= text);
    }
}

/// Decoding the lower-case encoding of any bytes gives the bytes back.
pub proof fn lemma_hex_round_trip(data: Seq<u8>)
    ensures
        hex_decoding(hex_text(data)) == Some(data),
{
    let text = hex_text(data);
    lemma_hex_text_is_hex(data);
    assert forall|i: int| 0 <= i < text.len() implies text[i] != 0x20 by {
        assert(hex_value(text[i]) is Some);
    }
    lemma_nothing_to_strip(text);
}

/// Spaces do not count: any text that is the encoding of some bytes with
/// spaces put in anywhere decodes to those bytes.
pub proof fn lemma_hex_ignores_spaces(data: Seq<u8>, text: Seq<u8>)
    requires
        without_spaces(text) == hex_text(data),
    ensures
        hex_decoding(text) == Some(data),
{
    lemma_hex_text_is_hex(data);
}

} // verus!
