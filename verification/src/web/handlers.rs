//! What the endpoints of the control API answer.
//!
//! Each function here is the whole of an endpoint but for the transport:
//! it takes the request as plain values and returns the value to serialise,
//! or the session and bytes to act on.

use vstd::prelude::*;
use vstd::string::*;
use vstd::utf8::*;
use crate::codec::{
    base64_standard_decoding, decode_base64, decode_error_text, decode_hex, hex_decoding, Encoding,
    PayloadError,
};
use crate::config::{DataBits, Parity, SerialConnectionConfig, StopBits};
use crate::serial::{is_listing, name_texts, not_found_text, SerialManager};
use crate::text::{decimal_text, push_decimal};
use crate::web::ApiError;

verus! {

/// One entry of the session list.
#[derive(Debug, Clone, PartialEq, Eq)]
pub struct ConnectionListItem {
    /// Name of the serial connection
    pub name: String,
}

/// The descriptor of a session as the API shows it.
#[derive(Debug, Clone, PartialEq, Eq)]
pub struct ConnectionInfo {
    /// Name of the serial connection
    pub name: String,
    /// Serial port path (e.g., /dev/ttyUSB0, COM3)
    pub port: String,
    /// Baud rate in bits per second
    pub baud_rate: u32,
    /// Number of data bits (5, 6, 7, or 8)
    pub data_bits: String,
    /// Number of stop bits (1 or 2)
    pub stop_bits: String,
    /// Parity setting (None, Odd, or Even)
    pub parity: String,
}

/// How the `data` of a write request is to be read.
#[derive(Debug, Clone, Copy, PartialEq, Eq, Structural)]
pub enum DataFormat {
    /// Plain text format
    Text,
    /// Hexadecimal format (e.g., "48656c6c6f" or "48 65 6c 6c 6f")
    Hex,
    /// Base64 encoded format
    Base64,
}

impl Default for DataFormat {
    /// A request that names no format is plain text.
    fn default() -> (format: DataFormat)
        ensures
            format == DataFormat::Text,
    {
        DataFormat::Text
    }
}

/// The body of a one-shot write request.
#[derive(Debug, Clone, PartialEq, Eq)]
pub struct SendDataRequest {
    /// Data to send to the serial port
    pub data: String,
    /// Format of the data (text, hex, or base64)
    pub format: DataFormat,
}

/// How the number of data bits is shown: as a decimal numeral.
pub open spec fn data_bits_text(bits: DataBits) -> Seq<char> {
    decimal_text(bits.width() as nat)
}

/// How the number of stop bits is shown: as a decimal numeral.
pub open spec fn stop_bits_text(bits: StopBits) -> Seq<char> {
    decimal_text(bits.width() as nat)
}

/// How the parity setting is shown.
pub open spec fn parity_text(parity: Parity) -> Seq<char> {
    match parity {
        Parity::Off => "None"@,
        Parity::Odd => "Odd"@,
        Parity::Even => "Even"@,
    }
}

/// The bytes that a request's data stands for in its format, if it is
/// well-formed: text stands for its own UTF-8 bytes.
pub open spec fn decoded(format: DataFormat, data: Seq<u8>) -> Option<Seq<u8>> {
    match format {
        DataFormat::Text => Some(data),
        DataFormat::Hex => hex_decoding(data),
        DataFormat::Base64 => base64_standard_decoding(data),
    }
}

/// The encoding that a format decodes, if it decodes any.
pub open spec fn encoding_of(format: DataFormat) -> Option<Encoding> {
    match format {
        DataFormat::Text => None,
        DataFormat::Hex => Some(Encoding::Hex),
        DataFormat::Base64 => Some(Encoding::Base64),
    }
}

/// The names that a list of items shows.
pub open spec fn item_names(items: Seq<ConnectionListItem>) -> Seq<Seq<char>> {
    Seq::new(items.len(), |i: int| items[i].name@)
}

/// `GET /api/connections`: one item for every registered session.
pub fn list_connections<S>(manager: &SerialManager<S>) -> (items: Vec<ConnectionListItem>)
    requires
        manager.well_formed(),
    ensures
        is_listing(manager@, item_names(items@)),
        items@.len() == manager@.dom().len(),
{
    let names = manager.list_connections();
    let mut items: Vec<ConnectionListItem> = Vec::new();
    let mut i: usize = 0;
    while i < names.len()
        invariant
            i <= names@.len(),
            items@.len() == i,
            forall|k: int| 0 <= k < i ==> items@[k].name@ == names@[k]@,
        decreases names@.len() - i,
    {
        items.push(ConnectionListItem { name: names[i].clone() });
        i += 1;
    }
    assert(item_names(items@) =~= name_texts(names@));
    items
}

/// `GET /api/connections/{name}`: the descriptor of the session, its line
/// settings written out as text. For a name that no session has, the answer
/// repeats the name and is empty otherwise.
pub fn get_connection_info(name: String, config: Option<&SerialConnectionConfig>) -> (info:
    ConnectionInfo)
    ensures
        match config {
            Some(config) => {
                &&& info.name@ == config.name@
                &&& info.port@ == config.port@
                &&& info.baud_rate == config.baud_rate
                &&& info.data_bits@ == data_bits_text(config.data_bits)
                &&& info.stop_bits@ == stop_bits_text(config.stop_bits)
                &&& info.parity@ == parity_text(config.parity)
            },
            None => {
                &&& info.name == name
                &&& info.port@.len() == 0
                &&& info.baud_rate == 0
                &&& info.data_bits@.len() == 0
                &&& info.stop_bits@.len() == 0
                &&& info.parity@.len() == 0
            },
        },
{
    match config {
        Some(config) => {
            let mut data_bits = String::new();
            push_decimal(&mut data_bits, config.data_bits.bits() as u64);
            let mut stop_bits = String::new();
            push_decimal(&mut stop_bits, config.stop_bits.bits() as u64);
            assert(data_bits@ =~= data_bits_text(config.data_bits));
            assert(stop_bits@ =~= stop_bits_text(config.stop_bits));
            ConnectionInfo {
                name: config.name.clone(),
                port: config.port.clone(),
                baud_rate: config.baud_rate,
                data_bits,
                stop_bits,
                parity: String::from_str(
                    match config.parity {
                        Parity::Off => "None",
                        Parity::Odd => "Odd",
                        Parity::Even => "Even",
                    },
                ),
            }
        },
        None => ConnectionInfo {
            name,
            port: String::new(),
            baud_rate: 0,
            data_bits: String::new(),
            stop_bits: String::new(),
            parity: String::new(),
        },
    }
}

/// The bytes that a write request asks to send. Text is sent as its UTF-8
/// bytes; hexadecimal text may hold spaces, which are ignored; Base64 is
/// the standard alphabet with padding.
pub fn decode_payload(request: &SendDataRequest) -> (result: Result<Vec<u8>, PayloadError>)
    ensures
        match result {
            Ok(bytes) => decoded(request.format, encode_utf8(request.data@)) == Some(bytes@),
            Err(error) => {
                &&& decoded(request.format, encode_utf8(request.data@)) is None
                &&& encoding_of(request.format) == Some(error.encoding)
            },
        },
{
    match request.format {
        DataFormat::Text => Ok(request.data.as_str().as_bytes_vec()),
        DataFormat::Hex => decode_hex(request.data.as_str().as_bytes()),
        DataFormat::Base64 => decode_base64(request.data.as_str().as_bytes()),
    }
}

/// `POST /api/connections/{name}/send`: the session to write to and the
/// block to put on its mailbox. The data is decoded first, so a payload
/// that cannot be decoded is reported even if the session does not exist.
pub fn send_data<'a, S>(manager: &'a SerialManager<S>, name: &str, request: &SendDataRequest) -> (result:
    Result<(&'a S, Vec<u8>), ApiError>)
    requires
        manager.well_formed(),
    ensures
        match decoded(request.format, encode_utf8(request.data@)) {
            None => result matches Err(error) && exists|detail: Seq<char>|
                error.error@ == #[trigger] decode_error_text(
                    encoding_of(request.format).unwrap(),
                    detail,
                ),
            Some(bytes) => if manager@.contains_key(name@) {
                &&& result matches Ok((session, block))
                &&& *session == manager@[name@]
                &&& block@ == bytes
            } else {
                result matches Err(error) && error.error@ == not_found_text(name@)
            },
        },
{
    match decode_payload(request) {
        Err(error) => {
            let text = error.message();
            assert(text@ == decode_error_text(encoding_of(request.format).unwrap(), error.detail@));
            Err(ApiError { error: text })
        },
        Ok(bytes) => match manager.get_connection(name) {
            Some(session) => Ok((session, bytes)),
            None => Err(
                ApiError {
                    error: String::from_str("Connection not found: ").concat(name),
                },
            ),
        },
    }
}

/// What `POST /api/connections/{name}/send` answers once the block is on
/// the mailbox.
pub fn data_sent() -> (body: &'static str)
    ensures
        body@ == "Data sent"@,
{
    "Data sent"
}

/// `GET /api/connections/{name}/stats`: the session whose statistics are to
/// be taken, or the error to answer with.
pub fn get_stats<'a, S>(manager: &'a SerialManager<S>, name: &str) -> (result: Result<&'a S, ApiError>)
    requires
        manager.well_formed(),
    ensures
        match result {
            Ok(session) => manager@.contains_key(name@) && *session == manager@[name@],
            Err(error) => !manager@.contains_key(name@) && error.error@ == not_found_text(name@),
        },
{
    match manager.get_stats(name) {
        Ok(session) => Ok(session),
        Err(error) => Err(ApiError { error: error.message() }),
    }
}

} // verus!
