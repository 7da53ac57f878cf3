//! The control API: what each HTTP endpoint answers, and the stream bridge.

use vstd::prelude::*;

pub mod bridge;
pub mod handlers;

pub use handlers::{
    data_sent, decode_payload, get_connection_info, get_stats, list_connections, send_data,
    ConnectionInfo, ConnectionListItem, DataFormat, SendDataRequest,
};

verus! {

/// The status of every successful answer.
pub const STATUS_OK: u16 = 200;

/// The status of every error answer, whatever went wrong.
pub const STATUS_ERROR: u16 = 500;

/// An error answer: its body is the object `{"error": <message>}`.
#[derive(Debug, Clone, PartialEq, Eq)]
pub struct ApiError {
    pub error: String,
}

impl ApiError {
    /// An error answer with this message.
    pub fn new(message: String) -> (error: ApiError)
        ensures
            error.error == message,
    {
        ApiError { error: message }
    }

    /// The HTTP status that goes with an error answer.
    pub fn status(&self) -> (code: u16)
        ensures
            code == STATUS_ERROR,
    {
        STATUS_ERROR
    }
}

/// `GET /health`: the body of the answer.
pub fn health_check() -> (body: &'static str)
    ensures
        body@ == "OK"@,
{
    "OK"
}

} // verus!
