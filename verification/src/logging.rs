//! The audit log: one text line for every block of bytes that passes
//! through a port, in either direction.
//!
//! A line reads
//!
//! ```text
//! [2024-01-31 12:00:00.000] port-a | RX | 5 bytes | HEX: 48 65 6c 6c 6f | ASCII: Hello
//! ```
//!
//! and ends with a line feed. This module renders lines; appending them to
//! the file is left to the caller.

use vstd::prelude::*;
use vstd::string::*;
use crate::text::{decimal_text, push_decimal};

verus! {

/// The direction of a block, seen from the service.
#[derive(Debug, Clone, Copy, PartialEq, Eq, Structural)]
pub enum Direction {
    /// Read from the device.
    Rx,
    /// Written to the device.
    Tx,
}

/// The character for a hexadecimal digit, in lower case.
pub open spec fn hex_digit_char(d: int) -> char {
    if d < 10 {
        (0x30 + d) as char
    } else {
        (0x57 + d) as char
    }
}

/// The two hexadecimal digits of a byte.
pub open spec fn hex_pair(b: u8) -> Seq<char> {
    seq![hex_digit_char(b as int / 16), hex_digit_char(b as int % 16)]
}

/// The bytes as pairs of hexadecimal digits, separated by single spaces.
pub open spec fn hex_dump(data: Seq<u8>) -> Seq<char>
    decreases data.len(),
{
    if data.len() == 0 {
        Seq::empty()
    } else if data.len() == 1 {
        hex_pair(data[0])
    } else {
        hex_dump(data.drop_last()) + seq![' '] + hex_pair(data.last())
    }
}

/// A byte that is shown as itself: a space or a visible ASCII character.
pub open spec fn is_printable(b: u8) -> bool {
    0x20 <= b <= 0x7e
}

/// How a byte is shown in the ASCII column.
pub open spec fn ascii_char(b: u8) -> char {
    if is_printable(b) {
        b as char
    } else {
        '.'
    }
}

/// The ASCII column: one character per byte.
pub open spec fn ascii_dump(data: Seq<u8>) -> Seq<char> {
    Seq::new(data.len(), |i: int| ascii_char(data[i]))
}

/// How a direction is written.
pub open spec fn direction_text(direction: Direction) -> Seq<char> {
    match direction {
        Direction::Rx => "RX"@,
        Direction::Tx => "TX"@,
    }
}

/// The audit line for one block.
pub open spec fn record_text(
    stamp: Seq<char>,
    name: Seq<char>,
    direction: Direction,
    data: Seq<u8>,
) -> Seq<char> {
    "["@ + stamp + "] "@ + name + " | "@ + direction_text(direction) + " | "@ + decimal_text(
        data.len(),
    ) + " bytes | HEX: "@ + hex_dump(data) + " | ASCII: "@ + ascii_dump(data) + "\n"@
}

/// The `strftime` pattern of the time stamp that opens every line.
pub open spec fn stamp_pattern() -> Seq<char> {
    "%Y-%m-%d %H:%M:%S%.3f"@
}

fn hex_digit(d: u8) -> (c: char)
    requires
        d < 16,
    ensures
        c == hex_digit_char(d as int),
{
    if d < 10 {
        (0x30 + d) as char
    } else {
        (0x57 + d) as char
    }
}

fn push_hex_dump(out: &mut String, data: &[u8])
    ensures
        final(out)@ == old(out)@ + hex_dump(data@),
{
    let mut i: usize = 0;
    while i < data.len()
        invariant
            i <= data@.len(),
            out@ == old(out)@ + hex_dump(data@.subrange(0, i as int)),
        decreases data@.len() - i,
    {
        if i > 0 {
            out.push(' ');
        }
        let b: u8 = data[i];
        out.push(hex_digit(b / 16));
        out.push(hex_digit(b % 16));
        assert(data@.subrange(0, i + 1).drop_last() =~= data@.subrange(0, i as int));
        i += 1;
    }
    assert(data@.subrange(0, data@.len() as int) =~= data@);
}

fn push_ascii_dump(out: &mut String, data: &[u8])
    ensures
        final(out)@ == old(out)@ + ascii_dump(data@),
{
    let mut i: usize = 0;
    while i < data.len()
        invariant
            i <= data@.len(),
            out@ == old(out)@ + ascii_dump(data@.subrange(0, i as int)),
        decreases data@.len() - i,
    {
        let b: u8 = data[i];
        if 0x20 <= b && b <= 0x7e {
            out.push(b as char);
        } else {
            out.push('.');
        }
        i += 1;
    }
}

/// Renders the audit line for one block: time stamp, port name, direction,
/// length, the bytes in hexadecimal and the bytes as ASCII, with a dot for
/// every byte that is not printable.
pub fn format_record(stamp: &str, name: &str, direction: Direction, data: &[u8]) -> (line: String)
    ensures
        line@ == record_text(stamp@, name@, direction, data@),
{
    let mut line = String::from_str("[");
    line.append(stamp);
    line.append("] ");
    line.append(name);
    line.append(" | ");
    match direction {
        Direction::Rx => line.append("RX"),
        Direction::Tx => line.append("TX"),
    }
    line.append(" | ");
    push_decimal(&mut line, data.len() as u64);
    line.append(" bytes | HEX: ");
    push_hex_dump(&mut line, data);
    line.append(" | ASCII: ");
    push_ascii_dump(&mut line, data);
    line.append("\n");
    line
}

/// The current local time as text, from `chrono`:
/// `Local::now().format(pattern).to_string()`. The result depends on the
/// clock and the time zone of the machine, so nothing is claimed of it. The
/// pattern is held to the one this library uses, which `chrono` accepts;
/// `chrono` itself gives up on a machine whose clock is set before 1970.
#[verifier::external_body]
fn local_time_text(pattern: &str) -> (stamp: String)
    requires
        pattern@ == stamp_pattern(),
{
    chrono::Local::now().format(pattern).to_string()
}

/// The writer of one port's audit lines.
#[derive(Debug, Clone)]
pub struct SerialLogger {
    connection_name: String,
}

impl SerialLogger {
    /// A writer for the port called `connection_name`.
    pub fn new(connection_name: &str) -> (logger: SerialLogger)
        ensures
            logger.name() == connection_name@,
    {
        SerialLogger { connection_name: String::from_str(connection_name) }
    }

    /// The port name that every line carries.
    pub closed spec fn name(&self) -> Seq<char> {
        self.connection_name@
    }

    /// The line for a block read from the device, stamped with the current
    /// local time.
    pub fn log_received(&self, data: &[u8]) -> (line: String)
        ensures
            exists|stamp: Seq<char>|
                line@ == #[trigger] record_text(stamp, self.name(), Direction::Rx, data@),
    {
        self.log_data(Direction::Rx, data)
    }

    /// The line for a block written to the device, stamped with the current
    /// local time.
    pub fn log_sent(&self, data: &[u8]) -> (line: String)
        ensures
            exists|stamp: Seq<char>|
                line@ == #[trigger] record_text(stamp, self.name(), Direction::Tx, data@),
    {
        self.log_data(Direction::Tx, data)
    }

    fn log_data(&self, direction: Direction, data: &[u8]) -> (line: String)
        ensures
            exists|stamp: Seq<char>|
                line@ == #[trigger] record_text(stamp, self.name(), direction, data@),
    {
        let stamp = local_time_text("%Y-%m-%d %H:%M:%S%.3f");
        let line = format_record(stamp.as_str(), self.connection_name.as_str(), direction, data);
        assert(line@ == record_text(stamp@, self.name(), direction, data@));
        line
    }
}

} // verus!
