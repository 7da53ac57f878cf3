//! The state of one port session and the decisions of its two tasks.
//!
//! A session owns one serial device. Its reader task turns every outcome of
//! a device read into a [`ReadEvent`] and asks [`SerialConnection::on_read`]
//! what to do; its writer task does the same with [`WriteEvent`] and
//! [`SerialConnection::on_write`]. The session record keeps the traffic
//! counters and the connection flag, and never performs I/O itself.

use vstd::prelude::*;
use vstd::string::*;
use crate::config::SerialConnectionConfig;
use crate::serial::ConnectionStats;

verus! {

/// How many byte blocks the write mailbox of a session holds.
pub const MAILBOX_CAPACITY: usize = 100;

/// How many byte blocks the broadcast ring of a session holds.
pub const BROADCAST_CAPACITY: usize = 1000;

/// The size of the buffer handed to each device read.
pub const READ_BUFFER_SIZE: usize = 1024;

/// What one turn of the reader task observed.
#[derive(Debug, Clone, PartialEq, Eq)]
pub enum ReadEvent {
    /// The device read returned these bytes; an empty block is end of file.
    Data(Vec<u8>),
    /// The device read failed.
    Failed,
    /// The shutdown signal arrived.
    Shutdown,
}

/// What the reader task does next.
#[derive(Debug, Clone, PartialEq, Eq)]
pub enum ReadAction {
    /// Record the block in the audit log if `record` is set, publish it to
    /// the subscribers, and read again.
    Publish { block: Vec<u8>, record: bool },
    /// Leave the loop: the session is disconnected.
    Close,
}

/// What one turn of the writer task observed.
#[derive(Debug, Clone, PartialEq, Eq)]
pub enum WriteEvent {
    /// The device accepted this block in full.
    Written(Vec<u8>),
    /// The device write failed.
    Failed,
    /// The write mailbox is closed and drained.
    MailboxClosed,
}

/// What the writer task does next.
#[derive(Debug, Clone, PartialEq, Eq)]
pub enum WriteAction {
    /// Record the block in the audit log and wait for the next one.
    Record(Vec<u8>),
    /// Wait for the next block.
    Continue,
    /// Leave the loop.
    Exit,
}

/// Anything that can happen to a session.
#[derive(Debug, Clone, PartialEq, Eq)]
pub enum SessionEvent {
    Read(ReadEvent),
    Write(WriteEvent),
    Stop,
}

/// The mathematical model of a session.
pub struct SessionView {
    pub config: SerialConnectionConfig,
    pub bytes_received: u64,
    pub bytes_sent: u64,
    pub is_connected: bool,
    pub stop_requested: bool,
}

/// A counter after `amount` more bytes: it stops at the largest value.
pub open spec fn counted(counter: u64, amount: nat) -> u64 {
    if counter + amount > u64::MAX {
        u64::MAX
    } else {
        (counter + amount) as u64
    }
}

/// A read outcome that carries bytes to deliver.
pub open spec fn delivers(event: ReadEvent) -> bool {
    event matches ReadEvent::Data(block) && block@.len() > 0
}

impl SessionView {
    /// A session that has just been opened.
    pub open spec fn fresh(config: SerialConnectionConfig) -> SessionView {
        SessionView {
            config,
            bytes_received: 0,
            bytes_sent: 0,
            is_connected: true,
            stop_requested: false,
        }
    }

    /// The session after the reader task observed `event`. A non-empty block
    /// read while connected is counted; every other outcome disconnects.
    pub open spec fn after_read(self, event: ReadEvent) -> SessionView {
        match event {
            ReadEvent::Data(block) if self.is_connected && block@.len() > 0 => SessionView {
                bytes_received: counted(self.bytes_received, block@.len()),
                ..self
            },
            _ => SessionView { is_connected: false, ..self },
        }
    }

    /// What the reader task does after `event`.
    pub open spec fn read_action(self, event: ReadEvent) -> ReadAction {
        match event {
            ReadEvent::Data(block) if self.is_connected && block@.len() > 0 => ReadAction::Publish {
                block,
                record: self.config.logging.enabled,
            },
            _ => ReadAction::Close,
        }
    }

    /// The session after the writer task observed `event`. Only a completed
    /// write changes anything: it is counted.
    pub open spec fn after_write(self, event: WriteEvent) -> SessionView {
        match event {
            WriteEvent::Written(block) => SessionView {
                bytes_sent: counted(self.bytes_sent, block@.len()),
                ..self
            },
            _ => self,
        }
    }

    /// What the writer task does after `event`.
    pub open spec fn write_action(self, event: WriteEvent) -> WriteAction {
        match event {
            WriteEvent::Written(block) => if self.config.logging.enabled {
                WriteAction::Record(block)
            } else {
                WriteAction::Continue
            },
            WriteEvent::Failed => WriteAction::Continue,
            WriteEvent::MailboxClosed => WriteAction::Exit,
        }
    }

    /// The session after a call of `stop`.
    pub open spec fn after_stop(self) -> SessionView {
        SessionView { stop_requested: true, ..self }
    }

    /// The session after one event.
    pub open spec fn after(self, event: SessionEvent) -> SessionView {
        match event {
            SessionEvent::Read(e) => self.after_read(e),
            SessionEvent::Write(e) => self.after_write(e),
            SessionEvent::Stop => self.after_stop(),
        }
    }

    /// The session after a sequence of events, oldest first.
    pub open spec fn after_all(self, events: Seq<SessionEvent>) -> SessionView
        decreases events.len(),
    {
        if events.len() == 0 {
            self
        } else {
            self.after(events.first()).after_all(events.drop_first())
        }
    }
}

/// The runtime record of one port session.
#[derive(Debug, Clone)]
pub struct SerialConnection {
    config: SerialConnectionConfig,
    bytes_received: u64,
    bytes_sent: u64,
    is_connected: bool,
    stop_requested: bool,
}

impl View for SerialConnection {
    type V = SessionView;

    closed spec fn view(&self) -> SessionView {
        SessionView {
            config: self.config,
            bytes_received: self.bytes_received,
            bytes_sent: self.bytes_sent,
            is_connected: self.is_connected,
            stop_requested: self.stop_requested,
        }
    }
}

impl SerialConnection {
    /// The record of a session whose device has just been opened: nothing
    /// counted yet, connected, not stopped.
    pub fn new(config: SerialConnectionConfig) -> (session: SerialConnection)
        ensures
            session@ == SessionView::fresh(config),
    {
        SerialConnection {
            config,
            bytes_received: 0,
            bytes_sent: 0,
            is_connected: true,
            stop_requested: false,
        }
    }

    /// The descriptor this session was created with.
    pub fn config(&self) -> (config: &SerialConnectionConfig)
        ensures
            *config == self@.config,
    {
        &self.config
    }

    /// Whether the reader task is still running.
    pub fn is_connected(&self) -> (connected: bool)
        ensures
            connected == self@.is_connected,
    {
        self.is_connected
    }

    /// The number of bytes read from the device so far.
    pub fn bytes_received(&self) -> (count: u64)
        ensures
            count == self@.bytes_received,
    {
        self.bytes_received
    }

    /// The number of bytes written to the device so far.
    pub fn bytes_sent(&self) -> (count: u64)
        ensures
            count == self@.bytes_sent,
    {
        self.bytes_sent
    }

    /// The reader task's decision. A non-empty block read while the session
    /// is connected is added to `bytes_received` and handed back for the
    /// audit log and the subscribers. An empty block (end of file), a failed
    /// read and the shutdown signal all disconnect the session for good.
    pub fn on_read(&mut self, event: ReadEvent) -> (action: ReadAction)
        ensures
            final(self)@ == old(self)@.after_read(event),
            action == old(self)@.read_action(event),
    {
        match event {
            ReadEvent::Data(block) => {
                if self.is_connected && block.len() > 0 {
                    self.bytes_received = self.bytes_received.saturating_add(block.len() as u64);
                    ReadAction::Publish { block, record: self.config.logging.enabled }
                } else {
                    self.is_connected = false;
                    ReadAction::Close
                }
            },
            ReadEvent::Failed => {
                self.is_connected = false;
                ReadAction::Close
            },
            ReadEvent::Shutdown => {
                self.is_connected = false;
                ReadAction::Close
            },
        }
    }

    /// The writer task's decision. A completed write is added to
    /// `bytes_sent` and handed back for the audit log if logging is on. A
    /// failed write changes nothing and the task goes on; only a closed
    /// mailbox ends it.
    pub fn on_write(&mut self, event: WriteEvent) -> (action: WriteAction)
        ensures
            final(self)@ == old(self)@.after_write(event),
            action == old(self)@.write_action(event),
    {
        match event {
            WriteEvent::Written(block) => {
                self.bytes_sent = self.bytes_sent.saturating_add(block.len() as u64);
                if self.config.logging.enabled {
                    WriteAction::Record(block)
                } else {
                    WriteAction::Continue
                }
            },
            WriteEvent::Failed => WriteAction::Continue,
            WriteEvent::MailboxClosed => WriteAction::Exit,
        }
    }

    /// Requests shutdown. Returns `true` exactly on the first call, when the
    /// shutdown signal has to be fired; later calls change nothing.
    pub fn stop(&mut self) -> (fire: bool)
        ensures
            final(self)@ == old(self)@.after_stop(),
            fire == !old(self)@.stop_requested,
    {
        let fire = !self.stop_requested;
        self.stop_requested = true;
        fire
    }

    /// A snapshot of the statistics, `uptime_seconds` after the session was
    /// created.
    pub fn get_stats(&self, uptime_seconds: u64) -> (stats: ConnectionStats)
        ensures
            stats.name@ == self@.config.name@,
            stats.port@ == self@.config.port@,
            stats.bytes_received == self@.bytes_received,
            stats.bytes_sent == self@.bytes_sent,
            stats.is_connected == self@.is_connected,
            stats.uptime_seconds == uptime_seconds,
    {
        ConnectionStats {
            name: self.config.name.clone(),
            port: self.config.port.clone(),
            bytes_received: self.bytes_received,
            bytes_sent: self.bytes_sent,
            is_connected: self.is_connected,
            uptime_seconds,
        }
    }
}

/// What a caller of `send` is told when the write mailbox does not take
/// the block: `detail` is the mailbox's own word for it.
pub open spec fn send_failure_text(detail: Seq<char>) -> Seq<char> {
    "Failed to send data: "@ + detail
}

/// Renders the error of a `send` that the write mailbox refused.
pub fn send_failure(detail: &str) -> (text: String)
    ensures
        text@ == send_failure_text(detail@),
{
    String::from_str("Failed to send data: ").concat(detail)
}

/// Every block that the device delivers to a connected session is counted
/// with its full length and handed on exactly as it was read, to be
/// recorded if and only if the port's logging is on. The counter must have
/// room for the block.
pub proof fn lemma_block_read_is_counted(session: SessionView, block: Vec<u8>)
    requires
        session.is_connected,
        block@.len() > 0,
        session.bytes_received + block@.len() <= u64::MAX,
    ensures
        session.after_read(ReadEvent::Data(block)).bytes_received == session.bytes_received
            + block@.len(),
        session.after_read(ReadEvent::Data(block)).is_connected,
        session.read_action(ReadEvent::Data(block)) == (ReadAction::Publish {
            block,
            record: session.config.logging.enabled,
        }),
{
}

/// Every block that the device has accepted is counted with its full
/// length, and is handed on to be recorded if and only if the port's
/// logging is on. The counter must have room for the block.
pub proof fn lemma_block_written_is_counted(session: SessionView, block: Vec<u8>)
    requires
        session.bytes_sent + block@.len() <= u64::MAX,
    ensures
        session.after_write(WriteEvent::Written(block)).bytes_sent == session.bytes_sent
            + block@.len(),
        session.config.logging.enabled ==> session.write_action(WriteEvent::Written(block))
            == WriteAction::Record(block),
        !session.config.logging.enabled ==> session.write_action(WriteEvent::Written(block))
            == WriteAction::Continue,
{
}

/// A read of no bytes is the end of the device: the session is closed by
/// it and nothing is counted.
pub proof fn lemma_empty_read_closes(session: SessionView, block: Vec<u8>)
    requires
        block@.len() == 0,
    ensures
        !session.after_read(ReadEvent::Data(block)).is_connected,
        session.read_action(ReadEvent::Data(block)) == ReadAction::Close,
        session.after_read(ReadEvent::Data(block)).bytes_received == session.bytes_received,
{
}

/// A failed write does not end the session: nothing changes and the
/// writer goes on.
pub proof fn lemma_failed_write_changes_nothing(session: SessionView)
    ensures
        session.after_write(WriteEvent::Failed) == session,
        session.write_action(WriteEvent::Failed) == WriteAction::Continue,
{
}

/// Once a session is disconnected it stays disconnected, whatever happens
/// to it afterwards.
pub proof fn lemma_disconnected_is_final(session: SessionView, events: Seq<SessionEvent>)
    ensures
        session.after_all(events).is_connected ==> session.is_connected,
    decreases events.len(),
{
    if events.len() > 0 {
        lemma_disconnected_is_final(session.after(events.first()), events.drop_first());
    }
}

/// The traffic counters never go down, and the descriptor never changes.
pub proof fn lemma_counters_never_decrease(session: SessionView, events: Seq<SessionEvent>)
    ensures
        session.bytes_received <= session.after_all(events).bytes_received,
        session.bytes_sent <= session.after_all(events).bytes_sent,
        session.after_all(events).config == session.config,
    decreases events.len(),
{
    if events.len() > 0 {
        lemma_counters_never_decrease(session.after(events.first()), events.drop_first());
    }
}

/// A stop request is never withdrawn, and a second one changes nothing.
pub proof fn lemma_stop_is_idempotent(session: SessionView)
    ensures
        session.after_stop().after_stop() == session.after_stop(),
        session.after_stop().stop_requested,
{
}

} // verus!
