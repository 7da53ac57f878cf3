//! The terminal client: its command line, the address it connects to, and
//! what its keys do.

use vstd::prelude::*;
use vstd::string::*;
use crate::text::{
    decimal_text, lossy_text, numeral_value, parse_decimal, push_decimal, same_text,
    utf8_lossy_text,
};

verus! {

/// The host that is used when none is given.
pub open spec fn default_host() -> Seq<char> {
    "127.0.0.1"@
}

/// The port that is used when none is given.
pub const DEFAULT_PORT: u16 = 8080;

/// The parsed command line of the terminal client.
#[derive(Debug, Clone, PartialEq, Eq)]
pub struct Args {
    /// WebMux server host
    pub host: String,
    /// WebMux server port
    pub port: u16,
    /// Serial device/connection name
    pub device: String,
    /// Use TLS/WSS connection
    pub tls: bool,
}

/// Why a command line was refused.
#[derive(Debug, Clone, PartialEq, Eq)]
pub enum ArgsError {
    /// `-h` or `--help` was given: usage is to be shown.
    Help,
    /// This argument is no option of the program.
    Unknown(String),
    /// This option needs a value and none follows.
    MissingValue(String),
    /// This option was given before.
    Repeated(String),
    /// This is no port number.
    InvalidPort(String),
    /// No device was named.
    MissingDevice,
}

/// The model of [`Args`].
pub struct ArgsView {
    pub host: Seq<char>,
    pub port: u16,
    pub device: Seq<char>,
    pub tls: bool,
}

/// The model of [`ArgsError`].
pub enum ArgsFault {
    Help,
    Unknown(Seq<char>),
    MissingValue(Seq<char>),
    Repeated(Seq<char>),
    InvalidPort(Seq<char>),
    MissingDevice,
}

impl View for Args {
    type V = ArgsView;

    open spec fn view(&self) -> ArgsView {
        ArgsView { host: self.host@, port: self.port, device: self.device@, tls: self.tls }
    }
}

impl View for ArgsError {
    type V = ArgsFault;

    open spec fn view(&self) -> ArgsFault {
        match self {
            ArgsError::Help => ArgsFault::Help,
            ArgsError::Unknown(s) => ArgsFault::Unknown(s@),
            ArgsError::MissingValue(s) => ArgsFault::MissingValue(s@),
            ArgsError::Repeated(s) => ArgsFault::Repeated(s@),
            ArgsError::InvalidPort(s) => ArgsFault::InvalidPort(s@),
            ArgsError::MissingDevice => ArgsFault::MissingDevice,
        }
    }
}

/// The usage text of the terminal client.
pub open spec fn usage_text() -> Seq<char> {
    "WebMux CLI - Connect to serial devices through WebMux server\n\nUsage: webmux-cli [OPTIONS] --device <DEVICE>\n\nOptions:\n  -H, --host <HOST>      WebMux server host [default: 127.0.0.1]\n  -p, --port <PORT>      WebMux server port [default: 8080]\n  -d, --device <DEVICE>  Serial device/connection name\n  -s, --tls              Use TLS/WSS connection\n  -h, --help             Print help\n"@
}

impl ArgsFault {
    /// What the user is told. A request for help is answered with the usage
    /// text.
    pub open spec fn message_text(self) -> Seq<char> {
        match self {
            ArgsFault::Help => usage_text(),
            ArgsFault::Unknown(arg) => "unexpected argument '"@ + arg + "' found"@,
            ArgsFault::MissingValue(arg) => "a value is required for '"@ + arg
                + "' but none was supplied"@,
            ArgsFault::Repeated(arg) => "the argument '"@ + arg
                + "' cannot be used multiple times"@,
            ArgsFault::InvalidPort(value) => "invalid value '"@ + value
                + "' for '--port <PORT>'"@,
            ArgsFault::MissingDevice => "the following required arguments were not provided:\n  --device <DEVICE>"@,
        }
    }
}

/// The usage text of the terminal client.
pub fn usage() -> (text: &'static str)
    ensures
        text@ == usage_text(),
{
    "WebMux CLI - Connect to serial devices through WebMux server\n\nUsage: webmux-cli [OPTIONS] --device <DEVICE>\n\nOptions:\n  -H, --host <HOST>      WebMux server host [default: 127.0.0.1]\n  -p, --port <PORT>      WebMux server port [default: 8080]\n  -d, --device <DEVICE>  Serial device/connection name\n  -s, --tls              Use TLS/WSS connection\n  -h, --help             Print help\n"
}

impl ArgsError {
    /// Renders the error for the user.
    pub fn message(&self) -> (text: String)
        ensures
            text@ == self@.message_text(),
    {
        match self {
            ArgsError::Help => String::from_str(usage()),
            ArgsError::Unknown(arg) => String::from_str("unexpected argument '").concat(
                arg.as_str(),
            ).concat("' found"),
            ArgsError::MissingValue(arg) => String::from_str("a value is required for '").concat(
                arg.as_str(),
            ).concat("' but none was supplied"),
            ArgsError::Repeated(arg) => String::from_str("the argument '").concat(
                arg.as_str(),
            ).concat("' cannot be used multiple times"),
            ArgsError::InvalidPort(value) => String::from_str("invalid value '").concat(
                value.as_str(),
            ).concat("' for '--port <PORT>'"),
            ArgsError::MissingDevice => String::from_str(
                "the following required arguments were not provided:\n  --device <DEVICE>",
            ),
        }
    }
}

/// The options of the program.
#[derive(Debug, Clone, Copy, PartialEq, Eq, Structural)]
pub enum Flag {
    Host,
    Port,
    Device,
    Tls,
    Help,
}

/// What has been read of a command line so far.
pub struct Partial {
    pub host: Option<Seq<char>>,
    pub port: Option<u16>,
    pub device: Option<Seq<char>>,
    pub tls: bool,
}

/// The option that an argument spells, in its long or its short form.
pub open spec fn flag_of(arg: Seq<char>) -> Option<Flag> {
    if arg == "--host"@ || arg == "-H"@ {
        Some(Flag::Host)
    } else if arg == "--port"@ || arg == "-p"@ {
        Some(Flag::Port)
    } else if arg == "--device"@ || arg == "-d"@ {
        Some(Flag::Device)
    } else if arg == "--tls"@ || arg == "-s"@ {
        Some(Flag::Tls)
    } else if arg == "--help"@ || arg == "-h"@ {
        Some(Flag::Help)
    } else {
        None
    }
}

/// An argument that begins with a dash is an option, never a value.
pub open spec fn is_option_like(arg: Seq<char>) -> bool {
    arg.len() > 0 && arg[0] == '-'
}

impl Partial {
    /// Nothing read yet.
    pub open spec fn start() -> Partial {
        Partial { host: None, port: None, device: None, tls: false }
    }

    /// Whether the option has been given already.
    pub open spec fn has(self, flag: Flag) -> bool {
        match flag {
            Flag::Host => self.host is Some,
            Flag::Port => self.port is Some,
            Flag::Device => self.device is Some,
            Flag::Tls => self.tls,
            Flag::Help => false,
        }
    }

    /// The result of a command line that has been read to its end: the
    /// device is required, host and port have defaults.
    pub open spec fn finish(self) -> Result<ArgsView, ArgsFault> {
        match self.device {
            None => Err(ArgsFault::MissingDevice),
            Some(device) => Ok(
                ArgsView {
                    host: match self.host {
                        Some(host) => host,
                        None => default_host(),
                    },
                    port: match self.port {
                        Some(port) => port,
                        None => DEFAULT_PORT,
                    },
                    device,
                    tls: self.tls,
                },
            ),
        }
    }
}

/// Reads the arguments from position `i` on. Each argument must spell an
/// option. `--help` ends the reading. An option may be given once. `--tls`
/// stands alone; every other option takes the next argument as its value,
/// which must be there and must not begin with a dash; the value of
/// `--port` must be a numeral up to 65535.
pub open spec fn scan(args: Seq<Seq<char>>, i: int, seen: Partial) -> Result<Partial, ArgsFault>
    decreases args.len() - i,
{
    if i < 0 || i >= args.len() {
        Ok(seen)
    } else {
        match flag_of(args[i]) {
            None => Err(ArgsFault::Unknown(args[i])),
            Some(Flag::Help) => Err(ArgsFault::Help),
            Some(flag) => if seen.has(flag) {
                Err(ArgsFault::Repeated(args[i]))
            } else if flag == Flag::Tls {
                scan(args, i + 1, Partial { tls: true, ..seen })
            } else if i + 1 >= args.len() || is_option_like(args[i + 1]) {
                Err(ArgsFault::MissingValue(args[i]))
            } else {
                let value = args[i + 1];
                match flag {
                    Flag::Host => scan(args, i + 2, Partial { host: Some(value), ..seen }),
                    Flag::Device => scan(args, i + 2, Partial { device: Some(value), ..seen }),
                    _ => match numeral_value(value, 65535) {
                        Some(port) => scan(args, i + 2, Partial { port: Some(port as u16), ..seen }),
                        None => Err(ArgsFault::InvalidPort(value)),
                    },
                }
            },
        }
    }
}

/// What a command line means. The first argument is the program's own name
/// and is passed over.
pub open spec fn parsed(args: Seq<Seq<char>>) -> Result<ArgsView, ArgsFault> {
    match scan(args, 1, Partial::start()) {
        Ok(seen) => seen.finish(),
        Err(fault) => Err(fault),
    }
}

/// The texts of a list of arguments.
pub open spec fn texts(args: Seq<&str>) -> Seq<Seq<char>> {
    Seq::new(args.len(), |i: int| args[i]@)
}

/// The address of a session's stream endpoint.
pub open spec fn url_text(protocol: Seq<char>, host: Seq<char>, port: u16, device: Seq<char>) -> Seq<
    char,
> {
    protocol + "://"@ + host + ":"@ + decimal_text(port as nat) + "/api/connections/"@ + device
        + "/ws"@
}

/// The scheme of the stream endpoint, with or without TLS.
pub open spec fn protocol_text(tls: bool) -> Seq<char> {
    if tls {
        "wss"@
    } else {
        "ws"@
    }
}

fn spell(arg: &str) -> (flag: Option<Flag>)
    ensures
        flag == flag_of(arg@),
{
    if same_text(arg, "--host") || same_text(arg, "-H") {
        Some(Flag::Host)
    } else if same_text(arg, "--port") || same_text(arg, "-p") {
        Some(Flag::Port)
    } else if same_text(arg, "--device") || same_text(arg, "-d") {
        Some(Flag::Device)
    } else if same_text(arg, "--tls") || same_text(arg, "-s") {
        Some(Flag::Tls)
    } else if same_text(arg, "--help") || same_text(arg, "-h") {
        Some(Flag::Help)
    } else {
        None
    }
}

fn option_like(arg: &str) -> (like: bool)
    ensures
        like == is_option_like(arg@),
{
    arg.unicode_len() > 0 && arg.get_char(0) == '-'
}

impl Args {
    /// Reads a command line. `args[0]` is the program's name; what follows
    /// are options, each at most once: `-H`/`--host <HOST>` (default
    /// `127.0.0.1`), `-p`/`--port <PORT>` (default 8080), `-d`/`--device
    /// <DEVICE>` (required), `-s`/`--tls`, and `-h`/`--help`, which is
    /// reported as [`ArgsError::Help`]. The first fault from the left is the
    /// one reported; a missing device is reported last.
    pub fn try_parse_from(args: &[&str]) -> (result: Result<Args, ArgsError>)
        ensures
            match result {
                Ok(parsed_args) => parsed(texts(args@)) == Ok::<ArgsView, ArgsFault>(parsed_args@),
                Err(error) => parsed(texts(args@)) == Err::<ArgsView, ArgsFault>(error@),
            },
    {
        let ghost all = texts(args@);
        let mut host: Option<String> = None;
        let mut port: Option<u16> = None;
        let mut device: Option<String> = None;
        let mut tls: bool = false;
        let mut i: usize = 1;
        let ghost mut seen = Partial::start();
        while i < args.len()
            invariant
                1 <= i,
                all == texts(args@),
                scan(all, 1, Partial::start()) == scan(all, i as int, seen),
                seen.tls == tls,
                seen.port == port,
                match host {
                    Some(h) => seen.host == Some(h@),
                    None => seen.host is None,
                },
                match device {
                    Some(d) => seen.device == Some(d@),
                    None => seen.device is None,
                },
            decreases args.len() - i,
        {
            let arg: &str = args[i];
            match spell(arg) {
                None => {
                    return Err(ArgsError::Unknown(String::from_str(arg)));
                },
                Some(Flag::Help) => {
                    return Err(ArgsError::Help);
                },
                Some(Flag::Tls) => {
                    if tls {
                        return Err(ArgsError::Repeated(String::from_str(arg)));
                    }
                    tls = true;
                    proof {
                        seen = Partial { tls: true, ..seen };
                    }
                    i += 1;
                },
                Some(flag) => {
                    let given = match flag {
                        Flag::Host => host.is_some(),
                        Flag::Port => port.is_some(),
                        _ => device.is_some(),
                    };
                    if given {
                        return Err(ArgsError::Repeated(String::from_str(arg)));
                    }
                    if i + 1 >= args.len() {
                        return Err(ArgsError::MissingValue(String::from_str(arg)));
                    }
                    let value: &str = args[i + 1];
                    if option_like(value) {
                        return Err(ArgsError::MissingValue(String::from_str(arg)));
                    }
                    match flag {
                        Flag::Host => {
                            host = Some(String::from_str(value));
                            proof {
                                seen = Partial { host: Some(value@), ..seen };
                            }
                        },
                        Flag::Port => {
                            match parse_decimal(value, 65535) {
                                Some(number) => {
                                    port = Some(number as u16);
                                    proof {
                                        seen = Partial { port: Some(number as u16), ..seen };
                                    }
                                },
                                None => {
                                    return Err(ArgsError::InvalidPort(String::from_str(value)));
                                },
                            }
                        },
                        _ => {
                            device = Some(String::from_str(value));
                            proof {
                                seen = Partial { device: Some(value@), ..seen };
                            }
                        },
                    }
                    i += 2;
                },
            }
        }
        match device {
            None => Err(ArgsError::MissingDevice),
            Some(device) => Ok(
                Args {
                    host: match host {
                        Some(host) => host,
                        None => String::from_str("127.0.0.1"),
                    },
                    port: match port {
                        Some(port) => port,
                        None => DEFAULT_PORT,
                    },
                    device,
                    tls,
                },
            ),
        }
    }

    /// The address this command line asks to connect to.
    pub fn websocket_url(&self) -> (url: String)
        ensures
            url@ == url_text(protocol_text(self.tls), self.host@, self.port, self.device@),
    {
        let protocol = if self.tls { "wss" } else { "ws" };
        websocket_url(protocol, self.host.as_str(), self.port, self.device.as_str())
    }
}

/// The address of the stream endpoint of `device` on the server at `host`
/// and `port`: `<protocol>://<host>:<port>/api/connections/<device>/ws`.
pub fn websocket_url(protocol: &str, host: &str, port: u16, device: &str) -> (url: String)
    ensures
        url@ == url_text(protocol@, host@, port, device@),
{
    let mut url = String::from_str(protocol);
    url.append("://");
    url.append(host);
    url.append(":");
    push_decimal(&mut url, port as u64);
    url.append("/api/connections/");
    url.append(device);
    url.append("/ws");
    url
}

/// A command as it is sent to the device: the text, then carriage return
/// and line feed.
pub fn command_with_newline(command: &str) -> (line: String)
    ensures
        line@ == command@ + "\r\n"@,
{
    String::from_str(command).concat("\r\n")
}

/// A key press, as far as the client tells keys apart.
#[derive(Debug, Clone, Copy, PartialEq, Eq, Structural)]
pub enum Key {
    /// Control and `c` together.
    Interrupt,
    Enter,
    Backspace,
    /// A character key.
    Char(char),
    /// Any other key.
    Other,
}

/// What the client does on a key press.
#[derive(Debug, Clone, PartialEq, Eq)]
pub enum KeyAction {
    /// Leave the session.
    Disconnect,
    /// Send this text to the device and start a new line on the screen.
    Send(String),
    /// Wipe the last character off the screen.
    Erase,
    /// Show the character.
    Echo(char),
    /// Nothing to do.
    Nothing,
}

/// The line that is being typed.
#[derive(Debug, Clone)]
pub struct InputBuffer {
    typed: Vec<char>,
}

impl View for InputBuffer {
    type V = Seq<char>;

    closed spec fn view(&self) -> Seq<char> {
        self.typed@
    }
}

/// The line after a key press: a character is added at the end, backspace
/// takes the last one away, enter empties the line.
pub open spec fn line_after(line: Seq<char>, key: Key) -> Seq<char> {
    match key {
        Key::Char(c) => line.push(c),
        Key::Backspace => if line.len() > 0 {
            line.drop_last()
        } else {
            line
        },
        Key::Enter => Seq::empty(),
        _ => line,
    }
}

impl InputBuffer {
    /// An empty line.
    pub fn new() -> (buffer: InputBuffer)
        ensures
            buffer@ == Seq::<char>::empty(),
    {
        InputBuffer { typed: Vec::new() }
    }

    /// Handles one key press. Enter sends the line followed by carriage
    /// return and line feed, also when the line is empty.
    pub fn on_key(&mut self, key: Key) -> (action: KeyAction)
        ensures
            final(self)@ == line_after(old(self)@, key),
            match key {
                Key::Interrupt => action is Disconnect,
                Key::Enter => action matches KeyAction::Send(text) && text@ == old(self)@
                    + "\r\n"@,
                Key::Backspace => if old(self)@.len() > 0 {
                    action is Erase
                } else {
                    action is Nothing
                },
                Key::Char(c) => action == KeyAction::Echo(c),
                Key::Other => action is Nothing,
            },
    {
        match key {
            Key::Interrupt => KeyAction::Disconnect,
            Key::Enter => {
                let mut text = String::new();
                let mut i: usize = 0;
                while i < self.typed.len()
                    invariant
                        i <= self.typed@.len(),
                        self.typed@ == old(self).typed@,
                        text@ == self.typed@.subrange(0, i as int),
                    decreases self.typed@.len() - i,
                {
                    text.push(self.typed[i]);
                    i += 1;
                }
                text.append("\r\n");
                self.typed.clear();
                KeyAction::Send(text)
            },
            Key::Backspace => {
                match self.typed.pop() {
                    Some(_) => KeyAction::Erase,
                    None => KeyAction::Nothing,
                }
            },
            Key::Char(c) => {
                self.typed.push(c);
                KeyAction::Echo(c)
            },
            Key::Other => KeyAction::Nothing,
        }
    }
}

/// What arrives from the server.
#[derive(Debug, Clone, PartialEq, Eq)]
pub enum Incoming {
    Text(String),
    Binary(Vec<u8>),
    Close,
    Other,
}

/// What the client shows for it.
#[derive(Debug, Clone, PartialEq, Eq)]
pub enum Shown {
    /// Print this text.
    Print(String),
    /// Tell the user that the server closed the connection, and leave.
    Closed,
    /// Nothing to show.
    Nothing,
}

/// The string member `key` of the JSON object written in `text`, as
/// `serde_json` reads it; nothing if `text` is no JSON, no object, or has no
/// string under `key`.
pub uninterp spec fn json_string_member(text: Seq<char>, key: Seq<char>) -> Option<Seq<char>>;

/// Reads `text` with `serde_json::from_str` as a `serde_json::Value` and
/// takes the member `key` of it with `Value::get`, as a string with
/// `Value::as_str`.
#[verifier::external_body]
fn json_member(text: &str, key: &str) -> (member: Option<String>)
    ensures
        match member {
            Some(found) => json_string_member(text@, key@) == Some(found@),
            None => json_string_member(text@, key@) is None,
        },
{
    serde_json::from_str::<serde_json::Value>(text).ok()?.get(key)?.as_str().map(str::to_owned)
}

/// What to show for the `data` member that was read from a text frame.
pub fn show_member(member: Option<String>) -> (shown: Shown)
    ensures
        match member {
            Some(data) => shown == Shown::Print(data),
            None => shown is Nothing,
        },
{
    match member {
        Some(data) => Shown::Print(data),
        None => Shown::Nothing,
    }
}

/// What the client shows for a frame from the server. A text frame is
/// read as a JSON object and its `data` string is printed, if it has one. A
/// binary frame is printed as text. A close frame ends the session.
pub fn on_incoming(frame: &Incoming) -> (shown: Shown)
    ensures
        match frame {
            Incoming::Text(text) => match json_string_member(text@, "data"@) {
                Some(data) => shown matches Shown::Print(printed) && printed@ == data,
                None => shown is Nothing,
            },
            Incoming::Binary(bytes) => shown matches Shown::Print(printed) && printed@
                == utf8_lossy_text(bytes@),
            Incoming::Close => shown is Closed,
            Incoming::Other => shown is Nothing,
        },
{
    match frame {
        Incoming::Text(text) => show_member(json_member(text.as_str(), "data")),
        Incoming::Binary(bytes) => Shown::Print(lossy_text(bytes.as_slice())),
        Incoming::Close => Shown::Closed,
        Incoming::Other => Shown::Nothing,
    }
}

} // verus!
