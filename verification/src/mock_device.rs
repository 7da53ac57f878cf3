//! The device simulator: which device it plays, how it is started, and what
//! it answers to the commands it is sent.

use vstd::prelude::*;
use vstd::string::*;
use crate::text::{
    decimal_text, lossy_text, numeral_value, parse_decimal, push_decimal, same_text,
    utf8_lossy_text,
};

verus! {

/// The devices that the simulator can play.
#[derive(Debug, Clone, Copy, PartialEq, Eq, Structural)]
pub enum DeviceType {
    IoTSensor,
    EmbeddedMcu,
    IndustrialPlc,
}

/// The text in lower case, as `str::to_lowercase` gives it.
pub uninterp spec fn lowercase_text(text: Seq<char>) -> Seq<char>;

/// The text in upper case, as `str::to_uppercase` gives it.
pub uninterp spec fn uppercase_text(text: Seq<char>) -> Seq<char>;

/// A character with the Unicode property `White_Space`.
pub open spec fn is_space(c: char) -> bool {
    let n = c as u32;
    ||| 0x09 <= n <= 0x0d
    ||| n == 0x20
    ||| n == 0x85
    ||| n == 0xa0
    ||| n == 0x1680
    ||| 0x2000 <= n <= 0x200a
    ||| n == 0x2028
    ||| n == 0x2029
    ||| n == 0x202f
    ||| n == 0x205f
    ||| n == 0x3000
}

/// The text without the white space at its start and at its end.
pub open spec fn trimmed_text(text: Seq<char>) -> Seq<char>
    decreases text.len(),
{
    if text.len() > 0 && is_space(text.first()) {
        trimmed_text(text.drop_first())
    } else if text.len() > 0 && is_space(text.last()) {
        trimmed_text(text.drop_last())
    } else {
        text
    }
}

/// `str::to_lowercase` of the standard library.
#[verifier::external_body]
fn to_lowercase(text: &str) -> (lower: String)
    ensures
        lower@ == lowercase_text(text@),
{
    text.to_lowercase()
}

/// `str::to_uppercase` of the standard library.
#[verifier::external_body]
fn to_uppercase(text: &str) -> (upper: String)
    ensures
        upper@ == uppercase_text(text@),
{
    text.to_uppercase()
}

/// `str::trim` of the standard library: the slice without leading and
/// trailing white space.
#[verifier::external_body]
fn trim(text: &str) -> (inner: &str)
    ensures
        inner@ == trimmed_text(text@),
{
    text.trim()
}

/// The device that a name in lower case stands for.
pub open spec fn device_named(lower: Seq<char>) -> Option<DeviceType> {
    if lower == "iot"@ || lower == "sensor"@ {
        Some(DeviceType::IoTSensor)
    } else if lower == "mcu"@ || lower == "embedded"@ {
        Some(DeviceType::EmbeddedMcu)
    } else if lower == "plc"@ || lower == "industrial"@ {
        Some(DeviceType::IndustrialPlc)
    } else {
        None
    }
}

/// The question form of a command: the command with a question mark.
pub open spec fn asks(command: Seq<char>, word: Seq<char>) -> bool {
    command == word || command == word + "?"@
}

/// What the sensor answers to a command in upper case.
pub open spec fn sensor_answer(command: Seq<char>) -> Seq<char> {
    if asks(command, "STATUS"@) {
        "STATUS:OK\n"@
    } else if asks(command, "VERSION"@) {
        "VERSION:1.0.0\n"@
    } else if asks(command, "ID"@) {
        "ID:IOT-SENSOR-001\n"@
    } else if asks(command, "HELP"@) {
        "COMMANDS: STATUS, VERSION, ID, TEMP, HUMIDITY, HELP\n"@
    } else if asks(command, "TEMP"@) {
        "TEMP:23.45\n"@
    } else if asks(command, "HUMIDITY"@) {
        "HUMIDITY:58.2\n"@
    } else {
        "ERROR:UNKNOWN_COMMAND:"@ + command + "\n"@
    }
}

/// What the microcontroller answers to a command in upper case.
pub open spec fn mcu_answer(command: Seq<char>) -> Seq<char> {
    if asks(command, "STATUS"@) {
        "OK\n"@
    } else if asks(command, "VERSION"@) {
        "MCU v2.1.0\n"@
    } else if asks(command, "ID"@) {
        "ARDUINO-MEGA-2560\n"@
    } else if asks(command, "HELP"@) {
        "AVAILABLE: STATUS, VERSION, ID, READ, RESET, HELP\n"@
    } else if asks(command, "READ"@) {
        "ADC0:512,ADC1:768,ADC2:256\n"@
    } else if command == "RESET"@ {
        "RESETTING...\nOK\n"@
    } else {
        "ERR:"@ + command + "\n"@
    }
}

/// What the controller answers to a command in upper case.
pub open spec fn plc_answer(command: Seq<char>) -> Seq<char> {
    if asks(command, "STATUS"@) {
        "PLC:RUNNING,MODE:AUTO\n"@
    } else if asks(command, "VERSION"@) {
        "PLC-5000 v3.2.1\n"@
    } else if asks(command, "ID"@) {
        "PLC-5000-SN:98765\n"@
    } else if asks(command, "HELP"@) {
        "COMMANDS: STATUS, VERSION, ID, PRESSURE, STOP, START, HELP\n"@
    } else if asks(command, "PRESSURE"@) {
        "PRESSURE:105.3 PSI\n"@
    } else if command == "STOP"@ {
        "SYSTEM:STOPPED\n"@
    } else if command == "START"@ {
        "SYSTEM:STARTED\n"@
    } else {
        "ERR:INVALID_CMD:"@ + command + "\n"@
    }
}

impl DeviceType {
    /// What this device answers to a command in upper case.
    pub open spec fn answer(self, command: Seq<char>) -> Seq<char> {
        match self {
            DeviceType::IoTSensor => sensor_answer(command),
            DeviceType::EmbeddedMcu => mcu_answer(command),
            DeviceType::IndustrialPlc => plc_answer(command),
        }
    }

    /// What this device answers to a line as it was received: the line is
    /// trimmed and put in upper case first.
    pub open spec fn response(self, line: Seq<char>) -> Seq<char> {
        self.answer(uppercase_text(trimmed_text(line)))
    }

    /// The name of the device as shown to the user.
    pub open spec fn name_text(self) -> Seq<char> {
        match self {
            DeviceType::IoTSensor => "IoT Sensor"@,
            DeviceType::EmbeddedMcu => "Embedded MCU"@,
            DeviceType::IndustrialPlc => "Industrial PLC"@,
        }
    }

    /// The line speed that the device uses unless told otherwise.
    pub open spec fn default_baud(self) -> u32 {
        match self {
            DeviceType::IoTSensor => 115200,
            DeviceType::EmbeddedMcu => 9600,
            DeviceType::IndustrialPlc => 19200,
        }
    }

    /// The device that `s` names, in any mix of cases: `iot` or `sensor`,
    /// `mcu` or `embedded`, `plc` or `industrial`.
    pub fn from_str(s: &str) -> (device: Option<DeviceType>)
        ensures
            device == device_named(lowercase_text(s@)),
    {
        let lower = to_lowercase(s);
        DeviceType::from_lowercase(lower.as_str())
    }

    /// The device that a name in lower case stands for.
    pub fn from_lowercase(lower: &str) -> (device: Option<DeviceType>)
        ensures
            device == device_named(lower@),
    {
        if same_text(lower, "iot") || same_text(lower, "sensor") {
            Some(DeviceType::IoTSensor)
        } else if same_text(lower, "mcu") || same_text(lower, "embedded") {
            Some(DeviceType::EmbeddedMcu)
        } else if same_text(lower, "plc") || same_text(lower, "industrial") {
            Some(DeviceType::IndustrialPlc)
        } else {
            None
        }
    }

    /// The name of the device as shown to the user.
    pub fn name(&self) -> (name: &'static str)
        ensures
            name@ == self.name_text(),
    {
        match self {
            DeviceType::IoTSensor => "IoT Sensor",
            DeviceType::EmbeddedMcu => "Embedded MCU",
            DeviceType::IndustrialPlc => "Industrial PLC",
        }
    }

    /// The line speed that the device uses unless told otherwise.
    pub fn default_baud_rate(&self) -> (baud: u32)
        ensures
            baud == self.default_baud(),
    {
        match self {
            DeviceType::IoTSensor => 115200,
            DeviceType::EmbeddedMcu => 9600,
            DeviceType::IndustrialPlc => 19200,
        }
    }

    /// The device's answer to one command line. White space around the
    /// command and the case of its letters do not matter. A command that the
    /// device does not know is answered with an error that repeats it.
    pub fn process_command(&self, command: &str) -> (response: String)
        ensures
            response@ == self.response(command@),
    {
        let upper = to_uppercase(trim(command));
        self.answer_to(upper.as_str())
    }

    /// The device's answer to a command that is already trimmed and in
    /// upper case.
    pub fn answer_to(&self, cmd: &str) -> (response: String)
        ensures
            response@ == self.answer(cmd@),
    {
        match self {
            DeviceType::IoTSensor => {
                if is_asked(cmd, "STATUS") {
                    String::from_str("STATUS:OK\n")
                } else if is_asked(cmd, "VERSION") {
                    String::from_str("VERSION:1.0.0\n")
                } else if is_asked(cmd, "ID") {
                    String::from_str("ID:IOT-SENSOR-001\n")
                } else if is_asked(cmd, "HELP") {
                    String::from_str("COMMANDS: STATUS, VERSION, ID, TEMP, HUMIDITY, HELP\n")
                } else if is_asked(cmd, "TEMP") {
                    String::from_str("TEMP:23.45\n")
                } else if is_asked(cmd, "HUMIDITY") {
                    String::from_str("HUMIDITY:58.2\n")
                } else {
                    String::from_str("ERROR:UNKNOWN_COMMAND:").concat(cmd).concat("\n")
                }
            },
            DeviceType::EmbeddedMcu => {
                if is_asked(cmd, "STATUS") {
                    String::from_str("OK\n")
                } else if is_asked(cmd, "VERSION") {
                    String::from_str("MCU v2.1.0\n")
                } else if is_asked(cmd, "ID") {
                    String::from_str("ARDUINO-MEGA-2560\n")
                } else if is_asked(cmd, "HELP") {
                    String::from_str("AVAILABLE: STATUS, VERSION, ID, READ, RESET, HELP\n")
                } else if is_asked(cmd, "READ") {
                    String::from_str("ADC0:512,ADC1:768,ADC2:256\n")
                } else if same_text(cmd, "RESET") {
                    String::from_str("RESETTING...\nOK\n")
                } else {
                    String::from_str("ERR:").concat(cmd).concat("\n")
                }
            },
            DeviceType::IndustrialPlc => {
                if is_asked(cmd, "STATUS") {
                    String::from_str("PLC:RUNNING,MODE:AUTO\n")
                } else if is_asked(cmd, "VERSION") {
                    String::from_str("PLC-5000 v3.2.1\n")
                } else if is_asked(cmd, "ID") {
                    String::from_str("PLC-5000-SN:98765\n")
                } else if is_asked(cmd, "HELP") {
                    String::from_str("COMMANDS: STATUS, VERSION, ID, PRESSURE, STOP, START, HELP\n")
                } else if is_asked(cmd, "PRESSURE") {
                    String::from_str("PRESSURE:105.3 PSI\n")
                } else if same_text(cmd, "STOP") {
                    String::from_str("SYSTEM:STOPPED\n")
                } else if same_text(cmd, "START") {
                    String::from_str("SYSTEM:STARTED\n")
                } else {
                    String::from_str("ERR:INVALID_CMD:").concat(cmd).concat("\n")
                }
            },
        }
    }
}

/// How the controller reports its state in cycle `count`: out of every ten
/// cycles, the last two carry a warning.
pub open spec fn cycle_status_text(count: u32) -> Seq<char> {
    if count % 10 < 8 {
        "OK"@
    } else {
        "WARN"@
    }
}

/// The state that the controller reports in cycle `count`.
pub fn cycle_status(count: u32) -> (status: &'static str)
    ensures
        status@ == cycle_status_text(count),
{
    if count % 10 < 8 {
        "OK"
    } else {
        "WARN"
    }
}

/// The telemetry line of the microcontroller.
pub open spec fn mcu_telemetry_text(adc: u16, count: u32) -> Seq<char> {
    "ADC:"@ + decimal_text(adc as nat) + ",COUNT:"@ + decimal_text(count as nat) + "\n"@
}

/// The telemetry line of the microcontroller for an analog reading and a
/// message count.
pub fn mcu_telemetry(adc: u16, count: u32) -> (line: String)
    ensures
        line@ == mcu_telemetry_text(adc, count),
{
    let mut line = String::from_str("ADC:");
    push_decimal(&mut line, adc as u64);
    line.append(",COUNT:");
    push_decimal(&mut line, count as u64);
    line.append("\n");
    line
}

/// A command that the device received, and its answer.
#[derive(Debug, Clone, PartialEq, Eq)]
pub struct Exchange {
    /// The command without the white space around it.
    pub command: String,
    /// What the device answers.
    pub response: String,
}

/// The model of an [`Exchange`].
pub struct ExchangeView {
    pub command: Seq<char>,
    pub response: Seq<char>,
}

impl View for Exchange {
    type V = ExchangeView;

    open spec fn view(&self) -> ExchangeView {
        ExchangeView { command: self.command@, response: self.response@ }
    }
}

/// The models of a list of exchanges.
pub open spec fn exchange_views(exchanges: Seq<Exchange>) -> Seq<ExchangeView> {
    Seq::new(exchanges.len(), |i: int| exchanges[i]@)
}

impl DeviceType {
    /// The exchange that one received line gives rise to: none for a blank
    /// line.
    pub open spec fn exchange_for(self, line: Seq<char>) -> Seq<ExchangeView> {
        if trimmed_text(line).len() > 0 {
            seq![ExchangeView { command: trimmed_text(line), response: self.response(line) }]
        } else {
            Seq::empty()
        }
    }

    /// The exchanges that received text gives rise to, read character by
    /// character: `line` is what has been read of the current line, and a
    /// line feed ends a line.
    pub open spec fn exchanges_from(self, text: Seq<char>, line: Seq<char>) -> Seq<ExchangeView>
        decreases text.len(),
    {
        if text.len() == 0 {
            self.exchange_for(line)
        } else if text[0] == '\n' {
            self.exchange_for(line) + self.exchanges_from(text.drop_first(), Seq::empty())
        } else {
            self.exchanges_from(text.drop_first(), line.push(text[0]))
        }
    }

    fn exchange(&self, line: &str, exchanges: &mut Vec<Exchange>)
        ensures
            exchange_views(final(exchanges)@) == exchange_views(old(exchanges)@)
                + self.exchange_for(line@),
    {
        let command = trim(line);
        if command.unicode_len() > 0 {
            let upper = to_uppercase(command);
            let response = self.answer_to(upper.as_str());
            let ghost before = exchanges@;
            exchanges.push(Exchange { command: String::from_str(command), response });
            assert(exchange_views(exchanges@) =~= exchange_views(before) + self.exchange_for(
                line@,
            ));
        }
    }

    /// Answers everything in a block of received bytes. The bytes are read
    /// as text, ill-formed parts and all; every line of it that is not blank
    /// is a command, and the commands are answered in order.
    pub fn answers(&self, received: &[u8]) -> (exchanges: Vec<Exchange>)
        ensures
            exchange_views(exchanges@) == self.exchanges_from(
                utf8_lossy_text(received@),
                Seq::empty(),
            ),
    {
        let text = lossy_text(received);
        self.answers_to_text(text.as_str())
    }

    /// Answers every line of a text that is not blank, in order.
    pub fn answers_to_text(&self, text: &str) -> (exchanges: Vec<Exchange>)
        ensures
            exchange_views(exchanges@) == self.exchanges_from(text@, Seq::empty()),
    {
        let n: usize = text.unicode_len();
        let mut exchanges: Vec<Exchange> = Vec::new();
        let mut start: usize = 0;
        let mut i: usize = 0;
        assert(text@.skip(0) =~= text@);
        assert(text@.subrange(0, 0) =~= Seq::<char>::empty());
        assert(exchange_views(exchanges@) =~= Seq::<ExchangeView>::empty());
        while i < n
            invariant
                start <= i <= n,
                n == text@.len(),
                self.exchanges_from(text@, Seq::empty()) == exchange_views(exchanges@)
                    + self.exchanges_from(
                    text@.skip(i as int),
                    text@.subrange(start as int, i as int),
                ),
            decreases n - i,
        {
            let c: char = text.get_char(i);
            let ghost rest = text@.skip(i as int);
            let ghost line = text@.subrange(start as int, i as int);
            proof {
                assert(rest[0] == c);
                assert(rest.drop_first() =~= text@.skip(i + 1));
            }
            if c == '\n' {
                let ghost before = exchange_views(exchanges@);
                self.exchange(text.substring_char(start, i), &mut exchanges);
                proof {
                    assert(text@.subrange(i + 1, i + 1) =~= Seq::<char>::empty());
                    assert(before + (self.exchange_for(line) + self.exchanges_from(
                        text@.skip(i + 1),
                        Seq::empty(),
                    )) =~= (before + self.exchange_for(line)) + self.exchanges_from(
                        text@.skip(i + 1),
                        Seq::empty(),
                    ));
                }
                start = i + 1;
            } else {
                proof {
                    assert(line.push(c) =~= text@.subrange(start as int, i + 1));
                }
            }
            i += 1;
        }
        self.exchange(text.substring_char(start, n), &mut exchanges);
        exchanges
    }
}

fn is_asked(command: &str, word: &str) -> (asked: bool)
    ensures
        asked == asks(command@, word@),
{
    if same_text(command, word) {
        return true;
    }
    let question = String::from_str(word).concat("?");
    same_text(command, question.as_str())
}

/// How the simulator is to run.
#[derive(Debug, Clone, PartialEq, Eq)]
pub struct Options {
    /// Serial port path
    pub port_name: String,
    pub device_type: DeviceType,
    pub baud_rate: u32,
    /// Seconds between two telemetry messages
    pub telemetry_interval: u64,
    pub echo_mode: bool,
    pub verbose: bool,
}

/// What a command line of the simulator asks for.
#[derive(Debug, Clone, PartialEq, Eq)]
pub enum Startup {
    /// Show the usage text and leave.
    Usage,
    /// This is no device type: report it and fail.
    InvalidDevice(String),
    /// Run with these options.
    Run(Options),
}

/// The settings that options can change.
pub struct Settings {
    pub baud_rate: u32,
    pub telemetry_interval: u64,
    pub echo_mode: bool,
    pub verbose: bool,
}

/// Some argument asks for help.
pub open spec fn wants_help(args: Seq<Seq<char>>) -> bool {
    exists|i: int| 0 <= i < args.len() && (#[trigger] args[i] == "--help"@ || args[i] == "-h"@)
}

/// The number that an option value stands for, or `fallback` if it is no
/// numeral of at most `max`.
pub open spec fn number_or(value: Seq<char>, max: nat, fallback: nat) -> nat {
    match numeral_value(value, max) {
        Some(n) => n,
        None => fallback,
    }
}

/// Reads the options from position `i` on. `--baud` and `--telemetry` take
/// the next argument as their value, if there is one, and keep the old
/// setting if it is no number; `--echo` and `--verbose` switch on; anything
/// else is passed over.
pub open spec fn settings_from(args: Seq<Seq<char>>, i: int, current: Settings) -> Settings
    decreases args.len() - i,
{
    if i < 0 || i >= args.len() {
        current
    } else if args[i] == "--baud"@ {
        if i + 1 < args.len() {
            settings_from(
                args,
                i + 2,
                Settings {
                    baud_rate: number_or(
                        args[i + 1],
                        u32::MAX as nat,
                        current.baud_rate as nat,
                    ) as u32,
                    ..current
                },
            )
        } else {
            settings_from(args, i + 1, current)
        }
    } else if args[i] == "--telemetry"@ {
        if i + 1 < args.len() {
            settings_from(
                args,
                i + 2,
                Settings {
                    telemetry_interval: number_or(
                        args[i + 1],
                        u64::MAX as nat,
                        current.telemetry_interval as nat,
                    ) as u64,
                    ..current
                },
            )
        } else {
            settings_from(args, i + 1, current)
        }
    } else if args[i] == "--echo"@ {
        settings_from(args, i + 1, Settings { echo_mode: true, ..current })
    } else if args[i] == "--verbose"@ {
        settings_from(args, i + 1, Settings { verbose: true, ..current })
    } else {
        settings_from(args, i + 1, current)
    }
}

/// The settings of a device before any option is read.
pub open spec fn default_settings(device: DeviceType) -> Settings {
    Settings {
        baud_rate: device.default_baud(),
        telemetry_interval: 5,
        echo_mode: false,
        verbose: false,
    }
}

/// The texts of a list of arguments.
pub open spec fn texts(args: Seq<String>) -> Seq<Seq<char>> {
    Seq::new(args.len(), |i: int| args[i]@)
}

fn help_wanted(args: &[String]) -> (wanted: bool)
    ensures
        wanted == wants_help(texts(args@)),
{
    let mut i: usize = 0;
    while i < args.len()
        invariant
            i <= args@.len(),
            forall|k: int|
                0 <= k < i ==> !(#[trigger] texts(args@)[k] == "--help"@ || texts(args@)[k]
                    == "-h"@),
        decreases args@.len() - i,
    {
        if same_text(args[i].as_str(), "--help") || same_text(args[i].as_str(), "-h") {
            assert(texts(args@)[i as int] == args@[i as int]@);
            return true;
        }
        assert(texts(args@)[i as int] == args@[i as int]@);
        i += 1;
    }
    false
}

/// Reads the simulator's command line: the program's name, the port, the
/// device type, then options. With fewer than two arguments after the name,
/// or with `--help` or `-h` anywhere, usage is asked for.
pub fn parse_options(args: &[String]) -> (startup: Startup)
    ensures
        match startup {
            Startup::Usage => args@.len() < 3 || wants_help(texts(args@)),
            Startup::InvalidDevice(given) => {
                &&& args@.len() >= 3 && !wants_help(texts(args@))
                &&& device_named(lowercase_text(args@[2]@)) is None
                &&& given@ == args@[2]@
            },
            Startup::Run(options) => {
                &&& args@.len() >= 3 && !wants_help(texts(args@))
                &&& device_named(lowercase_text(args@[2]@)) == Some(options.device_type)
                &&& options.port_name@ == args@[1]@
                &&& Settings {
                    baud_rate: options.baud_rate,
                    telemetry_interval: options.telemetry_interval,
                    echo_mode: options.echo_mode,
                    verbose: options.verbose,
                } == settings_from(texts(args@), 3, default_settings(options.device_type))
            },
        },
{
    if args.len() < 3 || help_wanted(args) {
        return Startup::Usage;
    }
    let device_type = match DeviceType::from_str(args[2].as_str()) {
        Some(device_type) => device_type,
        None => {
            return Startup::InvalidDevice(args[2].clone());
        },
    };
    let ghost all = texts(args@);
    let mut baud_rate: u32 = device_type.default_baud_rate();
    let mut telemetry_interval: u64 = 5;
    let mut echo_mode: bool = false;
    let mut verbose: bool = false;
    let mut i: usize = 3;
    while i < args.len()
        invariant
            3 <= i,
            all == texts(args@),
            settings_from(all, 3, default_settings(device_type)) == settings_from(
                all,
                i as int,
                Settings { baud_rate, telemetry_interval, echo_mode, verbose },
            ),
        decreases args@.len() - i,
    {
        let arg: &str = args[i].as_str();
        assert(all[i as int] == arg@);
        if same_text(arg, "--baud") {
            if i + 1 < args.len() {
                assert(all[i + 1] == args@[i + 1]@);
                match parse_decimal(args[i + 1].as_str(), 0xffff_ffff) {
                    Some(n) => {
                        baud_rate = n as u32;
                    },
                    None => {},
                }
                i += 2;
            } else {
                i += 1;
            }
        } else if same_text(arg, "--telemetry") {
            if i + 1 < args.len() {
                assert(all[i + 1] == args@[i + 1]@);
                match parse_decimal(args[i + 1].as_str(), 0xffff_ffff_ffff_ffff) {
                    Some(n) => {
                        telemetry_interval = n;
                    },
                    None => {},
                }
                i += 2;
            } else {
                i += 1;
            }
        } else if same_text(arg, "--echo") {
            echo_mode = true;
            i += 1;
        } else if same_text(arg, "--verbose") {
            verbose = true;
            i += 1;
        } else {
            i += 1;
        }
    }
    Startup::Run(
        Options {
            port_name: args[1].clone(),
            device_type,
            baud_rate,
            telemetry_interval,
            echo_mode,
            verbose,
        },
    )
}

} // verus!
