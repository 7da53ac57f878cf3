//! The service configuration: the HTTP endpoint and the list of serial ports,
//! with the checks a configuration must pass before the service starts.

use vstd::prelude::*;
use vstd::string::*;
use crate::text::{decimal_text, push_decimal};

verus! {

/// Number of data bits per character on the serial line.
#[derive(Debug, Clone, Copy, PartialEq, Eq, Structural)]
pub enum DataBits {
    Five,
    Six,
    Seven,
    Eight,
}

/// Number of stop bits per character on the serial line.
#[derive(Debug, Clone, Copy, PartialEq, Eq, Structural)]
pub enum StopBits {
    One,
    Two,
}

/// Parity checking mode. `Off` is written `none` in a configuration file.
#[derive(Debug, Clone, Copy, PartialEq, Eq, Structural)]
pub enum Parity {
    Off,
    Odd,
    Even,
}

/// Flow control mode. `Off` is written `none` in a configuration file.
#[derive(Debug, Clone, Copy, PartialEq, Eq, Structural)]
pub enum FlowControl {
    Off,
    Software,
    Hardware,
}

impl DataBits {
    /// The number of bits this setting stands for.
    pub open spec fn width(self) -> int {
        match self {
            DataBits::Five => 5,
            DataBits::Six => 6,
            DataBits::Seven => 7,
            DataBits::Eight => 8,
        }
    }

    /// The number of data bits, 5 to 8.
    pub fn bits(self) -> (n: u8)
        ensures
            n == self.width(),
    {
        match self {
            DataBits::Five => 5,
            DataBits::Six => 6,
            DataBits::Seven => 7,
            DataBits::Eight => 8,
        }
    }
}

impl StopBits {
    /// The number of bits this setting stands for.
    pub open spec fn width(self) -> int {
        match self {
            StopBits::One => 1,
            StopBits::Two => 2,
        }
    }

    /// The number of stop bits, 1 or 2.
    pub fn bits(self) -> (n: u8)
        ensures
            n == self.width(),
    {
        match self {
            StopBits::One => 1,
            StopBits::Two => 2,
        }
    }
}

/// Where the HTTP endpoint listens.
#[derive(Debug, Clone, PartialEq, Eq)]
pub struct ServerConfig {
    pub host: String,
    pub port: u16,
}

/// Whether and where a port's traffic is recorded.
#[derive(Debug, Clone, PartialEq, Eq)]
pub struct LoggingConfig {
    pub enabled: bool,
    pub path: String,
}

/// The descriptor of one serial port, fixed when its session is created.
#[derive(Debug, Clone, PartialEq, Eq)]
pub struct SerialConnectionConfig {
    pub name: String,
    pub port: String,
    pub baud_rate: u32,
    pub data_bits: DataBits,
    pub stop_bits: StopBits,
    pub parity: Parity,
    pub flow_control: FlowControl,
    pub enabled: bool,
    pub logging: LoggingConfig,
    pub description: String,
}

/// The whole configuration.
#[derive(Debug, Clone, PartialEq, Eq)]
pub struct Config {
    pub server: ServerConfig,
    pub serial_connections: Vec<SerialConnectionConfig>,
}

/// Why a configuration was turned down.
#[derive(Debug, Clone, PartialEq, Eq)]
pub enum ConfigError {
    /// Two ports carry this name.
    DuplicateName(String),
    /// The HTTP port is zero.
    ZeroPort,
}

/// The names of a list of ports, in order.
pub open spec fn connection_names(connections: Seq<SerialConnectionConfig>) -> Seq<Seq<char>> {
    Seq::new(connections.len(), |i: int| connections[i].name@)
}

/// The name at `j` has already occurred before `j`.
pub open spec fn repeats_earlier(names: Seq<Seq<char>>, j: int) -> bool {
    exists|i: int| 0 <= i < j && #[trigger] names[i] == names[j]
}

/// `j` is the first position whose name has occurred before.
pub open spec fn is_first_repeat(names: Seq<Seq<char>>, j: int) -> bool {
    &&& 0 <= j < names.len()
    &&& repeats_earlier(names, j)
    &&& forall|k: int| 0 <= k < j ==> !repeats_earlier(names, k)
}

/// No name occurs twice.
pub open spec fn all_distinct(names: Seq<Seq<char>>) -> bool {
    forall|j: int| 0 <= j < names.len() ==> !repeats_earlier(names, j)
}

impl ConfigError {
    /// The text of the error as shown to the operator.
    pub open spec fn message_text(self) -> Seq<char> {
        match self {
            ConfigError::DuplicateName(name) => "Duplicate connection name: "@ + name@,
            ConfigError::ZeroPort => "Server port must be greater than 0"@,
        }
    }

    /// Renders the error for the operator.
    pub fn message(&self) -> (text: String)
        ensures
            text@ == self.message_text(),
    {
        match self {
            ConfigError::DuplicateName(name) => {
                String::from_str("Duplicate connection name: ").concat(name.as_str())
            },
            ConfigError::ZeroPort => String::from_str("Server port must be greater than 0"),
        }
    }
}

/// The file that holds the configuration when the command line names none.
pub open spec fn default_config_path() -> Seq<char> {
    "config.yaml"@
}

/// The address to listen on: host, colon, port.
pub open spec fn bind_text(host: Seq<char>, port: u16) -> Seq<char> {
    host + ":"@ + decimal_text(port as nat)
}

impl ServerConfig {
    /// The address that the HTTP listener binds to.
    pub fn bind_address(&self) -> (address: String)
        ensures
            address@ == bind_text(self.host@, self.port),
    {
        let mut address = self.host.clone();
        address.append(":");
        push_decimal(&mut address, self.port as u64);
        address
    }
}

/// The configuration file that a command line of the service asks for: its
/// first argument after the program's name, or `config.yaml`.
pub fn config_path(args: &[String]) -> (path: String)
    ensures
        path@ == if args@.len() > 1 {
            args@[1]@
        } else {
            default_config_path()
        },
{
    if args.len() > 1 {
        args[1].clone()
    } else {
        String::from_str("config.yaml")
    }
}

impl Config {
    /// The names of the configured ports, in order.
    pub open spec fn names(self) -> Seq<Seq<char>> {
        connection_names(self.serial_connections@)
    }

    /// Checks the configuration: port names must be unique and the HTTP port
    /// must not be zero. A repeated name is reported before a zero port, and
    /// the name reported is the first one that repeats an earlier entry.
    pub fn validate(&self) -> (result: Result<(), ConfigError>)
        ensures
            match result {
                Ok(()) => all_distinct(self.names()) && self.server.port != 0,
                Err(ConfigError::DuplicateName(name)) => exists|j: int|
                    is_first_repeat(self.names(), j) && name@ == #[trigger] self.names()[j],
                Err(ConfigError::ZeroPort) => all_distinct(self.names()) && self.server.port == 0,
            },
    {
        let n: usize = self.serial_connections.len();
        let mut j: usize = 0;
        while j < n
            invariant
                n == self.serial_connections.len(),
                j <= n,
                forall|k: int| 0 <= k < j ==> !repeats_earlier(self.names(), k),
            decreases n - j,
        {
            let mut i: usize = 0;
            while i < j
                invariant
                    n == self.serial_connections.len(),
                    i <= j < n,
                    forall|k: int| 0 <= k < j ==> !repeats_earlier(self.names(), k),
                    forall|k: int| 0 <= k < i ==> self.names()[k] != self.names()[j as int],
                decreases j - i,
            {
                if self.serial_connections[i].name == self.serial_connections[j].name {
                    assert(self.names()[i as int] == self.names()[j as int]);
                    return Err(ConfigError::DuplicateName(self.serial_connections[j].name.clone()));
                }
                i += 1;
            }
            j += 1;
        }
        if self.server.port == 0 {
            return Err(ConfigError::ZeroPort);
        }
        Ok(())
    }
}

} // verus!
