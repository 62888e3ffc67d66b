//! The benchmark's configuration and the command line it is read from.

use crate::decimal::{decimal_value, decimal_within, parse_decimal};
use vstd::prelude::*;
use vstd::string::*;

verus! {

/// Port used when the command line names none.
pub const DEFAULT_PORT: u16 = 19100;

/// Number of rounds, or of frames in the burst, when the command line names
/// none.
pub const DEFAULT_ITERATIONS: usize = 200;

/// Payload size in bytes when the command line names none.
pub const DEFAULT_PAYLOAD_SIZE: usize = 256;

/// Room in the receive buffer beyond the payload size.
pub const RECEIVE_SLACK: usize = 4096;

/// What a run measures.
#[derive(Clone, Copy, Debug, PartialEq, Eq, Structural)]
pub enum Mode {
    /// Round-trip latency: every frame is answered before the next is sent.
    Rtt,
    /// One-way throughput: a burst of frames, answered once at its end.
    Throughput,
}

/// Why a command line or a set of values is no configuration.
#[derive(Clone, Copy, Debug, PartialEq, Eq, Structural)]
pub enum ConfigError {
    /// The port is no decimal number of at most 65535.
    InvalidPort,
    /// The iteration count is no decimal number that fits the machine word.
    InvalidIterations,
    /// The payload size is no decimal number that fits the machine word.
    InvalidPayloadSize,
    /// The mode is neither `rtt` nor `throughput`.
    InvalidMode,
    /// The iteration count or the payload size is zero.
    NotPositive,
}

/// The mode that a name stands for.
pub open spec fn mode_named(name: Seq<char>) -> Option<Mode> {
    if name == "rtt"@ {
        Some(Mode::Rtt)
    } else if name == "throughput"@ {
        Some(Mode::Throughput)
    } else {
        None
    }
}

impl Mode {
    /// The name of the mode on the command line and in reports.
    pub open spec fn spec_name(self) -> Seq<char> {
        match self {
            Mode::Rtt => "rtt"@,
            Mode::Throughput => "throughput"@,
        }
    }

    /// The name of the mode on the command line and in reports.
    pub fn name(self) -> (r: &'static str)
        ensures
            r@ == self.spec_name(),
    {
        match self {
            Mode::Rtt => "rtt",
            Mode::Throughput => "throughput",
        }
    }

    /// The mode that a name stands for: `rtt` or `throughput`, exactly so
    /// written.
    pub fn from_name(name: &str) -> (r: Option<Mode>)
        ensures
            r == mode_named(name@),
    {
        let owned = name.to_owned();
        if owned == "rtt".to_owned() {
            Some(Mode::Rtt)
        } else if owned == "throughput".to_owned() {
            Some(Mode::Throughput)
        } else {
            None
        }
    }
}

/// Each mode is the one that its name stands for.
pub proof fn lemma_mode_named(mode: Mode)
    ensures
        mode_named(mode.spec_name()) == Some(mode),
{
    reveal_strlit("rtt");
    reveal_strlit("throughput");
    assert("rtt"@.len() != "throughput"@.len());
}

/// A configuration as plain values.
pub struct ConfigModel {
    pub host: Seq<char>,
    pub port: u16,
    pub mode: Mode,
    pub iterations: nat,
    pub payload_size: nat,
}

impl ConfigModel {
    /// The iteration count and the payload size are positive.
    pub open spec fn valid(self) -> bool {
        self.iterations > 0 && self.payload_size > 0
    }
}

/// A validated configuration: the iteration count and the payload size are
/// positive. It does not change once made.
#[derive(Debug)]
pub struct BenchmarkConfig {
    host: String,
    port: u16,
    mode: Mode,
    iterations: usize,
    payload_size: usize,
}

impl View for BenchmarkConfig {
    type V = ConfigModel;

    closed spec fn view(&self) -> ConfigModel {
        ConfigModel {
            host: self.host@,
            port: self.port,
            mode: self.mode,
            iterations: self.iterations as nat,
            payload_size: self.payload_size as nat,
        }
    }
}

impl BenchmarkConfig {
    #[verifier::type_invariant]
    spec fn positive(&self) -> bool {
        self.iterations > 0 && self.payload_size > 0
    }

    /// Makes a configuration; fails where a count is zero.
    pub fn new(
        host: String,
        port: u16,
        mode: Mode,
        iterations: usize,
        payload_size: usize,
    ) -> (r: Result<BenchmarkConfig, ConfigError>)
        ensures
            match r {
                Ok(config) => {
                    &&& config@.valid()
                    &&& config@ == (ConfigModel {
                        host: host@,
                        port,
                        mode,
                        iterations: iterations as nat,
                        payload_size: payload_size as nat,
                    })
                },
                Err(e) => e == ConfigError::NotPositive && (iterations == 0 || payload_size == 0),
            },
    {
        if iterations == 0 || payload_size == 0 {
            return Err(ConfigError::NotPositive);
        }
        Ok(BenchmarkConfig { host, port, mode, iterations, payload_size })
    }

    /// The host to connect or bind to.
    pub fn host(&self) -> (r: &str)
        ensures
            r@ == self@.host,
    {
        self.host.as_str()
    }

    /// The port to connect or bind to.
    pub fn port(&self) -> (r: u16)
        ensures
            r == self@.port,
    {
        self.port
    }

    /// What the run measures.
    pub fn mode(&self) -> (r: Mode)
        ensures
            r == self@.mode,
    {
        self.mode
    }

    /// Number of rounds, or of frames in the burst. Never zero.
    pub fn iterations(&self) -> (r: usize)
        ensures
            r == self@.iterations,
            r > 0,
    {
        proof {
            use_type_invariant(self);
        }
        self.iterations
    }

    /// Payload size in bytes. Never zero.
    pub fn payload_size(&self) -> (r: usize)
        ensures
            r == self@.payload_size,
            r > 0,
    {
        proof {
            use_type_invariant(self);
        }
        self.payload_size
    }

    /// Length of a buffer that takes any frame of the run in one receive:
    /// the payload size and `RECEIVE_SLACK` bytes more. `None` where that
    /// exceeds the machine word.
    pub fn receive_buffer_len(&self) -> (r: Option<usize>)
        ensures
            match r {
                Some(len) => len == self@.payload_size + RECEIVE_SLACK,
                None => self@.payload_size + RECEIVE_SLACK > usize::MAX,
            },
    {
        self.payload_size.checked_add(RECEIVE_SLACK)
    }
}

/// The number at position `i` of a command line: the default where the
/// command line is shorter, nothing where the text there is no decimal
/// number of at most `max`.
pub open spec fn number_at(args: Seq<String>, i: int, default: nat, max: nat) -> Option<nat> {
    if i < args.len() {
        decimal_within(args[i]@, max)
    } else {
        Some(default)
    }
}

/// What a command line configures. Position 0 holds the program's name,
/// then follow host, port, mode, iteration count and payload size, each
/// with a default. Of several faults the one reported is the first in this
/// order: port, iteration count, payload size, mode, a count of zero.
pub open spec fn parsed_args(args: Seq<String>) -> Result<ConfigModel, ConfigError> {
    let host = if 1 < args.len() {
        args[1]@
    } else {
        "127.0.0.1"@
    };
    let port = number_at(args, 2, DEFAULT_PORT as nat, u16::MAX as nat);
    let mode = if 3 < args.len() {
        mode_named(args[3]@)
    } else {
        Some(Mode::Rtt)
    };
    let iterations = number_at(args, 4, DEFAULT_ITERATIONS as nat, usize::MAX as nat);
    let payload_size = number_at(args, 5, DEFAULT_PAYLOAD_SIZE as nat, usize::MAX as nat);
    if port is None {
        Err(ConfigError::InvalidPort)
    } else if iterations is None {
        Err(ConfigError::InvalidIterations)
    } else if payload_size is None {
        Err(ConfigError::InvalidPayloadSize)
    } else if mode is None {
        Err(ConfigError::InvalidMode)
    } else if iterations->0 == 0 || payload_size->0 == 0 {
        Err(ConfigError::NotPositive)
    } else {
        Ok(
            ConfigModel {
                host,
                port: port->0 as u16,
                mode: mode->0,
                iterations: iterations->0,
                payload_size: payload_size->0,
            },
        )
    }
}

/// What a command line configures is valid, and is what the command line
/// says: each value is the one written at its position, or the default
/// where the command line ends before it.
pub proof fn lemma_parsed_args_accepted(args: Seq<String>)
    requires
        parsed_args(args) is Ok,
    ensures
        parsed_args(args)->Ok_0.valid(),
        parsed_args(args)->Ok_0.iterations <= usize::MAX,
        parsed_args(args)->Ok_0.payload_size <= usize::MAX,
        2 < args.len() ==> decimal_value(args[2]@) == Some(parsed_args(args)->Ok_0.port as nat),
        3 < args.len() ==> mode_named(args[3]@) == Some(parsed_args(args)->Ok_0.mode),
        4 < args.len() ==> decimal_value(args[4]@) == Some(parsed_args(args)->Ok_0.iterations),
        5 < args.len() ==> decimal_value(args[5]@) == Some(parsed_args(args)->Ok_0.payload_size),
{
}

/// A command line is refused where its port, its iteration count or its
/// payload size is no decimal number, where its port is above 65535, where
/// its mode is none of the two, and where a count is zero.
pub proof fn lemma_parsed_args_refused(args: Seq<String>)
    ensures
        2 < args.len() && decimal_value(args[2]@) is None ==> parsed_args(args) is Err,
        2 < args.len() && decimal_value(args[2]@) is Some && decimal_value(args[2]@)->0
            > u16::MAX ==> parsed_args(args) is Err,
        3 < args.len() && mode_named(args[3]@) is None ==> parsed_args(args) is Err,
        4 < args.len() && decimal_value(args[4]@) is None ==> parsed_args(args) is Err,
        5 < args.len() && decimal_value(args[5]@) is None ==> parsed_args(args) is Err,
        4 < args.len() && decimal_value(args[4]@) == Some(0nat) ==> parsed_args(args) is Err,
        5 < args.len() && decimal_value(args[5]@) == Some(0nat) ==> parsed_args(args) is Err,
{
}

/// Reads the number at position `i` of a command line.
fn number_arg(args: &[String], i: usize, default: u64, max: u64) -> (r: Option<u64>)
    requires
        default <= max,
    ensures
        match r {
            Some(v) => number_at(args@, i as int, default as nat, max as nat) == Some(v as nat),
            None => number_at(args@, i as int, default as nat, max as nat) is None,
        },
        r matches Some(v) ==> v <= max,
{
    if i < args.len() {
        parse_decimal(args[i].as_str(), max)
    } else {
        Some(default)
    }
}

/// Reads a configuration from a command line, program name first.
pub fn parse_args(args: &[String]) -> (r: Result<BenchmarkConfig, ConfigError>)
    ensures
        match r {
            Ok(config) => parsed_args(args@) == Ok::<ConfigModel, ConfigError>(config@)
                && config@.valid(),
            Err(e) => parsed_args(args@) == Err::<ConfigModel, ConfigError>(e),
        },
{
    let host = if 1 < args.len() {
        args[1].clone()
    } else {
        "127.0.0.1".to_owned()
    };
    let port = match number_arg(args, 2, DEFAULT_PORT as u64, u16::MAX as u64) {
        Some(v) => v as u16,
        None => {
            return Err(ConfigError::InvalidPort);
        },
    };
    let mode = if 3 < args.len() {
        Mode::from_name(args[3].as_str())
    } else {
        Some(Mode::Rtt)
    };
    let iterations = match number_arg(args, 4, DEFAULT_ITERATIONS as u64, usize::MAX as u64) {
        Some(v) => v as usize,
        None => {
            return Err(ConfigError::InvalidIterations);
        },
    };
    let payload_size = match number_arg(args, 5, DEFAULT_PAYLOAD_SIZE as u64, usize::MAX as u64) {
        Some(v) => v as usize,
        None => {
            return Err(ConfigError::InvalidPayloadSize);
        },
    };
    let mode = match mode {
        Some(m) => m,
        None => {
            return Err(ConfigError::InvalidMode);
        },
    };
    BenchmarkConfig::new(host, port, mode, iterations, payload_size)
}

} // verus!
