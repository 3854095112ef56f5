//! Settings records for the telemetry subsystem: logging output, format,
//! verbosity and redaction keys, the server address, and the profiler
//! toggle. All records are immutable after construction; the validating
//! constructor enforces the redaction-key invariant.

use vstd::prelude::*;
use crate::level::{Level, ValidationError};
use crate::strutil::{dec_str, str_eq, u64_to_dec};
use vstd::string::StrSliceExecFns;
use vstd::string::StringExecFns;

verus! {

/// Log output destination.
#[derive(Clone, Debug)]
pub enum LogOutput {
    /// Write log to terminal.
    Terminal,
    /// Write log to file with the specified path.
    ///
    /// File will be created if it doesn't exist and overwritten otherwise.
    File(String),
}

impl Default for LogOutput {
    /// Defaults to a log file `./proxy.log`.
    fn default() -> (r: Self)
        ensures
            r matches LogOutput::File(p) && p@ == "./proxy.log"@,
    {
        LogOutput::File("./proxy.log".to_owned())
    }
}

/// Format of the log output.
#[derive(Clone, Copy, Debug, PartialEq, Eq, Structural)]
pub enum LogFormat {
    /// Plain text
    Text,
    /// JSON
    Json,
}

impl Default for LogFormat {
    /// Defaults to plain text.
    fn default() -> (r: Self)
        ensures
            r == LogFormat::Text,
    {
        LogFormat::Text
    }
}

/// Verbosity level of the log: only records at least as severe as the
/// wrapped level are emitted.
#[derive(Clone, Copy, Debug, PartialEq, Eq, Structural)]
pub struct LogVerbosity(pub Level);

impl Default for LogVerbosity {
    /// Defaults to `warning`.
    fn default() -> (r: Self)
        ensures
            r == LogVerbosity(Level::Warning),
    {
        LogVerbosity(Level::Warning)
    }
}

impl LogVerbosity {
    /// The wrapped severity level.
    pub fn level(&self) -> (l: Level)
        ensures
            l == self.0,
    {
        self.0
    }

    /// Whether a record at level `record` passes this verbosity threshold.
    pub fn enables(&self, record: Level) -> (b: bool)
        ensures
            b == (record.severity() <= self.0.severity()),
    {
        record.le(self.0)
    }

    /// Serializes the verbosity to the canonical name of its level.
    pub fn serialize(&self) -> (s: String)
        ensures
            s@ == self.0.spec_name(),
    {
        self.0.as_str().to_owned()
    }

    /// Deserializes a verbosity from a level name; a string that names no
    /// level is rejected with a validation error, never defaulted.
    pub fn deserialize(s: &str) -> (r: Result<LogVerbosity, ValidationError>)
        ensures
            match r {
                Ok(v) => Level::spec_parse(s@) == Some(v.0),
                Err(e) => Level::spec_parse(s@) is None && e is UnrecognizedLevel,
            },
    {
        match Level::parse(s) {
            Ok(l) => Ok(LogVerbosity(l)),
            Err(e) => Err(e),
        }
    }
}

/// Whether a key list holds the same key twice.
pub open spec fn spec_has_duplicate_keys(keys: Seq<Seq<char>>) -> bool {
    exists|i: int, j: int| 0 <= i < j < keys.len() && keys[i] == keys[j]
}

fn has_duplicate_keys(keys: &Vec<String>) -> (r: bool)
    ensures
        r == spec_has_duplicate_keys(keys.deep_view()),
{
    let n = keys.len();
    let mut i: usize = 0;
    while i < n
        invariant
            n == keys@.len(),
            i <= n,
            forall|a: int, b: int|
                0 <= a < b < n && a < i ==> keys.deep_view()[a] != keys.deep_view()[b],
        decreases n - i,
    {
        let mut j: usize = i + 1;
        while j < n
            invariant
                n == keys@.len(),
                i < n,
                i < j <= n,
                forall|b: int| i < b < j ==> keys.deep_view()[i as int] != keys.deep_view()[b],
            decreases n - j,
        {
            if str_eq(keys[i].as_str(), keys[j].as_str()) {
                assert(keys.deep_view()[i as int] == keys.deep_view()[j as int]);
                return true;
            }
            j = j + 1;
        }
        i = i + 1;
    }
    false
}

/// Logging settings.
#[derive(Clone, Debug)]
pub struct LoggingSettings {
    /// Specifies log output
    pub output: LogOutput,
    /// The format to use for log messages.
    pub format: LogFormat,
    /// Set the logging verbosity level.
    pub verbosity: LogVerbosity,
    /// A list of field keys to redact when emitting logs.
    ///
    /// This might be useful to hide certain fields in production logs as
    /// they may contain sensitive information, but allow them in testing
    /// environments.
    pub redact_keys: Vec<String>,
}

impl LoggingSettings {
    /// The settings invariant: no redaction key occurs twice.
    pub open spec fn well_formed(self) -> bool {
        !spec_has_duplicate_keys(self.redact_keys.deep_view())
    }

    /// Validating constructor: rejects a key list that holds the same key
    /// twice.
    pub fn new(
        output: LogOutput,
        format: LogFormat,
        verbosity: LogVerbosity,
        redact_keys: Vec<String>,
    ) -> (r: Result<LoggingSettings, ValidationError>)
        ensures
            match r {
                Ok(s) => {
                    &&& s.well_formed()
                    &&& s.output == output
                    &&& s.format == format
                    &&& s.verbosity == verbosity
                    &&& s.redact_keys == redact_keys
                },
                Err(e) => {
                    &&& spec_has_duplicate_keys(redact_keys.deep_view())
                    &&& e is DuplicateRedactKey
                },
            },
    {
        if has_duplicate_keys(&redact_keys) {
            Err(ValidationError::DuplicateRedactKey)
        } else {
            Ok(LoggingSettings { output, format, verbosity, redact_keys })
        }
    }
}

impl Default for LoggingSettings {
    /// Defaults: file output, text format, `warning` verbosity, no
    /// redaction keys.
    fn default() -> (r: Self)
        ensures
            r.output matches LogOutput::File(p) && p@ == "./proxy.log"@,
            r.format == LogFormat::Text,
            r.verbosity == LogVerbosity(Level::Warning),
            r.redact_keys@ == Seq::<String>::empty(),
            r.well_formed(),
    {
        let r = LoggingSettings {
            output: LogOutput::default(),
            format: LogFormat::default(),
            verbosity: LogVerbosity::default(),
            redact_keys: Vec::new(),
        };
        proof {
            assert(r.redact_keys@ =~= Seq::<String>::empty());
            assert(r.redact_keys.deep_view() =~= Seq::<Seq<char>>::empty());
        }
        r
    }
}

/// An IPv4 socket address held as plain values; every value of the type is
/// a syntactically valid address.
#[derive(Clone, Copy, Debug, PartialEq, Eq, Structural)]
pub struct SocketAddress {
    /// First octet of the IPv4 address.
    pub a: u8,
    /// Second octet.
    pub b: u8,
    /// Third octet.
    pub c: u8,
    /// Fourth octet.
    pub d: u8,
    /// TCP port.
    pub port: u16,
}

impl SocketAddress {
    /// The textual form `a.b.c.d:port` of the address.
    pub open spec fn spec_render(self) -> Seq<char> {
        dec_str(self.a as nat) + "."@ + dec_str(self.b as nat) + "."@ + dec_str(self.c as nat)
            + "."@ + dec_str(self.d as nat) + ":"@ + dec_str(self.port as nat)
    }

    /// Renders the address as `a.b.c.d:port`.
    pub fn render(&self) -> (s: String)
        ensures
            s@ == self.spec_render(),
    {
        let mut s = u64_to_dec(self.a as u64);
        s.append(".");
        s.append(u64_to_dec(self.b as u64).as_str());
        s.append(".");
        s.append(u64_to_dec(self.c as u64).as_str());
        s.append(".");
        s.append(u64_to_dec(self.d as u64).as_str());
        s.append(":");
        s.append(u64_to_dec(self.port as u64).as_str());
        s
    }
}

/// Telemetry server settings.
#[derive(Clone, Copy, Debug, PartialEq, Eq, Structural)]
pub struct TelemetryServerSettings {
    /// Whether the telemetry server binds and serves at all.
    pub enabled: bool,
    /// The address the server binds to when enabled.
    pub addr: SocketAddress,
}

impl Default for TelemetryServerSettings {
    /// Defaults to a disabled server on `127.0.0.1:0`.
    fn default() -> (r: Self)
        ensures
            r.enabled == false,
            r.addr == (SocketAddress { a: 127, b: 0, c: 0, d: 1, port: 0 }),
    {
        TelemetryServerSettings {
            enabled: false,
            addr: SocketAddress { a: 127, b: 0, c: 0, d: 1, port: 0 },
        }
    }
}

/// Memory profiler settings.
#[derive(Clone, Copy, Debug, PartialEq, Eq, Structural)]
pub struct MemoryProfilerSettings {
    /// Whether the memory profiler singleton may activate native
    /// heap-profiling support.
    pub enabled: bool,
}

impl Default for MemoryProfilerSettings {
    /// Defaults to a disabled profiler.
    fn default() -> (r: Self)
        ensures
            r.enabled == false,
    {
        MemoryProfilerSettings { enabled: false }
    }
}

/// All telemetry settings.
#[derive(Clone, Debug)]
pub struct TelemetrySettings {
    /// Logging settings.
    pub logging: LoggingSettings,
    /// Telemetry server settings.
    pub server: TelemetryServerSettings,
    /// Memory profiler settings.
    pub memory_profiler: MemoryProfilerSettings,
}

impl Default for TelemetrySettings {
    /// All component defaults; in particular the server and the profiler
    /// start disabled.
    fn default() -> (r: Self)
        ensures
            r.logging.well_formed(),
            r.server.enabled == false,
            r.memory_profiler.enabled == false,
    {
        TelemetrySettings {
            logging: LoggingSettings::default(),
            server: TelemetryServerSettings::default(),
            memory_profiler: MemoryProfilerSettings::default(),
        }
    }
}

} // verus!
