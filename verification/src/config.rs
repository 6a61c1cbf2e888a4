use vstd::prelude::*;

verus! {

/// Default bound on the number of requests that may be in flight at once.
pub const DEFAULT_CONCURRENCY_LIMIT: usize = 1024;

/// Default bound on the total processing time of one request, in milliseconds.
pub const DEFAULT_TIMEOUT_MILLIS: u64 = 10000;

/// Default bound on the size of a stored value, in bytes (5000 units of 1024
/// bytes, about 5 MB). A larger payload is turned away before any backend
/// call is made.
pub const DEFAULT_MAX_PAYLOAD_BYTES: usize = 1024 * 5000;

/// The process-wide pipeline configuration: read once at startup and immutable
/// afterwards. The credential guards the privileged route sub-tree.
pub struct Config {
    pub concurrency_limit: usize,
    pub timeout_millis: u64,
    pub max_payload: usize,
    pub credential: Vec<u8>,
}

/// The mathematical content of a `Config`.
pub struct ConfigModel {
    pub concurrency_limit: usize,
    pub timeout_millis: u64,
    pub max_payload: usize,
    pub credential: Seq<u8>,
}

impl View for Config {
    type V = ConfigModel;

    open spec fn view(&self) -> ConfigModel {
        ConfigModel {
            concurrency_limit: self.concurrency_limit,
            timeout_millis: self.timeout_millis,
            max_payload: self.max_payload,
            credential: self.credential@,
        }
    }
}

/// The byte form of the credential a freshly built configuration expects.
pub open spec fn spec_default_credential() -> Seq<u8> {
    seq![
        's' as u8, 'e' as u8, 'c' as u8, 'r' as u8, 'e' as u8, 't' as u8, '-' as u8, 't' as u8,
        'o' as u8, 'k' as u8, 'e' as u8, 'n' as u8,
    ]
}

/// The default bearer credential for the privileged routes.
pub fn default_credential() -> (r: Vec<u8>)
    ensures
        r@ == spec_default_credential(),
{
    let v: Vec<u8> = vec![
        's' as u8, 'e' as u8, 'c' as u8, 'r' as u8, 'e' as u8, 't' as u8, '-' as u8, 't' as u8,
        'o' as u8, 'k' as u8, 'e' as u8, 'n' as u8,
    ];
    v
}

impl Config {
    /// Builds a configuration from the four startup values.
    pub fn new(concurrency_limit: usize, timeout_millis: u64, max_payload: usize, credential: Vec<u8>) -> (c: Config)
        ensures
            c.concurrency_limit == concurrency_limit,
            c.timeout_millis == timeout_millis,
            c.max_payload == max_payload,
            c.credential == credential,
    {
        Config { concurrency_limit, timeout_millis, max_payload, credential }
    }
}

impl Default for Config {
    /// The configuration the process runs with when nothing overrides it.
    fn default() -> (c: Config)
        ensures
            c.concurrency_limit == DEFAULT_CONCURRENCY_LIMIT,
            c.timeout_millis == DEFAULT_TIMEOUT_MILLIS,
            c.max_payload == DEFAULT_MAX_PAYLOAD_BYTES,
            c.credential@ == spec_default_credential(),
    {
        Config {
            concurrency_limit: DEFAULT_CONCURRENCY_LIMIT,
            timeout_millis: DEFAULT_TIMEOUT_MILLIS,
            max_payload: DEFAULT_MAX_PAYLOAD_BYTES,
            credential: default_credential(),
        }
    }
}

/// Severity thresholds for the observability stage, from least to most
/// talkative.
#[derive(Clone, Copy, Debug, PartialEq, Eq, Structural)]
pub enum LogLevel {
    Warn,
    Info,
    Debug,
    Trace,
}

/// The log severity that a count of verbosity flags selects.
pub open spec fn spec_verbosity_level(occurrences: usize) -> LogLevel {
    if occurrences == 0 {
        LogLevel::Warn
    } else if occurrences == 1 {
        LogLevel::Info
    } else if occurrences == 2 {
        LogLevel::Debug
    } else {
        LogLevel::Trace
    }
}

/// Maps the number of verbosity flags given at startup to the log severity
/// threshold the observability stage runs with.
pub fn verbosity_level(occurrences: usize) -> (l: LogLevel)
    ensures
        l == spec_verbosity_level(occurrences),
{
    if occurrences == 0 {
        LogLevel::Warn
    } else if occurrences == 1 {
        LogLevel::Info
    } else if occurrences == 2 {
        LogLevel::Debug
    } else {
        LogLevel::Trace
    }
}

} // verus!
