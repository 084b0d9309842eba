use vstd::prelude::*;
use crate::buffer::DataType;

verus! {

/// Bytes written at a time when no block size is given.
pub const DEFAULT_BLOCK_SIZE: usize = 1024;

pub open spec fn is_digit(c: char) -> bool {
    '0' <= c && c <= '9'
}

/// The value of a run of decimal digits, most significant first.
pub open spec fn digits_value(s: Seq<char>) -> nat
    decreases s.len(),
{
    if s.len() == 0 {
        0
    } else {
        digits_value(s.drop_last()) * 10 + ((s.last() as u32) - ('0' as u32)) as nat
    }
}

/// The digits of an unsigned decimal text: what follows an optional leading `+`.
pub open spec fn unsigned_digits(s: Seq<char>) -> Seq<char> {
    if s.len() > 0 && s[0] == '+' {
        s.drop_first()
    } else {
        s
    }
}

/// The number that `s` writes in decimal, if it is an optional `+` followed by
/// one or more ASCII digits and nothing else.
pub open spec fn decimal_value(s: Seq<char>) -> Option<nat> {
    let d = unsigned_digits(s);
    if d.len() > 0 && forall|i: int| 0 <= i < d.len() ==> is_digit(#[trigger] d[i]) {
        Some(digits_value(d))
    } else {
        None
    }
}

/// Whether `s` is the decimal text of a value that fits in a `usize`.
pub open spec fn parses_as_usize(s: Seq<char>) -> bool {
    decimal_value(s) matches Some(v) && v <= usize::MAX
}

/// Relies on `str::parse::<usize>`: it accepts exactly an optional `+` and one
/// or more ASCII digits whose value fits, and returns that value; otherwise it
/// fails, and the error's text is handed back.
#[verifier::external_body]
fn parse_usize(s: &str) -> (r: Result<usize, String>)
    ensures
        r is Ok <==> parses_as_usize(s@),
        r matches Ok(v) ==> decimal_value(s@) == Some(v as nat),
{
    match s.parse::<usize>() {
        Ok(v) => Ok(v),
        Err(e) => Err(e.to_string()),
    }
}

/// Relies on `num_cpus::get`: the number of CPUs this process may use, which
/// its documentation promises is at least one.
#[verifier::external_body]
fn host_parallelism() -> (r: usize)
    ensures
        r >= 1,
{
    num_cpus::get()
}

/// Checks that a command-line value is an unsigned integer; the error carries
/// the parser's message.
pub fn is_valid_int(s: &str) -> (r: Result<(), String>)
    ensures
        r is Ok <==> parses_as_usize(s@),
{
    match parse_usize(s) {
        Ok(_) => Ok(()),
        Err(e) => Err(e),
    }
}

/// Why the run's settings could not be resolved.
#[derive(Clone, Debug, PartialEq, Eq)]
pub enum ConfigError {
    /// No target was named.
    NoTargets,
    /// The thread count is not an unsigned integer; the parser's message.
    InvalidThreads(String),
    /// A pool needs at least one thread.
    ZeroThreads,
    /// The block size is not an unsigned integer; the parser's message.
    InvalidBlockSize(String),
}

/// The resolved settings of a run.
pub struct Config {
    pub data_type: DataType,
    pub block_size: usize,
    pub threads: usize,
    pub targets: Vec<String>,
}

/// The thread count that a run with these settings uses.
pub open spec fn thread_count(threads: Option<Seq<char>>, default_threads: usize) -> nat {
    match threads {
        Some(t) => decimal_value(t)->Some_0,
        None => default_threads as nat,
    }
}

/// The block size that a run with these settings uses.
pub open spec fn block_size_of(blocksize: Option<Seq<char>>) -> nat {
    match blocksize {
        Some(b) => decimal_value(b)->Some_0,
        None => DEFAULT_BLOCK_SIZE as nat,
    }
}

/// The text of an optional option value.
pub open spec fn option_view(o: Option<&str>) -> Option<Seq<char>> {
    match o {
        Some(s) => Some(s@),
        None => None,
    }
}

impl Config {
    /// Resolves the settings from the raw option values: `zero` picks the zero
    /// policy, an absent thread count takes `default_threads`, an absent block
    /// size takes the default. Problems are reported in the order: targets,
    /// thread count, block size.
    pub fn resolve(
        zero: bool,
        threads: Option<&str>,
        blocksize: Option<&str>,
        default_threads: usize,
        targets: Vec<String>,
    ) -> (r: Result<Config, ConfigError>)
        ensures
            targets@.len() == 0 <==> r == Err::<Config, ConfigError>(ConfigError::NoTargets),
            targets@.len() > 0 && (threads matches Some(t) && !parses_as_usize(t@))
                <==> r matches Err(ConfigError::InvalidThreads(_)),
            (targets@.len() > 0 && (threads matches Some(t) ==> parses_as_usize(t@))
                && thread_count(option_view(threads), default_threads) == 0)
                <==> r == Err::<Config, ConfigError>(ConfigError::ZeroThreads),
            (targets@.len() > 0 && (threads matches Some(t) ==> parses_as_usize(t@))
                && thread_count(option_view(threads), default_threads) > 0
                && (blocksize matches Some(b) && !parses_as_usize(b@)))
                <==> r matches Err(ConfigError::InvalidBlockSize(_)),
            r matches Ok(c) ==> {
                &&& c.data_type == (if zero { DataType::Zeroes } else { DataType::Random })
                &&& c.threads as nat == thread_count(option_view(threads), default_threads)
                &&& c.threads >= 1
                &&& c.block_size as nat == block_size_of(option_view(blocksize))
                &&& c.targets@ == targets@
            },
    {
        if targets.len() == 0 {
            return Err(ConfigError::NoTargets);
        }
        let n_threads: usize = match threads {
            Some(t) => match parse_usize(t) {
                Ok(v) => v,
                Err(e) => {
                    return Err(ConfigError::InvalidThreads(e));
                },
            },
            None => default_threads,
        };
        if n_threads == 0 {
            return Err(ConfigError::ZeroThreads);
        }
        let block_size: usize = match blocksize {
            Some(b) => match parse_usize(b) {
                Ok(v) => v,
                Err(e) => {
                    return Err(ConfigError::InvalidBlockSize(e));
                },
            },
            None => DEFAULT_BLOCK_SIZE,
        };
        let data_type = if zero {
            DataType::Zeroes
        } else {
            DataType::Random
        };
        Ok(Config { data_type, block_size, threads: n_threads, targets })
    }

    /// Resolves the settings as `resolve` does, with the number of CPUs this
    /// process may use as the default thread count.
    pub fn from_args(
        zero: bool,
        threads: Option<&str>,
        blocksize: Option<&str>,
        targets: Vec<String>,
    ) -> (r: Result<Config, ConfigError>)
        ensures
            targets@.len() == 0 <==> r == Err::<Config, ConfigError>(ConfigError::NoTargets),
            targets@.len() > 0 && (threads matches Some(t) && !parses_as_usize(t@))
                <==> r matches Err(ConfigError::InvalidThreads(_)),
            (targets@.len() > 0 && (threads matches Some(t) && decimal_value(t@) == Some(0nat)))
                <==> r == Err::<Config, ConfigError>(ConfigError::ZeroThreads),
            (targets@.len() > 0 && (threads matches Some(t) ==> parses_as_usize(t@)
                && decimal_value(t@) != Some(0nat))
                && (blocksize matches Some(b) && !parses_as_usize(b@)))
                <==> r matches Err(ConfigError::InvalidBlockSize(_)),
            r matches Ok(c) ==> {
                &&& c.data_type == (if zero { DataType::Zeroes } else { DataType::Random })
                &&& c.threads >= 1
                &&& (threads matches Some(t) ==> decimal_value(t@) == Some(c.threads as nat))
                &&& c.block_size as nat == block_size_of(option_view(blocksize))
                &&& c.targets@ == targets@
            },
    {
        let default_threads = host_parallelism();
        Config::resolve(zero, threads, blocksize, default_threads, targets)
    }
}

} // verus!
