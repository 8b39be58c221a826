//! Severities and the severity filter, ordered from least to most verbose.
use std::str::FromStr;
use vstd::prelude::*;

verus! {

/// The severity of one event. `Error` is the least verbose, `Trace` the most.
#[derive(Clone, Copy, Debug, PartialEq, Eq, Structural)]
pub enum Level {
    Error,
    Warn,
    Info,
    Debug,
    Trace,
}

/// A severity threshold: `Off` lets nothing through, `Trace` everything.
#[derive(Clone, Copy, Debug, PartialEq, Eq, Structural)]
pub enum LevelFilter {
    Off,
    Error,
    Warn,
    Info,
    Debug,
    Trace,
}

impl Level {
    /// Position of the severity in verbosity order, `Error` first.
    pub open spec fn spec_rank(self) -> nat {
        match self {
            Level::Error => 1,
            Level::Warn => 2,
            Level::Info => 3,
            Level::Debug => 4,
            Level::Trace => 5,
        }
    }

    pub fn rank(self) -> (r: u8)
        ensures
            r as nat == self.spec_rank(),
    {
        match self {
            Level::Error => 1,
            Level::Warn => 2,
            Level::Info => 3,
            Level::Debug => 4,
            Level::Trace => 5,
        }
    }

    /// The upper-case name under which the severity is printed.
    pub fn as_str(self) -> (r: &'static str)
        ensures
            r@ == level_name(self),
    {
        log_level_name(self)
    }
}

impl LevelFilter {
    /// Position of the threshold in verbosity order, `Off` first.
    pub open spec fn spec_rank(self) -> nat {
        match self {
            LevelFilter::Off => 0,
            LevelFilter::Error => 1,
            LevelFilter::Warn => 2,
            LevelFilter::Info => 3,
            LevelFilter::Debug => 4,
            LevelFilter::Trace => 5,
        }
    }

    pub fn rank(self) -> (r: u8)
        ensures
            r as nat == self.spec_rank(),
    {
        match self {
            LevelFilter::Off => 0,
            LevelFilter::Error => 1,
            LevelFilter::Warn => 2,
            LevelFilter::Info => 3,
            LevelFilter::Debug => 4,
            LevelFilter::Trace => 5,
        }
    }

    /// The most verbose threshold.
    pub fn max() -> (r: LevelFilter)
        ensures
            r == LevelFilter::Trace,
    {
        log_max_filter()
    }

    /// Reads a threshold from its name, ignoring ASCII case; `None` when the
    /// text names no threshold.
    pub fn parse(s: &str) -> (r: Option<LevelFilter>)
        ensures
            r == parse_level_filter(s@),
    {
        log_parse_filter(s)
    }
}

/// Whether an event of severity `l` passes the threshold `f`.
pub open spec fn level_passes(l: Level, f: LevelFilter) -> bool {
    l.spec_rank() <= f.spec_rank()
}

/// Whether an event of severity `l` passes the threshold `f`.
pub fn passes(l: Level, f: LevelFilter) -> (r: bool)
    ensures
        r == level_passes(l, f),
{
    l.rank() <= f.rank()
}

/// The printed name of each severity.
pub open spec fn level_name(l: Level) -> Seq<char> {
    match l {
        Level::Error => seq!['E', 'R', 'R', 'O', 'R'],
        Level::Warn => seq!['W', 'A', 'R', 'N'],
        Level::Info => seq!['I', 'N', 'F', 'O'],
        Level::Debug => seq!['D', 'E', 'B', 'U', 'G'],
        Level::Trace => seq!['T', 'R', 'A', 'C', 'E'],
    }
}

/// `s` spells `lower`, a word of lower-case ASCII letters, with each letter
/// in either case.
pub open spec fn same_ignoring_ascii_case(s: Seq<char>, lower: Seq<char>) -> bool {
    &&& s.len() == lower.len()
    &&& forall|i: int|
        0 <= i < s.len() ==> (s[i] == lower[i] || s[i] as u32 + 32 == lower[i] as u32)
}

/// The threshold that a name denotes, `off` through `trace` in any ASCII case.
pub open spec fn parse_level_filter(s: Seq<char>) -> Option<LevelFilter> {
    if same_ignoring_ascii_case(s, seq!['o', 'f', 'f']) {
        Some(LevelFilter::Off)
    } else if same_ignoring_ascii_case(s, seq!['e', 'r', 'r', 'o', 'r']) {
        Some(LevelFilter::Error)
    } else if same_ignoring_ascii_case(s, seq!['w', 'a', 'r', 'n']) {
        Some(LevelFilter::Warn)
    } else if same_ignoring_ascii_case(s, seq!['i', 'n', 'f', 'o']) {
        Some(LevelFilter::Info)
    } else if same_ignoring_ascii_case(s, seq!['d', 'e', 'b', 'u', 'g']) {
        Some(LevelFilter::Debug)
    } else if same_ignoring_ascii_case(s, seq!['t', 'r', 'a', 'c', 'e']) {
        Some(LevelFilter::Trace)
    } else {
        None
    }
}

/// Relies on log's `FromStr for LevelFilter`: the first of the names
/// OFF, ERROR, WARN, INFO, DEBUG, TRACE that equals `s` up to ASCII case.
#[verifier::external_body]
fn log_parse_filter(s: &str) -> (r: Option<LevelFilter>)
    ensures
        r == parse_level_filter(s@),
{
    match log::LevelFilter::from_str(s) {
        Ok(log::LevelFilter::Off) => Some(LevelFilter::Off),
        Ok(log::LevelFilter::Error) => Some(LevelFilter::Error),
        Ok(log::LevelFilter::Warn) => Some(LevelFilter::Warn),
        Ok(log::LevelFilter::Info) => Some(LevelFilter::Info),
        Ok(log::LevelFilter::Debug) => Some(LevelFilter::Debug),
        Ok(log::LevelFilter::Trace) => Some(LevelFilter::Trace),
        Err(_) => None,
    }
}

/// Relies on log's `LevelFilter::max`, which returns `Trace`.
#[verifier::external_body]
fn log_max_filter() -> (r: LevelFilter)
    ensures
        r == LevelFilter::Trace,
{
    match log::LevelFilter::max() {
        log::LevelFilter::Off => LevelFilter::Off,
        log::LevelFilter::Error => LevelFilter::Error,
        log::LevelFilter::Warn => LevelFilter::Warn,
        log::LevelFilter::Info => LevelFilter::Info,
        log::LevelFilter::Debug => LevelFilter::Debug,
        log::LevelFilter::Trace => LevelFilter::Trace,
    }
}

/// Relies on log's `Level::as_str`: the upper-case name of the severity.
#[verifier::external_body]
fn log_level_name(l: Level) -> (r: &'static str)
    ensures
        r@ == level_name(l),
{
    match l {
        Level::Error => log::Level::Error,
        Level::Warn => log::Level::Warn,
        Level::Info => log::Level::Info,
        Level::Debug => log::Level::Debug,
        Level::Trace => log::Level::Trace,
    }.as_str()
}

} // verus!
