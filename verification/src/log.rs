//! How much the SDK says, and where it goes.
//!
//! Nothing is ever emitted above `info`. A failed request is returned to the
//! caller, and logging it as well would report someone else's decision twice,
//! which is why the default level of `warn` leaves a healthy client completely
//! silent. Filtering happens in [`Filtered`] rather than at each call site, so
//! a sink can never be handed a line it was configured not to want.

use std::sync::Arc;
use vstd::prelude::*;

use crate::error::Error;
use crate::text::{append_str, lit, str_eq, string_of};

verus! {

/// How much detail reaches the sink.
#[derive(Debug, Clone, Copy, PartialEq, Eq, Structural)]
pub enum Level {
    /// Request and response bodies, and the headers, redacted.
    Debug,
    /// One line per request and per retry.
    Info,
    /// Reserved; the SDK emits nothing at this level.
    Warn,
    /// Reserved; the SDK emits nothing at this level.
    Error,
    /// Nothing at all.
    Off,
}

/// Every level, from most to least verbose.
pub const LEVELS: [Level; 5] = [Level::Debug, Level::Info, Level::Warn, Level::Error, Level::Off];

/// The level a client uses when none is configured.
pub const DEFAULT_LEVEL: Level = Level::Warn;

/// A level's position from most to least verbose.
pub open spec fn rank(l: Level) -> int {
    match l {
        Level::Debug => 0,
        Level::Info => 1,
        Level::Warn => 2,
        Level::Error => 3,
        Level::Off => 4,
    }
}

/// A level's name as it is written in configuration.
pub open spec fn level_name(l: Level) -> Seq<char> {
    match l {
        Level::Debug => "debug"@,
        Level::Info => "info"@,
        Level::Warn => "warn"@,
        Level::Error => "error"@,
        Level::Off => "off"@,
    }
}

/// Whether a message at `l` is emitted by a logger set to `threshold`.
pub open spec fn admits(l: Level, threshold: Level) -> bool {
    rank(l) >= rank(threshold) && l != Level::Off
}

/// The level a configuration value names, if any.
pub open spec fn level_named(value: Seq<char>) -> Option<Level> {
    if value == level_name(Level::Debug) {
        Some(Level::Debug)
    } else if value == level_name(Level::Info) {
        Some(Level::Info)
    } else if value == level_name(Level::Warn) {
        Some(Level::Warn)
    } else if value == level_name(Level::Error) {
        Some(Level::Error)
    } else if value == level_name(Level::Off) {
        Some(Level::Off)
    } else {
        None
    }
}

/// The message a bad level value is refused with.
pub open spec fn invalid_level_message(value: Seq<char>, source: Seq<char>) -> Seq<char> {
    "Invalid log level \""@ + value + "\" from "@ + source + ". Expected one of: "@
        + "debug, info, warn, error, off"@ + "."@
}

impl Level {
    /// The level's name as it is written in configuration.
    pub fn name(self) -> (r: &'static str)
        ensures
            r@ == level_name(self),
    {
        match self {
            Level::Debug => "debug",
            Level::Info => "info",
            Level::Warn => "warn",
            Level::Error => "error",
            Level::Off => "off",
        }
    }

    /// The position from most to least verbose.
    pub fn rank(self) -> (r: u8)
        ensures
            r == rank(self),
    {
        match self {
            Level::Debug => 0,
            Level::Info => 1,
            Level::Warn => 2,
            Level::Error => 3,
            Level::Off => 4,
        }
    }

    /// Whether a message at `self` is emitted by a logger set to `threshold`.
    pub fn passes(self, threshold: Level) -> (r: bool)
        ensures
            r == admits(self, threshold),
    {
        self.rank() >= threshold.rank() && self != Level::Off
    }

    /// Parses a level, naming where the bad value came from.
    pub fn parse(value: &str, source: &str) -> (r: Result<Level, Error>)
        ensures
            match level_named(value@) {
                Some(l) => r == Ok::<Level, Error>(l),
                None => r matches Err(Error::Invalid(m)) && m@ == invalid_level_message(value@, source@),
            },
    {
        let mut i: usize = 0;
        while i < 5
            invariant
                i <= 5,
                forall|j: int| 0 <= j < i ==> level_name(#[trigger] LEVELS@[j]) != value@,
            decreases 5 - i,
        {
            let level = LEVELS[i];
            if str_eq(level.name(), value) {
                proof {
                    reveal_strlit("debug");
                    reveal_strlit("info");
                    reveal_strlit("warn");
                    reveal_strlit("error");
                    reveal_strlit("off");
                }
                return Ok(level);
            }
            i = i + 1;
        }
        assert(level_name(LEVELS@[0]) != value@);
        assert(level_name(LEVELS@[1]) != value@);
        assert(level_name(LEVELS@[2]) != value@);
        assert(level_name(LEVELS@[3]) != value@);
        assert(level_name(LEVELS@[4]) != value@);
        let mut m = lit("Invalid log level \"");
        append_str(&mut m, value);
        append_str(&mut m, "\" from ");
        append_str(&mut m, source);
        append_str(&mut m, ". Expected one of: ");
        append_str(&mut m, "debug, info, warn, error, off");
        append_str(&mut m, ".");
        Err(Error::Invalid(string_of(&m)))
    }

    /// The name, as an owned string (what `Display` writes).
    pub fn to_string(self) -> (r: String)
        ensures
            r@ == level_name(self),
    {
        crate::text::owned(self.name())
    }
}

/// Somewhere log lines are written.
///
/// Implementations must tolerate concurrent calls: one client may have several
/// requests in flight, each numbering its own lines.
pub trait Logger {
    /// Writes one line, already filtered.
    fn log(&self, level: Level, message: &str);
}

/// Discards everything. The default when a caller wants no output.
#[derive(Debug, Clone, Copy, Default)]
pub struct Silent;

impl Logger for Silent {
    fn log(&self, level: Level, message: &str) {
    }
}

/// A logger that drops anything below its threshold.
pub struct Filtered<L: Logger + ?Sized> {
    inner: Arc<L>,
    threshold: Level,
}

impl<L: Logger + ?Sized> Filtered<L> {
    /// Wraps `inner`, admitting only messages at or above `threshold`.
    pub fn new(inner: Arc<L>, threshold: Level) -> (r: Filtered<L>)
        ensures
            r.floor() == threshold,
    {
        Filtered { inner, threshold }
    }

    /// The level below which messages are dropped.
    pub closed spec fn floor(&self) -> Level {
        self.threshold
    }

    /// The level below which messages are dropped.
    pub fn threshold(&self) -> (r: Level)
        ensures
            r == self.floor(),
    {
        self.threshold
    }

    /// Writes the message `message` builds if `level` passes the threshold;
    /// the message is only built when it will be written. Returns whether it
    /// was.
    pub fn log<F: FnOnce() -> String>(&self, level: Level, message: F) -> (written: bool)
        requires
            message.requires(()),
        ensures
            written == admits(level, self.floor()),
    {
        if level.passes(self.threshold) {
            let line = message();
            self.inner.log(level, line.as_str());
            true
        } else {
            false
        }
    }
}

/// A threshold admits itself and anything louder, and nothing quieter.
pub proof fn law_threshold_admits_louder(l: Level, threshold: Level)
    requires
        l != Level::Off,
    ensures
        admits(l, threshold) == (rank(l) >= rank(threshold)),
        admits(threshold, threshold) == (threshold != Level::Off),
{
}

/// `off` admits nothing at all, and nothing is ever written at `off`.
pub proof fn law_off_admits_nothing(l: Level, threshold: Level)
    ensures
        !admits(l, Level::Off),
        !admits(Level::Off, threshold),
{
}

/// The default level silences a healthy client: nothing the SDK writes
/// (`debug` and `info`) passes it.
pub proof fn law_default_silences()
    ensures
        !admits(Level::Debug, DEFAULT_LEVEL),
        !admits(Level::Info, DEFAULT_LEVEL),
{
}

/// Every level round-trips through its name, and the levels are listed from
/// most to least verbose.
pub proof fn law_names_round_trip(l: Level)
    ensures
        level_named(level_name(l)) == Some(l),
        forall|i: int, j: int| 0 <= i < j < 5 ==> rank(#[trigger] LEVELS@[i]) < rank(#[trigger] LEVELS@[j]),
{
    reveal_strlit("debug");
    reveal_strlit("info");
    reveal_strlit("warn");
    reveal_strlit("error");
    reveal_strlit("off");
    assert("debug"@[0] == 'd');
    assert("info"@[0] == 'i');
    assert("warn"@[0] == 'w');
    assert("error"@[0] == 'e');
    assert("off"@[0] == 'o');
}

} // verus!
