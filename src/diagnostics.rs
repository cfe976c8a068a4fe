//! The formatting side of the bridge that carries log messages to the
//! host's message primitive.
use vstd::prelude::*;
use vstd::string::*;

verus! {

/// How severe a log message is, most severe first.
#[derive(Debug, Clone, Copy, PartialEq, Eq, Structural)]
pub enum Level {
    /// A failure.
    Error,
    /// Something that may need attention.
    Warn,
    /// Ordinary information.
    Info,
    /// Detail for debugging.
    Debug,
    /// Finest detail.
    Trace,
}

/// The rank of a level: the lower, the more severe.
pub open spec fn rank(level: Level) -> nat {
    match level {
        Level::Error => 1,
        Level::Warn => 2,
        Level::Info => 3,
        Level::Debug => 4,
        Level::Trace => 5,
    }
}

/// Only messages at informational priority or above are passed on.
pub open spec fn is_enabled(level: Level) -> bool {
    rank(level) <= rank(Level::Info)
}

/// What is put before a message of the given level.
pub open spec fn prefix(level: Level) -> Seq<char> {
    match level {
        Level::Warn => seq!['\u{26A0}', '\u{FE0F}', ' '],
        Level::Error => seq!['\u{26D4}', ' '],
        _ => seq![],
    }
}

/// The text that the host is sent for a message of the given level, if
/// the message is passed on at all.
pub open spec fn delivered(level: Level, message: Seq<char>) -> Option<Seq<char>> {
    if is_enabled(level) {
        Some(prefix(level) + message)
    } else {
        None
    }
}

/// The logger that emits messages to the host.
#[derive(Debug, Clone, Copy)]
pub struct Logger;

impl Logger {
    /// Whether messages of `level` are passed on.
    pub fn enabled(&self, level: Level) -> (r: bool)
        ensures
            r == is_enabled(level),
    {
        match level {
            Level::Error | Level::Warn | Level::Info => true,
            Level::Debug | Level::Trace => false,
        }
    }

    /// The text to send to the host for `message` at `level`, or `None`
    /// where the level is not passed on.
    pub fn format(&self, level: Level, message: &str) -> (r: Option<String>)
        ensures
            r matches Some(s) ==> delivered(level, message@) == Some(s@),
            r is None <==> delivered(level, message@) is None,
    {
        if !self.enabled(level) {
            return None;
        }
        let mut s = match level {
            Level::Warn => {
                let p = String::from_str("\u{26A0}\u{FE0F} ");
                proof {
                    reveal_strlit("\u{26A0}\u{FE0F} ");
                }
                assert(p@ =~= prefix(level));
                p
            },
            Level::Error => {
                let p = String::from_str("\u{26D4} ");
                proof {
                    reveal_strlit("\u{26D4} ");
                }
                assert(p@ =~= prefix(level));
                p
            },
            _ => {
                let p = String::new();
                assert(p@ =~= prefix(level));
                p
            },
        };
        s.append(message);
        Some(s)
    }
}

} // verus!
