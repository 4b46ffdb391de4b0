//! What the command line asks for, and the log verbosity it selects.
use vstd::prelude::*;

verus! {

/// What to do instead of the default (update if possible, then start).
#[derive(Clone, Copy, PartialEq, Eq, Structural, Debug)]
pub enum Action {
    /// Starts the game without updating.
    Start,
    /// Only updates the game.
    Update,
}

/// The parsed command line: an optional action and two verbosity counts.
#[derive(Clone, Copy, PartialEq, Eq, Structural, Debug)]
pub struct CmdLine {
    pub action: Option<Action>,
    /// How often the game's verbosity flag was given.
    pub verbose: i32,
    /// How often the launcher's verbosity flag was given.
    pub debug: i32,
}

/// A log verbosity level, from the least to the most verbose.
#[derive(Clone, Copy, PartialEq, Eq, Structural, Debug)]
pub enum Level {
    Error,
    Warn,
    Info,
    Debug,
    Trace,
}

pub open spec fn level_name(l: Level) -> Seq<char> {
    match l {
        Level::Error => "ERROR"@,
        Level::Warn => "WARN"@,
        Level::Info => "INFO"@,
        Level::Debug => "DEBUG"@,
        Level::Trace => "TRACE"@,
    }
}

impl Level {
    /// The level's name as the game reads it from its environment.
    pub fn name(&self) -> (r: String)
        ensures
            r@ == level_name(*self),
    {
        match self {
            Level::Error => String::from_str("ERROR"),
            Level::Warn => String::from_str("WARN"),
            Level::Info => String::from_str("INFO"),
            Level::Debug => String::from_str("DEBUG"),
            Level::Trace => String::from_str("TRACE"),
        }
    }
}

impl CmdLine {
    /// The launcher's own log level: no flag logs information, one adds debug
    /// output, more trace everything.
    pub fn launcher_log_level(&self) -> (r: Level)
        ensures
            r == (if self.debug == 0 {
                Level::Info
            } else if self.debug == 1 {
                Level::Debug
            } else {
                Level::Trace
            }),
    {
        match self.debug {
            0 => Level::Info,
            1 => Level::Debug,
            _ => Level::Trace,
        }
    }

    /// The game's log level: no flag logs warnings, then information, debug
    /// output, and with three or more flags everything.
    pub fn game_log_level(&self) -> (r: Level)
        ensures
            r == (if self.verbose == 0 {
                Level::Warn
            } else if self.verbose == 1 {
                Level::Info
            } else if self.verbose == 2 {
                Level::Debug
            } else {
                Level::Trace
            }),
    {
        match self.verbose {
            0 => Level::Warn,
            1 => Level::Info,
            2 => Level::Debug,
            _ => Level::Trace,
        }
    }
}

} // verus!
