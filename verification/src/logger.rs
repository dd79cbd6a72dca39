use vstd::prelude::*;

verus! {

/// Severity of one log record, from most to least severe.
#[derive(Clone, Copy, Debug, PartialEq, Eq, Structural)]
pub enum Level {
    Error,
    Warn,
    Info,
    Debug,
    Trace,
}

/// The most verbose severity a logger lets through; `Off` lets nothing
/// through.
#[derive(Clone, Copy, Debug, PartialEq, Eq, Structural)]
pub enum LevelFilter {
    Off,
    Error,
    Warn,
    Info,
    Debug,
    Trace,
}

/// The color a record is printed in, by severity.
#[derive(Clone, Copy, Debug, PartialEq, Eq, Structural)]
pub enum LogColor {
    BrightRed,
    BrightYellow,
    BrightBlue,
    BrightMagenta,
    BrightBlack,
}

/// Rank of a severity: a record passes a filter when its rank is at most the
/// filter's rank.
pub open spec fn level_rank(level: Level) -> nat {
    match level {
        Level::Error => 1,
        Level::Warn => 2,
        Level::Info => 3,
        Level::Debug => 4,
        Level::Trace => 5,
    }
}

/// Rank of a filter, on the same scale as `level_rank`.
pub open spec fn filter_rank(filter: LevelFilter) -> nat {
    match filter {
        LevelFilter::Off => 0,
        LevelFilter::Error => 1,
        LevelFilter::Warn => 2,
        LevelFilter::Info => 3,
        LevelFilter::Debug => 4,
        LevelFilter::Trace => 5,
    }
}

/// The color each severity is printed in.
pub open spec fn spec_level_color(level: Level) -> LogColor {
    match level {
        Level::Error => LogColor::BrightRed,
        Level::Warn => LogColor::BrightYellow,
        Level::Info => LogColor::BrightBlue,
        Level::Debug => LogColor::BrightMagenta,
        Level::Trace => LogColor::BrightBlack,
    }
}

/// A stderr logger that colors each record by severity and drops records
/// more verbose than its filter.
///
/// The library decides which records pass and in which color they appear;
/// installing the logger and writing to stderr happen outside the library.
pub struct Logger {
    level: LevelFilter,
}

impl Logger {
    /// The filter this logger was created with.
    pub closed spec fn spec_level(&self) -> LevelFilter {
        self.level
    }

    pub fn new(level: LevelFilter) -> (r: Self)
        ensures
            r.spec_level() == level,
    {
        Self { level }
    }

    /// Whether a record of the given severity is let through.
    pub fn enabled(&self, level: Level) -> (r: bool)
        ensures
            r == (level_rank(level) <= filter_rank(self.spec_level())),
    {
        let level_n: u8 = match level {
            Level::Error => 1,
            Level::Warn => 2,
            Level::Info => 3,
            Level::Debug => 4,
            Level::Trace => 5,
        };
        let filter_n: u8 = match self.level {
            LevelFilter::Off => 0,
            LevelFilter::Error => 1,
            LevelFilter::Warn => 2,
            LevelFilter::Info => 3,
            LevelFilter::Debug => 4,
            LevelFilter::Trace => 5,
        };
        level_n <= filter_n
    }
}

/// The color a record of the given severity is printed in.
pub fn level_color(level: Level) -> (r: LogColor)
    ensures
        r == spec_level_color(level),
{
    match level {
        Level::Error => LogColor::BrightRed,
        Level::Warn => LogColor::BrightYellow,
        Level::Info => LogColor::BrightBlue,
        Level::Debug => LogColor::BrightMagenta,
        Level::Trace => LogColor::BrightBlack,
    }
}

} // verus!
