//! Log severities and the filter that decides which of them are shown.
use vstd::prelude::*;
use vstd::string::StringSliceAdditionalSpecFns;

verus! {

/// The severity of a log record, from most to least severe.
#[derive(Clone, Copy, Debug, PartialEq, Eq, Structural)]
pub enum Level {
    Error,
    Warn,
    Info,
    Debug,
    Trace,
}

/// The most verbose severity that is still shown; `Off` shows nothing.
#[derive(Clone, Copy, Debug, PartialEq, Eq, Structural)]
pub enum LevelFilter {
    Off,
    Error,
    Warn,
    Info,
    Debug,
    Trace,
}

/// Verbosity of a level: 1 for `Error` up to 5 for `Trace`.
pub open spec fn level_rank(level: Level) -> nat {
    match level {
        Level::Error => 1,
        Level::Warn => 2,
        Level::Info => 3,
        Level::Debug => 4,
        Level::Trace => 5,
    }
}

/// Verbosity of a filter: 0 for `Off` up to 5 for `Trace`.
pub open spec fn filter_rank(filter: LevelFilter) -> nat {
    match filter {
        LevelFilter::Off => 0,
        LevelFilter::Error => 1,
        LevelFilter::Warn => 2,
        LevelFilter::Info => 3,
        LevelFilter::Debug => 4,
        LevelFilter::Trace => 5,
    }
}

/// The ASCII bytes of a level's upper-case name (`ERROR`, `WARN`, `INFO`,
/// `DEBUG`, `TRACE`).
pub open spec fn level_name(level: Level) -> Seq<u8> {
    match level {
        Level::Error => seq![69u8, 82u8, 82u8, 79u8, 82u8],
        Level::Warn => seq![87u8, 65u8, 82u8, 78u8],
        Level::Info => seq![73u8, 78u8, 70u8, 79u8],
        Level::Debug => seq![68u8, 69u8, 66u8, 85u8, 71u8],
        Level::Trace => seq![84u8, 82u8, 65u8, 67u8, 69u8],
    }
}

/// Relies on log::Level::as_str: the upper-case name of the level.
#[verifier::external_body]
fn name_of(level: Level) -> (r: &'static str)
    ensures
        r.spec_bytes() == level_name(level),
{
    let outside = match level {
        Level::Error => log::Level::Error,
        Level::Warn => log::Level::Warn,
        Level::Info => log::Level::Info,
        Level::Debug => log::Level::Debug,
        Level::Trace => log::Level::Trace,
    };
    outside.as_str()
}

/// Relies on log::set_max_level: installs `filter` as the process-wide
/// maximum that the `log` macros test before they build a record.
#[verifier::external_body]
pub(crate) fn install_max_level(filter: LevelFilter) {
    log::set_max_level(
        match filter {
            LevelFilter::Off => log::LevelFilter::Off,
            LevelFilter::Error => log::LevelFilter::Error,
            LevelFilter::Warn => log::LevelFilter::Warn,
            LevelFilter::Info => log::LevelFilter::Info,
            LevelFilter::Debug => log::LevelFilter::Debug,
            LevelFilter::Trace => log::LevelFilter::Trace,
        },
    );
}

impl Level {
    /// The upper-case name of the level, such as `"INFO"`.
    pub fn as_str(&self) -> (r: &'static str)
        ensures
            r.spec_bytes() == level_name(*self),
    {
        name_of(*self)
    }

    /// The filter that shows this level and everything more severe.
    pub fn to_level_filter(&self) -> (r: LevelFilter)
        ensures
            filter_rank(r) == level_rank(*self),
    {
        match self {
            Level::Error => LevelFilter::Error,
            Level::Warn => LevelFilter::Warn,
            Level::Info => LevelFilter::Info,
            Level::Debug => LevelFilter::Debug,
            Level::Trace => LevelFilter::Trace,
        }
    }
}

/// Whether `level` is shown under the maximum `max`: it is exactly when the
/// level is at most as verbose as the filter.
pub fn level_enabled(level: Level, max: LevelFilter) -> (r: bool)
    ensures
        r == (level_rank(level) <= filter_rank(max)),
{
    let filter = level.to_level_filter();
    filter.verbosity() <= max.verbosity()
}

impl LevelFilter {
    /// The verbosity of this filter as a number.
    pub fn verbosity(&self) -> (r: u8)
        ensures
            r as nat == filter_rank(*self),
    {
        match self {
            LevelFilter::Off => 0,
            LevelFilter::Error => 1,
            LevelFilter::Warn => 2,
            LevelFilter::Info => 3,
            LevelFilter::Debug => 4,
            LevelFilter::Trace => 5,
        }
    }
}

} // verus!
