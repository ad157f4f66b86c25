//! Severity levels and level filters, with their ordering.
//!
//! A record's level is ordered `Error < Warn < Info < Debug < Trace` by
//! verbosity: `Error` is the most severe and least verbose. A filter adds
//! `Off` below all of them. A record passes a filter when its level is at
//! most as verbose as the filter.

use vstd::prelude::*;

verus! {

/// Severity of a single log record, from most verbose to most severe.
#[derive(Clone, Copy, PartialEq, Eq, Structural, Debug)]
pub enum Level {
    Trace,
    Debug,
    Info,
    Warn,
    Error,
}

/// Minimum-severity threshold: `Off` admits nothing, `Trace` admits all.
#[derive(Clone, Copy, PartialEq, Eq, Structural, Debug)]
pub enum LevelFilter {
    Off,
    Error,
    Warn,
    Info,
    Debug,
    Trace,
}

/// Verbosity rank of a level: `Error` is 1, `Trace` is 5.
pub open spec fn level_verbosity(l: Level) -> int {
    match l {
        Level::Error => 1,
        Level::Warn => 2,
        Level::Info => 3,
        Level::Debug => 4,
        Level::Trace => 5,
    }
}

/// Verbosity rank of a filter: `Off` is 0, `Trace` is 5.
pub open spec fn filter_verbosity(f: LevelFilter) -> int {
    match f {
        LevelFilter::Off => 0,
        LevelFilter::Error => 1,
        LevelFilter::Warn => 2,
        LevelFilter::Info => 3,
        LevelFilter::Debug => 4,
        LevelFilter::Trace => 5,
    }
}

/// A record at level `l` passes a threshold `f` when `l` is at least as
/// severe as `f`, that is, no more verbose than `f`.
pub open spec fn level_passes(l: Level, f: LevelFilter) -> bool {
    level_verbosity(l) <= filter_verbosity(f)
}

/// The more permissive (more verbose) of two filters.
pub open spec fn filter_max(a: LevelFilter, b: LevelFilter) -> LevelFilter {
    if filter_verbosity(a) >= filter_verbosity(b) {
        a
    } else {
        b
    }
}

/// Verbosity rank of a level, executable form.
pub fn level_num(l: Level) -> (n: u8)
    ensures
        n as int == level_verbosity(l),
{
    match l {
        Level::Error => 1,
        Level::Warn => 2,
        Level::Info => 3,
        Level::Debug => 4,
        Level::Trace => 5,
    }
}

/// Verbosity rank of a filter, executable form.
pub fn filter_num(f: LevelFilter) -> (n: u8)
    ensures
        n as int == filter_verbosity(f),
{
    match f {
        LevelFilter::Off => 0,
        LevelFilter::Error => 1,
        LevelFilter::Warn => 2,
        LevelFilter::Info => 3,
        LevelFilter::Debug => 4,
        LevelFilter::Trace => 5,
    }
}

/// Whether a record at level `l` clears the threshold `f`.
pub fn passes(l: Level, f: LevelFilter) -> (r: bool)
    ensures
        r == level_passes(l, f),
{
    level_num(l) <= filter_num(f)
}

/// The more permissive of two filters, executable form.
pub fn max_filter(a: LevelFilter, b: LevelFilter) -> (r: LevelFilter)
    ensures
        r == filter_max(a, b),
{
    if filter_num(a) >= filter_num(b) {
        a
    } else {
        b
    }
}

} // verus!
