use vstd::prelude::*;

verus! {

#[verifier::external_type_specification]
pub struct ExLevelFilter(log::LevelFilter);

/// The log level that a command-line verbosity count (`-v`, `-vv`, ...) selects.
pub open spec fn level_for_verbosity(verbosity: u8) -> log::LevelFilter {
    if verbosity == 0 {
        log::LevelFilter::Error
    } else if verbosity == 1 {
        log::LevelFilter::Info
    } else if verbosity == 2 {
        log::LevelFilter::Debug
    } else {
        log::LevelFilter::Trace
    }
}

/// Maps the verbosity count to a log level: none gives errors only, one gives
/// info, two debug, and three or more trace.
pub fn configure_logging(verbosity: u8) -> (r: log::LevelFilter)
    ensures
        r == level_for_verbosity(verbosity),
{
    match verbosity {
        0 => log::LevelFilter::Error,
        1 => log::LevelFilter::Info,
        2 => log::LevelFilter::Debug,
        _ => log::LevelFilter::Trace,
    }
}

} // verus!
