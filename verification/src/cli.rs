//! The settings of the command line that come down to a rule.

use vstd::prelude::*;

verus! {

/// The form in which a command prints its result.
#[derive(Clone, Copy, Debug, PartialEq, Eq, Structural)]
pub enum OutputFormats {
    Text,
    Json,
}

impl OutputFormats {
    /// The name of the format on the command line.
    pub open spec fn spec_name(self) -> Seq<char> {
        match self {
            OutputFormats::Text => "text"@,
            OutputFormats::Json => "json"@,
        }
    }

    /// The name of the format on the command line.
    pub fn name(&self) -> (name: &'static str)
        ensures
            name@ == self.spec_name(),
    {
        match self {
            OutputFormats::Text => "text",
            OutputFormats::Json => "json",
        }
    }
}

impl Default for OutputFormats {
    /// Text, unless asked otherwise.
    fn default() -> (format: OutputFormats)
        ensures
            format == OutputFormats::Text,
    {
        OutputFormats::Text
    }
}

/// The log filter for a verbosity level.
pub open spec fn filter_for(verbose: u8) -> Seq<char> {
    if verbose == 0 {
        "none"@
    } else if verbose == 1 {
        "none,nebu=info"@
    } else if verbose == 2 {
        "none,nebu=debug"@
    } else {
        "none,nebu=trace"@
    }
}

/// The log filter for the number of times `-v` was given: nothing, then
/// info, debug and, from three on, trace.
pub fn log_filter(verbose: u8) -> (filter: &'static str)
    ensures
        filter@ == filter_for(verbose),
{
    match verbose {
        0 => "none",
        1 => "none,nebu=info",
        2 => "none,nebu=debug",
        _ => "none,nebu=trace",
    }
}

/// Whether to warn that the environment overrides the verbosity asked for:
/// a filter is set there and `-v` was given at least once.
pub fn verbosity_overridden(filter_in_environment: bool, verbose: u8) -> (warn: bool)
    ensures
        warn == (filter_in_environment && verbose > 0),
{
    filter_in_environment && verbose > 0
}

} // verus!
