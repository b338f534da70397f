//! Error taxonomy of the configuration layer.

use vstd::prelude::*;

verus! {

/// An error raised while building a resolved configuration.
///
/// `UnknownVariant` comes from parsing an enumerated choice out of a string
/// that matches no declared token. `ScheduleComputationFailure` is defensive:
/// it is raised only if the external FRI-schedule computation hands back an
/// absent step list, which its contract rules out for positive step counts.
#[derive(Debug, Clone, PartialEq)]
pub enum ConfigError {
    UnknownVariant { enum_type: String, token: String },
    ScheduleComputationFailure,
}

} // verus!
