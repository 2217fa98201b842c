//! The configuration of a dispatch and the two decisions taken from it:
//! which backend runs the work, and how long the caller waits.

use core::time::Duration;
use vstd::prelude::*;

verus! {

/// The profile used when a dispatch carries no configuration.
pub const DEFAULT_PROFILE: u8 = 0;

/// The time a duration spans, in nanoseconds, as `Duration::as_nanos` reports it.
pub uninterp spec fn span_nanos(d: Duration) -> nat;

/// `Duration::is_zero` answers `true` exactly for the duration that spans no
/// time. Nothing is proved of this; it restates the documentation of std.
pub assume_specification[ Duration::is_zero ](d: &Duration) -> (zero: bool)
    ensures
        zero == (span_nanos(*d) == 0),
;

/// Where and how long: the backend that runs the work and the wait bound.
///
/// A `timeout` that spans no time does not mean "fail at once": it stands for
/// a wait without limit.
#[derive(Debug)]
pub struct Context {
    pub profile: u8,
    pub timeout: Duration,
}

/// The profile a dispatch runs on: the configured one, or the default.
pub open spec fn profile_for(config: Option<Context>) -> u8 {
    match config {
        Some(c) => c.profile,
        None => DEFAULT_PROFILE,
    }
}

/// The wait bound of a dispatch: `None` is a wait without limit, which is what
/// both a missing configuration and a zero `timeout` ask for.
pub open spec fn wait_limit_for(config: Option<Context>) -> Option<Duration> {
    match config {
        Some(c) => if span_nanos(c.timeout) == 0 {
            None
        } else {
            Some(c.timeout)
        },
        None => None,
    }
}

/// Resolves the profile of a dispatch.
pub fn resolve_profile(config: &Option<Context>) -> (profile: u8)
    ensures
        profile == profile_for(*config),
{
    match config {
        Some(c) => c.profile,
        None => DEFAULT_PROFILE,
    }
}

/// Resolves the wait bound of a dispatch.
pub fn wait_limit(config: &Option<Context>) -> (limit: Option<Duration>)
    ensures
        limit == wait_limit_for(*config),
{
    match config {
        Some(c) => if c.timeout.is_zero() {
            None
        } else {
            Some(c.timeout)
        },
        None => None,
    }
}

/// A zero `timeout` waits exactly as a dispatch without configuration does,
/// whatever profile comes with it.
pub proof fn lemma_zero_timeout_is_no_limit(c: Context)
    requires
        span_nanos(c.timeout) == 0,
    ensures
        wait_limit_for(Some(c)) == wait_limit_for(None),
{
}

} // verus!
