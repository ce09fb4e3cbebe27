//! When yt-dlp is due for an update.
//!
//! Reading the time of the last update and running the update are left to
//! the front end.

use vstd::prelude::*;
use crate::error::YtcsError;
use std::time::Duration;

verus! {

/// The whole seconds of a duration: what `Duration::as_secs` returns.
pub uninterp spec fn duration_secs(d: Duration) -> u64;

/// The nanoseconds of a duration beyond its whole seconds (always under a
/// billion): what `Duration::subsec_nanos` returns.
pub uninterp spec fn duration_nanos(d: Duration) -> u32;

/// Whether the duration `a` is at least as long as `b`: more whole
/// seconds, or as many and at least as many nanoseconds beyond them.
pub open spec fn duration_at_least_spec(a: Duration, b: Duration) -> bool {
    duration_secs(a) > duration_secs(b) || (duration_secs(a) == duration_secs(b) && duration_nanos(a)
        >= duration_nanos(b))
}

/// Calls `Duration::from_secs`: a duration of `secs` whole seconds and no
/// nanoseconds beyond them.
#[verifier::external_body]
fn duration_from_secs(secs: u64) -> (d: Duration)
    ensures
        duration_secs(d) == secs,
        duration_nanos(d) == 0,
{
    Duration::from_secs(secs)
}

/// Compares two durations with `>=`, which compares their lengths: the
/// whole seconds first, then the nanoseconds beyond them (each below a
/// second).
#[verifier::external_body]
fn duration_at_least(a: &Duration, b: &Duration) -> (r: bool)
    ensures
        r == duration_at_least_spec(*a, *b),
{
    *a >= *b
}

/// How often yt-dlp is updated.
pub struct UpdateConfig {
    /// The least time between two automatic update checks.
    pub min_update_interval: Duration,
    /// Whether to try an update when a download fails.
    pub force_on_failure: bool,
}

impl Default for UpdateConfig {
    /// A day between checks, and updates on failure.
    fn default() -> (r: Self)
        ensures
            duration_secs(r.min_update_interval) == 86400,
            duration_nanos(r.min_update_interval) == 0,
            r.force_on_failure,
    {
        UpdateConfig { min_update_interval: duration_from_secs(24 * 60 * 60), force_on_failure: true }
    }
}

/// Whether an update check is due, given the time since the last update
/// (`None` when there was none, or it cannot be told): with none, always;
/// else once the interval has passed.
pub fn should_check_for_update(config: &UpdateConfig, elapsed: Option<Duration>) -> (r: bool)
    ensures
        r == match elapsed {
            None => true,
            Some(e) => duration_at_least_spec(e, config.min_update_interval),
        },
{
    match elapsed {
        Some(e) => duration_at_least(&e, &config.min_update_interval),
        None => true,
    }
}

/// Whether to update now when asked: always when forced, else when a
/// check is due.
pub fn update_due(config: &UpdateConfig, force: bool, elapsed: Option<Duration>) -> (r: bool)
    ensures
        r == (force || match elapsed {
            None => true,
            Some(e) => duration_at_least_spec(e, config.min_update_interval),
        }),
{
    force || should_check_for_update(config, elapsed)
}

/// Whether a failed download calls for an update: it was a download error,
/// updates on failure are on, and a check is due.
pub fn update_after_failure(error: &YtcsError, config: &UpdateConfig, elapsed: Option<Duration>) -> (r: bool)
    ensures
        r == (error is DownloadError && config.force_on_failure && match elapsed {
            None => true,
            Some(e) => duration_at_least_spec(e, config.min_update_interval),
        }),
{
    let is_download_error = match error {
        YtcsError::DownloadError(_) => true,
        _ => false,
    };
    if !is_download_error || !config.force_on_failure {
        return false;
    }
    should_check_for_update(config, elapsed)
}

} // verus!
