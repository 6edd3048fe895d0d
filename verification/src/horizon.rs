use vstd::prelude::*;

use crate::errors::ReserveError;

verus! {

/// Start of the fixed scheduling horizon, 2023-11-25T01:00:00Z, in epoch seconds.
pub const HORIZON_START_EPOCH: i64 = 1700874000;

/// End of the fixed scheduling horizon, 2024-11-25T01:00:00Z, in epoch seconds.
pub const HORIZON_END_EPOCH: i64 = 1732496400;

/// The half-open interval `[start_at, end_at)` intersects the scheduling
/// horizon `[HORIZON_START_EPOCH, HORIZON_END_EPOCH)`.
pub open spec fn within_horizon(start_at: i64, end_at: i64) -> bool {
    start_at < HORIZON_END_EPOCH && end_at > HORIZON_START_EPOCH
}

/// Relies on chrono's Gregorian-calendar arithmetic: renders the platform's
/// fixed one-year scheduling window, 2023-11-25T01:00:00Z to
/// 2024-11-25T01:00:00Z, as a pair of epoch-second timestamps.
#[verifier::external_body]
fn scheduling_horizon() -> (r: (i64, i64))
    ensures
        r.0 == HORIZON_START_EPOCH,
        r.1 == HORIZON_END_EPOCH,
{
    let first = chrono::NaiveDate::from_ymd_opt(2023, 11, 25).unwrap();
    let last = chrono::NaiveDate::from_ymd_opt(2024, 11, 25).unwrap();
    let start = chrono::TimeZone::from_utc_datetime(&chrono::Utc, &first.and_hms_opt(1, 0, 0).unwrap());
    let end = chrono::TimeZone::from_utc_datetime(&chrono::Utc, &last.and_hms_opt(1, 0, 0).unwrap());
    (start.timestamp(), end.timestamp())
}

/// The reservation validator: a pure boundary check of the requested interval
/// against the scheduling horizon, with no side effects.
///
/// A request starting at or after the horizon's end, or ending at or before
/// its start, is rejected. Zero-length and inverted intervals are a caller
/// error, ruled out upstream, and are excluded here explicitly rather than
/// silently accepted.
pub fn validate(start_at: i64, end_at: i64) -> (r: Result<(), ReserveError>)
    requires
        start_at < end_at,
    ensures
        r is Ok <==> within_horizon(start_at, end_at),
        r is Err ==> r->Err_0 == (ReserveError::OutsideHorizon { start_at, end_at }),
{
    let (horizon_start, horizon_end) = scheduling_horizon();
    if start_at >= horizon_end || end_at <= horizon_start {
        Err(ReserveError::OutsideHorizon { start_at, end_at })
    } else {
        Ok(())
    }
}

} // verus!
