use vstd::prelude::*;

verus! {

/// The stable rejection categories that the reservation core reports, so a
/// caller can distinguish "invalid input" from "window unavailable" without
/// parsing storage error text.
///
/// `OutsideHorizon` carries the requested interval. `CapacityExhausted`
/// carries the first conflicting slot's interval together with the requested
/// interval, so the caller can report which window is unavailable.
#[derive(Debug, Clone, Copy, PartialEq, Eq, Structural)]
pub enum ReserveError {
    OutsideHorizon { start_at: i64, end_at: i64 },
    CapacityExhausted {
        slot_start_at: i64,
        slot_end_at: i64,
        req_start_at: i64,
        req_end_at: i64,
    },
}

} // verus!
