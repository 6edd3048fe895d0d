use vstd::prelude::*;

use crate::errors::ReserveError;

verus! {

/// One pre-provisioned reservation slot: a fixed half-open time interval
/// `[start_at, end_at)` with a provisioned capacity and a remaining-capacity
/// counter. Slots are created at setup time and mutated only by the
/// allocator, which never lets `remaining` go below zero.
#[derive(Debug, Clone, Copy, PartialEq, Eq, Structural)]
pub struct Slot {
    pub start_at: i64,
    pub end_at: i64,
    /// The capacity the slot was provisioned with; never changes.
    pub provisioned: i64,
    /// The capacity still unclaimed; `provisioned` minus the accepted
    /// reservations that overlap this slot.
    pub remaining: i64,
}

/// The slot's interval intersects the half-open interval `[start_at, end_at)`.
pub open spec fn overlaps(slot: Slot, start_at: i64, end_at: i64) -> bool {
    slot.start_at < end_at && start_at < slot.end_at
}

/// Every slot that the interval `[start_at, end_at)` overlaps has at least
/// one unit of remaining capacity.
pub open spec fn all_available(slots: Seq<Slot>, start_at: i64, end_at: i64) -> bool {
    forall|i: int|
        0 <= i < slots.len() && overlaps(#[trigger] slots[i], start_at, end_at)
            ==> slots[i].remaining >= 1
}

/// The slot sequence after an accepted allocation of `[start_at, end_at)`:
/// every overlapped slot loses exactly one unit, every other slot is
/// untouched.
pub open spec fn after_allocation(slots: Seq<Slot>, start_at: i64, end_at: i64) -> Seq<Slot> {
    Seq::new(
        slots.len(),
        |i: int|
            if overlaps(slots[i], start_at, end_at) {
                Slot { remaining: (slots[i].remaining - 1) as i64, ..slots[i] }
            } else {
                slots[i]
            },
    )
}

/// The slot is overlapped by `[start_at, end_at)` and has no remaining
/// capacity, so it blocks the request.
pub open spec fn blocks(slot: Slot, start_at: i64, end_at: i64) -> bool {
    overlaps(slot, start_at, end_at) && slot.remaining < 1
}

/// Index of the first slot at or after position `from` that blocks the
/// request, or `slots.len()` if none does.
pub open spec fn first_blocking_from(slots: Seq<Slot>, start_at: i64, end_at: i64, from: int) -> int
    decreases slots.len() - from,
{
    if from < 0 || from >= slots.len() {
        slots.len() as int
    } else if blocks(slots[from], start_at, end_at) {
        from
    } else {
        first_blocking_from(slots, start_at, end_at, from + 1)
    }
}

/// The structured reason an allocation of `[start_at, end_at)` is refused:
/// the interval of the first slot with no remaining capacity among those the
/// request overlaps, together with the requested interval.
pub open spec fn capacity_rejection(slots: Seq<Slot>, start_at: i64, end_at: i64) -> ReserveError {
    let first = first_blocking_from(slots, start_at, end_at, 0);
    ReserveError::CapacityExhausted {
        slot_start_at: slots[first].start_at,
        slot_end_at: slots[first].end_at,
        req_start_at: start_at,
        req_end_at: end_at,
    }
}

impl Slot {
    /// The slot's interval intersects the half-open interval
    /// `[start_at, end_at)`.
    pub fn overlaps_interval(&self, start_at: i64, end_at: i64) -> (b: bool)
        ensures
            b == overlaps(*self, start_at, end_at),
    {
        self.start_at < end_at && start_at < self.end_at
    }
}

} // verus!
