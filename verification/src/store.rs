use vstd::prelude::*;

use crate::errors::ReserveError;
use crate::horizon::within_horizon;
use crate::horizon::validate;
use crate::slots::Slot;
use crate::slots::all_available;
use crate::slots::after_allocation;
use crate::slots::blocks;
use crate::slots::capacity_rejection;
use crate::slots::first_blocking_from;

verus! {

/// A reservation request: the transient input to one reservation attempt.
/// The interval is in epoch seconds with `start_at < end_at`, guaranteed
/// upstream; the tag ids and descriptive metadata are opaque to the core.
#[derive(Debug, Clone, PartialEq, Eq)]
pub struct ReservationRequest {
    pub start_at: i64,
    pub end_at: i64,
    pub tags: Vec<i64>,
    pub title: String,
    pub description: String,
    pub playlist_url: String,
    pub thumbnail_url: String,
}

/// An accepted reservation, immutable once written: the generated id, the
/// owning principal, the reserved interval, and the descriptive metadata.
#[derive(Debug, Clone, PartialEq, Eq)]
pub struct Reservation {
    pub id: i64,
    pub user_id: i64,
    pub title: String,
    pub description: String,
    pub playlist_url: String,
    pub thumbnail_url: String,
    pub start_at: i64,
    pub end_at: i64,
}

/// One tag-association row: a reservation linked to one tag id.
#[derive(Debug, Clone, Copy, PartialEq, Eq, Structural)]
pub struct TagLink {
    pub reservation_id: i64,
    pub tag_id: i64,
}

/// The reservation record the writer persists for `req`, owned by
/// `owner_id`, under the generated id `id`.
pub open spec fn reservation_record(req: ReservationRequest, owner_id: i64, id: i64) -> Reservation {
    Reservation {
        id: id,
        user_id: owner_id,
        title: req.title,
        description: req.description,
        playlist_url: req.playlist_url,
        thumbnail_url: req.thumbnail_url,
        start_at: req.start_at,
        end_at: req.end_at,
    }
}

/// The tag-association rows the writer persists for `req` under the
/// generated reservation id `id`, in request order.
pub open spec fn tag_links_of(req: ReservationRequest, id: i64) -> Seq<TagLink> {
    Seq::new(req.tags@.len(), |i: int| TagLink { reservation_id: id, tag_id: req.tags@[i] })
}

/// The reservation's interval intersects the half-open slot interval
/// `[slot_start_at, slot_end_at)`, so it consumes one unit of that slot.
pub open spec fn consumes(r: Reservation, slot_start_at: i64, slot_end_at: i64) -> bool {
    slot_start_at < r.end_at && r.start_at < slot_end_at
}

/// How many of the reservations overlap the slot interval: the units of that
/// slot's capacity they together consume.
pub open spec fn consumed_units(rs: Seq<Reservation>, slot_start_at: i64, slot_end_at: i64) -> int
    decreases rs.len(),
{
    if rs.len() == 0 {
        0
    } else {
        consumed_units(rs.drop_last(), slot_start_at, slot_end_at)
            + if consumes(rs.last(), slot_start_at, slot_end_at) {
                1int
            } else {
                0int
            }
    }
}

/// Appending one reservation adds one consumed unit to exactly the slot
/// intervals it overlaps.
pub proof fn lemma_consumed_units_push(
    rs: Seq<Reservation>,
    r: Reservation,
    slot_start_at: i64,
    slot_end_at: i64,
)
    ensures
        consumed_units(rs.push(r), slot_start_at, slot_end_at) == consumed_units(
            rs,
            slot_start_at,
            slot_end_at,
        ) + if consumes(r, slot_start_at, slot_end_at) {
            1int
        } else {
            0int
        },
{
    assert(rs.push(r).drop_last() =~= rs);
    assert(rs.push(r).last() == r);
}

/// The decision the core takes on a request against the given slot state:
/// `None` to accept, otherwise the rejection it reports. The decision is a
/// pure function of the slot state and the requested interval.
pub open spec fn reserve_rejection(slots: Seq<Slot>, start_at: i64, end_at: i64) -> Option<
    ReserveError,
> {
    if !within_horizon(start_at, end_at) {
        Some(ReserveError::OutsideHorizon { start_at, end_at })
    } else if !all_available(slots, start_at, end_at) {
        Some(capacity_rejection(slots, start_at, end_at))
    } else {
        None
    }
}

/// The slot as it leaves provisioning: full capacity, nothing consumed.
pub open spec fn fresh_slot(start_at: i64, end_at: i64, capacity: i64) -> Slot {
    Slot { start_at, end_at, provisioned: capacity, remaining: capacity }
}

/// The slot capacity store together with the reservation table it guards.
///
/// A caller holds the store exclusively for the whole of one reservation
/// attempt, which is what the store's row locks provide in a relational
/// deployment; under that discipline the well-formedness invariant `wf`
/// carries the no-overbooking guarantee through every interleaving.
pub struct ReservationStore {
    pub slots: Vec<Slot>,
    pub reservations: Vec<Reservation>,
    pub tag_links: Vec<TagLink>,
    pub next_reservation_id: i64,
}

impl ReservationStore {
    /// The store's invariant: no slot's remaining capacity is negative, and
    /// for every slot, remaining capacity plus the units consumed by accepted
    /// overlapping reservations equals the provisioned capacity. Generated
    /// ids stay below the next id to be handed out.
    pub open spec fn wf(self) -> bool {
        &&& forall|i: int|
            0 <= i < self.slots@.len() ==> (#[trigger] self.slots@[i]).remaining >= 0
        &&& forall|i: int|
            0 <= i < self.slots@.len() ==> (#[trigger] self.slots@[i]).remaining + consumed_units(
                self.reservations@,
                self.slots@[i].start_at,
                self.slots@[i].end_at,
            ) == self.slots@[i].provisioned
        &&& forall|i: int|
            0 <= i < self.reservations@.len() ==> (#[trigger] self.reservations@[i]).id
                < self.next_reservation_id
        &&& 1 <= self.next_reservation_id
    }

    /// An empty store: no slots, no reservations; generated ids start at 1.
    pub fn new() -> (s: ReservationStore)
        ensures
            s.wf(),
            s.slots@.len() == 0,
            s.reservations@.len() == 0,
            s.tag_links@.len() == 0,
            s.next_reservation_id == 1,
    {
        ReservationStore {
            slots: Vec::new(),
            reservations: Vec::new(),
            tag_links: Vec::new(),
            next_reservation_id: 1,
        }
    }

    /// Provisions one slot. Slots are created at setup time, before any
    /// reservation has been taken, and never afterwards.
    pub fn provision_slot(&mut self, start_at: i64, end_at: i64, capacity: i64)
        requires
            old(self).wf(),
            old(self).reservations@.len() == 0,
            capacity >= 0,
        ensures
            final(self).wf(),
            final(self).slots@ == old(self).slots@.push(fresh_slot(start_at, end_at, capacity)),
            final(self).reservations == old(self).reservations,
            final(self).tag_links == old(self).tag_links,
            final(self).next_reservation_id == old(self).next_reservation_id,
    {
        self.slots.push(Slot { start_at, end_at, provisioned: capacity, remaining: capacity });
    }

    /// Scans for the first slot that the requested interval overlaps and that
    /// has no remaining capacity: the read-only check half of the allocator.
    fn find_blocking(&self, start_at: i64, end_at: i64) -> (r: Option<usize>)
        ensures
            r is Some ==> r->Some_0 < self.slots@.len() && blocks(
                self.slots@[r->Some_0 as int],
                start_at,
                end_at,
            ) && r->Some_0 as int == first_blocking_from(self.slots@, start_at, end_at, 0),
            r is None ==> all_available(self.slots@, start_at, end_at),
    {
        let n: usize = self.slots.len();
        let mut i: usize = 0;
        while i < n
            invariant
                n == self.slots@.len(),
                i <= n,
                forall|j: int| 0 <= j < i ==> !blocks(#[trigger] self.slots@[j], start_at, end_at),
                first_blocking_from(self.slots@, start_at, end_at, 0) == first_blocking_from(
                    self.slots@,
                    start_at,
                    end_at,
                    i as int,
                ),
            decreases n - i,
        {
            let slot: Slot = self.slots[i];
            if slot.overlaps_interval(start_at, end_at) && slot.remaining < 1 {
                return Some(i);
            }
            assert(first_blocking_from(self.slots@, start_at, end_at, i as int)
                == first_blocking_from(self.slots@, start_at, end_at, i as int + 1));
            i += 1;
        }
        None
    }

    /// The capacity allocator: locates every slot the requested interval
    /// overlaps, verifies each has remaining capacity, and decrements all of
    /// them by exactly one unit or none at all.
    ///
    /// The request is accepted if and only if every overlapped slot has at
    /// least one unit left at decision time; a rejection identifies the first
    /// conflicting slot and leaves the store untouched.
    ///
    /// This is the first half of the reservation transaction: the units it
    /// takes are owed a reservation row, which `reserve` writes before it
    /// hands the store back.
    #[verifier::loop_isolation(false)]
    pub fn allocate(&mut self, start_at: i64, end_at: i64) -> (r: Result<(), ReserveError>)
        ensures
            final(self).reservations == old(self).reservations,
            final(self).tag_links == old(self).tag_links,
            final(self).next_reservation_id == old(self).next_reservation_id,
            r is Ok <==> all_available(old(self).slots@, start_at, end_at),
            r is Ok ==> final(self).slots@ == after_allocation(old(self).slots@, start_at, end_at),
            r is Err ==> final(self).slots == old(self).slots,
            r is Err ==> r->Err_0 == capacity_rejection(old(self).slots@, start_at, end_at),
    {
        match self.find_blocking(start_at, end_at) {
            Some(i) => {
                let slot: Slot = self.slots[i];
                Err(ReserveError::CapacityExhausted {
                    slot_start_at: slot.start_at,
                    slot_end_at: slot.end_at,
                    req_start_at: start_at,
                    req_end_at: end_at,
                })
            },
            None => {
                let n: usize = self.slots.len();
                let mut i: usize = 0;
                while i < n
                    invariant
                        i <= n,
                        self.slots@.len() == n,
                        self.reservations == old(self).reservations,
                        self.tag_links == old(self).tag_links,
                        self.next_reservation_id == old(self).next_reservation_id,
                        forall|j: int| i <= j < n ==> self.slots@[j] == old(self).slots@[j],
                        forall|j: int|
                            0 <= j < i ==> self.slots@[j] == after_allocation(
                                old(self).slots@,
                                start_at,
                                end_at,
                            )[j],
                    decreases n - i,
                {
                    let slot: Slot = self.slots[i];
                    if slot.overlaps_interval(start_at, end_at) {
                        let updated = Slot {
                            start_at: slot.start_at,
                            end_at: slot.end_at,
                            provisioned: slot.provisioned,
                            remaining: slot.remaining - 1,
                        };
                        self.slots.set(i, updated);
                    }
                    i += 1;
                }
                proof {
                    assert(self.slots@ =~= after_allocation(old(self).slots@, start_at, end_at));
                }
                Ok(())
            },
        }
    }

    /// The reservation writer: persists the accepted reservation row under a
    /// fresh generated id and one tag-association row per requested tag id,
    /// in the same transaction as the allocation that made room for it. It
    /// does no capacity bookkeeping of its own.
    ///
    /// Tag ids are deliberately not validated against the catalog: an
    /// unknown id is stored as an opaque foreign value.
    #[verifier::loop_isolation(false)]
    pub fn write_reservation(&mut self, req: &ReservationRequest, owner_id: i64) -> (id: i64)
        requires
            old(self).next_reservation_id < i64::MAX,
        ensures
            id == old(self).next_reservation_id,
            final(self).next_reservation_id == old(self).next_reservation_id + 1,
            final(self).slots == old(self).slots,
            final(self).reservations@ == old(self).reservations@.push(
                reservation_record(*req, owner_id, id),
            ),
            final(self).tag_links@ == old(self).tag_links@ + tag_links_of(*req, id),
    {
        let id: i64 = self.next_reservation_id;
        self.next_reservation_id = id + 1;
        self.reservations.push(
            Reservation {
                id: id,
                user_id: owner_id,
                title: req.title.clone(),
                description: req.description.clone(),
                playlist_url: req.playlist_url.clone(),
                thumbnail_url: req.thumbnail_url.clone(),
                start_at: req.start_at,
                end_at: req.end_at,
            },
        );
        let n: usize = req.tags.len();
        let mut i: usize = 0;
        proof {
            assert(self.tag_links@ =~= old(self).tag_links@ + tag_links_of(*req, id).subrange(
                0,
                0,
            ));
        }
        while i < n
            invariant
                i <= n,
                n == req.tags@.len(),
                self.slots == old(self).slots,
                self.next_reservation_id == old(self).next_reservation_id + 1,
                id == old(self).next_reservation_id,
                self.reservations@ == old(self).reservations@.push(
                    reservation_record(*req, owner_id, id),
                ),
                self.tag_links@ == old(self).tag_links@ + tag_links_of(*req, id).subrange(
                    0,
                    i as int,
                ),
            decreases n - i,
        {
            self.tag_links.push(TagLink { reservation_id: id, tag_id: req.tags[i] });
            proof {
                assert(self.tag_links@ =~= old(self).tag_links@ + tag_links_of(
                    *req,
                    id,
                ).subrange(0, i as int + 1));
            }
            i += 1;
        }
        proof {
            assert(tag_links_of(*req, id).subrange(0, n as int) =~= tag_links_of(*req, id));
        }
        id
    }

    /// Reserve a broadcast window: the whole transaction. Validates the
    /// requested interval against the scheduling horizon, atomically checks
    /// and decrements capacity across every overlapped slot, and persists the
    /// reservation row with its tag links.
    ///
    /// The request is accepted exactly when the core's decision on the prior
    /// slot state accepts it; any rejection reports that decision and leaves
    /// the store byte-for-byte as it was.
    pub fn reserve(&mut self, req: &ReservationRequest, owner_id: i64) -> (r: Result<
        Reservation,
        ReserveError,
    >)
        requires
            old(self).wf(),
            old(self).next_reservation_id < i64::MAX,
            req.start_at < req.end_at,
        ensures
            final(self).wf(),
            r is Ok <==> reserve_rejection(old(self).slots@, req.start_at, req.end_at) is None,
            r is Err ==> *final(self) == *old(self),
            r is Err ==> Some(r->Err_0) == reserve_rejection(
                old(self).slots@,
                req.start_at,
                req.end_at,
            ),
            r is Ok ==> r->Ok_0 == reservation_record(
                *req,
                owner_id,
                old(self).next_reservation_id,
            ),
            r is Ok ==> final(self).slots@ == after_allocation(
                old(self).slots@,
                req.start_at,
                req.end_at,
            ),
            r is Ok ==> final(self).reservations@ == old(self).reservations@.push(r->Ok_0),
            r is Ok ==> final(self).tag_links@ == old(self).tag_links@ + tag_links_of(
                *req,
                old(self).next_reservation_id,
            ),
            r is Ok ==> final(self).next_reservation_id == old(self).next_reservation_id + 1,
    {
        if let Err(e) = validate(req.start_at, req.end_at) {
            return Err(e);
        }
        if let Err(e) = self.allocate(req.start_at, req.end_at) {
            return Err(e);
        }
        let id: i64 = self.write_reservation(req, owner_id);
        proof {
            let prior_slots = old(self).slots@;
            let prior_rs = old(self).reservations@;
            let rec = reservation_record(*req, owner_id, id);
            assert forall|i: int| 0 <= i < self.slots@.len() implies {
                &&& (#[trigger] self.slots@[i]).remaining >= 0
                &&& self.slots@[i].remaining + consumed_units(
                    self.reservations@,
                    self.slots@[i].start_at,
                    self.slots@[i].end_at,
                ) == self.slots@[i].provisioned
            } by {
                assert(prior_slots[i].remaining >= 0);
                lemma_consumed_units_push(
                    prior_rs,
                    rec,
                    prior_slots[i].start_at,
                    prior_slots[i].end_at,
                );
            }
        }
        Ok(
            Reservation {
                id: id,
                user_id: owner_id,
                title: req.title.clone(),
                description: req.description.clone(),
                playlist_url: req.playlist_url.clone(),
                thumbnail_url: req.thumbnail_url.clone(),
                start_at: req.start_at,
                end_at: req.end_at,
            },
        )
    }
}

/// No overbooking: in a well-formed store, the accepted reservations that
/// overlap a slot never consume more than the slot's provisioned capacity,
/// however many allocation attempts have run against it.
pub proof fn lemma_no_overbooking(store: ReservationStore, i: int)
    requires
        store.wf(),
        0 <= i < store.slots@.len(),
    ensures
        consumed_units(store.reservations@, store.slots@[i].start_at, store.slots@[i].end_at)
            <= store.slots@[i].provisioned,
{
}

/// Idempotence of rejection: the core's decision is a pure function of the
/// slot state and the requested interval, so repeating a rejected request
/// against unchanged slot state yields the very same rejection.
pub proof fn lemma_rejection_idempotent(
    earlier: Seq<Slot>,
    later: Seq<Slot>,
    start_at: i64,
    end_at: i64,
)
    requires
        reserve_rejection(earlier, start_at, end_at) is Some,
        later == earlier,
    ensures
        reserve_rejection(later, start_at, end_at) == reserve_rejection(earlier, start_at, end_at),
{
}

} // verus!
