use reservation_core::assemble::assemble;
use reservation_core::assemble::OwnerProfile;
use reservation_core::assemble::TagEntry;
use reservation_core::errors::ReserveError;
use reservation_core::horizon::validate;
use reservation_core::horizon::HORIZON_END_EPOCH;
use reservation_core::horizon::HORIZON_START_EPOCH;
use reservation_core::store::ReservationRequest;
use reservation_core::store::ReservationStore;
use reservation_core::tags::has_tags_outside_catalog;

fn store_with(slots: &[(i64, i64, i64)]) -> ReservationStore {
    let mut store = ReservationStore::new();
    for &(start_at, end_at, capacity) in slots {
        store.provision_slot(start_at, end_at, capacity);
    }
    store
}

fn request(start_at: i64, end_at: i64, tags: Vec<i64>) -> ReservationRequest {
    ReservationRequest {
        start_at,
        end_at,
        tags,
        title: String::from("title"),
        description: String::from("description"),
        playlist_url: String::from("https://example.com/playlist.m3u8"),
        thumbnail_url: String::from("https://example.com/thumbnail.jpg"),
    }
}

/// Overlap of a reservation with a slot interval, half-open on both sides.
fn overlapping_reservations(store: &ReservationStore, slot_start: i64, slot_end: i64) -> usize {
    store
        .reservations
        .iter()
        .filter(|r| slot_start < r.end_at && r.start_at < slot_end)
        .count()
}

#[test]
fn horizon_start_boundary_rejected() {
    // A request ending exactly at the horizon's start misses the window.
    let r = validate(1700874000 - 3600, 1700874000);
    assert_eq!(
        r,
        Err(ReserveError::OutsideHorizon {
            start_at: 1700874000 - 3600,
            end_at: 1700874000,
        })
    );
}

#[test]
fn horizon_end_boundary_rejected() {
    // A request starting exactly at the horizon's end misses the window.
    let r = validate(1732496400, 1732496400 + 3600);
    assert_eq!(
        r,
        Err(ReserveError::OutsideHorizon {
            start_at: 1732496400,
            end_at: 1732496400 + 3600,
        })
    );
}

#[test]
fn horizon_interior_accepted() {
    assert_eq!(validate(1700874000, 1700874000 + 3600), Ok(()));
    assert_eq!(validate(1732496400 - 3600, 1732496400), Ok(()));
    assert_eq!(validate(HORIZON_START_EPOCH, HORIZON_END_EPOCH), Ok(()));
}

#[test]
fn inside_horizon_with_capacity_accepted() {
    let start = HORIZON_START_EPOCH + 3600;
    let end = start + 3600;
    let mut store = store_with(&[(start, end, 1)]);
    let r = store.reserve(&request(start, end, vec![1, 2]), 42);
    let reservation = r.expect("a request inside the horizon with capacity is accepted");
    assert_eq!(reservation.user_id, 42);
    assert_eq!(reservation.start_at, start);
    assert_eq!(reservation.end_at, end);
    assert_eq!(store.slots[0].remaining, 0);
}

#[test]
fn two_slot_overlap_scenario() {
    // Two adjacent slots, one unit each. A request spanning both succeeds and
    // drains both; a straddling request is then rejected on the first of them.
    let mut store = store_with(&[(1000, 2000, 1), (2000, 3000, 1)]);
    assert_eq!(store.allocate(1000, 3000), Ok(()));
    assert_eq!(store.slots[0].remaining, 0);
    assert_eq!(store.slots[1].remaining, 0);
    let b = store.allocate(1500, 2500);
    assert_eq!(
        b,
        Err(ReserveError::CapacityExhausted {
            slot_start_at: 1000,
            slot_end_at: 2000,
            req_start_at: 1500,
            req_end_at: 2500,
        })
    );
    assert_eq!(store.slots[0].remaining, 0);
    assert_eq!(store.slots[1].remaining, 0);
}

#[test]
fn three_requests_two_units() {
    // One slot with two units; three requests each needing one unit of it:
    // exactly two are accepted, whatever the arrival order.
    let start = HORIZON_START_EPOCH;
    let end = start + 3600;
    for order in [[10i64, 20, 30], [30, 10, 20], [20, 30, 10]] {
        let mut store = store_with(&[(start, end, 2)]);
        let mut accepted = 0;
        let mut exhausted = 0;
        for owner_id in order {
            match store.reserve(&request(start, end, vec![]), owner_id) {
                Ok(_) => accepted += 1,
                Err(ReserveError::CapacityExhausted { .. }) => exhausted += 1,
                Err(other) => panic!("unexpected rejection: {other:?}"),
            }
        }
        assert_eq!(accepted, 2);
        assert_eq!(exhausted, 1);
        assert_eq!(store.slots[0].remaining, 0);
    }
}

#[test]
fn rejected_allocation_leaves_capacities_unchanged() {
    let mut store = store_with(&[(1000, 2000, 3), (2000, 3000, 0), (3000, 4000, 5)]);
    let before = store.slots.clone();
    let r = store.allocate(1500, 3500);
    assert!(matches!(r, Err(ReserveError::CapacityExhausted { .. })));
    assert_eq!(store.slots, before);
    assert!(store.reservations.is_empty());
    assert!(store.tag_links.is_empty());
}

#[test]
fn all_or_nothing_across_overlap() {
    // A request overlapping two slots is accepted only if both have a unit;
    // acceptance takes exactly one unit from each.
    let mut store = store_with(&[(1000, 2000, 2), (2000, 3000, 1)]);
    assert_eq!(store.allocate(1000, 3000), Ok(()));
    assert_eq!(store.slots[0].remaining, 1);
    assert_eq!(store.slots[1].remaining, 0);
    // The second slot is drained, so an overlapping request takes nothing
    // from the first slot either.
    let r = store.allocate(1000, 3000);
    assert_eq!(
        r,
        Err(ReserveError::CapacityExhausted {
            slot_start_at: 2000,
            slot_end_at: 3000,
            req_start_at: 1000,
            req_end_at: 3000,
        })
    );
    assert_eq!(store.slots[0].remaining, 1);
    assert_eq!(store.slots[1].remaining, 0);
}

#[test]
fn rejection_is_idempotent() {
    let start = HORIZON_START_EPOCH;
    let end = start + 3600;
    let mut store = store_with(&[(start, end, 0)]);
    let req = request(start, end, vec![1]);
    let first = store.reserve(&req, 7).unwrap_err();
    let second = store.reserve(&req, 7).unwrap_err();
    assert_eq!(first, second);
    assert!(matches!(first, ReserveError::CapacityExhausted { .. }));

    // The same holds for a horizon rejection.
    let out = request(HORIZON_END_EPOCH, HORIZON_END_EPOCH + 3600, vec![]);
    let first = store.reserve(&out, 7).unwrap_err();
    let second = store.reserve(&out, 7).unwrap_err();
    assert_eq!(first, second);
    assert!(matches!(first, ReserveError::OutsideHorizon { .. }));
}

#[test]
fn no_overbooking_under_repeated_attempts() {
    let start = HORIZON_START_EPOCH;
    let end = start + 3600;
    let mut store = store_with(&[(start, end, 3)]);
    let mut accepted = 0;
    for owner_id in 0..5 {
        if store.reserve(&request(start, end, vec![]), owner_id).is_ok() {
            accepted += 1;
        }
    }
    assert_eq!(accepted, 3);
    assert_eq!(overlapping_reservations(&store, start, end), 3);
    assert!(overlapping_reservations(&store, start, end) <= store.slots[0].provisioned as usize);
    assert_eq!(store.slots[0].remaining, 0);
}

#[test]
fn writer_records_reservation_and_tag_links() {
    let start = HORIZON_START_EPOCH + 7200;
    let end = start + 7200;
    let mut store = store_with(&[(start, end, 1)]);
    let req = request(start, end, vec![3, 1, 4]);
    let reservation = store.reserve(&req, 99).unwrap();
    assert_eq!(reservation.id, 1);
    assert_eq!(store.next_reservation_id, 2);
    assert_eq!(store.reservations.len(), 1);
    let stored = &store.reservations[0];
    assert_eq!(stored.id, 1);
    assert_eq!(stored.user_id, 99);
    assert_eq!(stored.title, "title");
    assert_eq!(stored.description, "description");
    assert_eq!(stored.playlist_url, "https://example.com/playlist.m3u8");
    assert_eq!(stored.thumbnail_url, "https://example.com/thumbnail.jpg");
    assert_eq!(stored.start_at, start);
    assert_eq!(stored.end_at, end);
    let linked: Vec<(i64, i64)> = store
        .tag_links
        .iter()
        .map(|l| (l.reservation_id, l.tag_id))
        .collect();
    assert_eq!(linked, vec![(1, 3), (1, 1), (1, 4)]);
}

#[test]
fn generated_ids_increase() {
    let start = HORIZON_START_EPOCH;
    let end = start + 3600;
    let mut store = store_with(&[(start, end, 2)]);
    let first = store.reserve(&request(start, end, vec![]), 1).unwrap();
    let second = store.reserve(&request(start, end, vec![]), 2).unwrap();
    assert_eq!(first.id, 1);
    assert_eq!(second.id, 2);
    assert_eq!(store.next_reservation_id, 3);
}

#[test]
fn empty_store_accepts_any_interval_inside_horizon() {
    let mut store = ReservationStore::new();
    let start = HORIZON_START_EPOCH;
    let r = store.reserve(&request(start, start + 60, vec![]), 5);
    assert!(r.is_ok());
    assert!(store.slots.is_empty());
    assert_eq!(store.reservations.len(), 1);
}

#[test]
fn lenient_tag_linking_stores_unknown_ids() {
    let start = HORIZON_START_EPOCH;
    let end = start + 3600;
    let mut store = store_with(&[(start, end, 1)]);
    let req = request(start, end, vec![9999]);
    assert!(has_tags_outside_catalog(&req.tags));
    let reservation = store.reserve(&req, 8).unwrap();
    assert_eq!(store.tag_links.len(), 1);
    assert_eq!(store.tag_links[0].reservation_id, reservation.id);
    assert_eq!(store.tag_links[0].tag_id, 9999);
}

#[test]
fn tags_outside_catalog_detection() {
    assert!(!has_tags_outside_catalog(&vec![]));
    assert!(!has_tags_outside_catalog(&vec![1, 50, 103]));
    assert!(has_tags_outside_catalog(&vec![1, 104]));
    assert!(has_tags_outside_catalog(&vec![104, 1]));
}

#[test]
fn assemble_composes_view() {
    let start = HORIZON_START_EPOCH;
    let end = start + 3600;
    let mut store = store_with(&[(start, end, 1)]);
    let reservation = store.reserve(&request(start, end, vec![2]), 11).unwrap();
    let owner = OwnerProfile {
        id: 11,
        name: String::from("streamer"),
        display_name: Some(String::from("Streamer")),
        description: None,
        theme_id: 4,
        theme_dark_mode: true,
        icon_hash: String::from("0f3a"),
    };
    let tag_list = vec![TagEntry {
        id: 2,
        name: String::from("music"),
    }];
    let view = assemble(reservation.clone(), owner.clone(), tag_list.clone());
    assert_eq!(view.id, reservation.id);
    assert_eq!(view.owner, owner);
    assert_eq!(view.title, reservation.title);
    assert_eq!(view.description, reservation.description);
    assert_eq!(view.playlist_url, reservation.playlist_url);
    assert_eq!(view.thumbnail_url, reservation.thumbnail_url);
    assert_eq!(view.tags, tag_list);
    assert_eq!(view.start_at, start);
    assert_eq!(view.end_at, end);
}
