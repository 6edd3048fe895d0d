use vstd::prelude::*;

use crate::store::Reservation;

verus! {

/// The owner's profile summary, supplied by the identity collaborator: the
/// principal's id, names, description, theme, and icon digest.
#[derive(Debug, Clone, PartialEq, Eq)]
pub struct OwnerProfile {
    pub id: i64,
    pub name: String,
    pub display_name: Option<String>,
    pub description: Option<String>,
    pub theme_id: i64,
    pub theme_dark_mode: bool,
    pub icon_hash: String,
}

/// One tag catalog entry, supplied by the tag catalog collaborator.
#[derive(Debug, Clone, PartialEq, Eq)]
pub struct TagEntry {
    pub id: i64,
    pub name: String,
}

/// The denormalized response view of a stored reservation: the record's own
/// fields with the owner summary and tag list in place of the foreign ids.
/// Listing and search endpoints consume the same shape.
#[derive(Debug, Clone, PartialEq, Eq)]
pub struct ReservationView {
    pub id: i64,
    pub owner: OwnerProfile,
    pub title: String,
    pub description: String,
    pub playlist_url: String,
    pub thumbnail_url: String,
    pub tags: Vec<TagEntry>,
    pub start_at: i64,
    pub end_at: i64,
}

/// The reservation assembler: read-only composition of a stored reservation
/// with its owner's profile summary and its tag list, for presentation. It
/// mutates nothing and may run once the write is committed.
pub fn assemble(reservation: Reservation, owner: OwnerProfile, tags: Vec<TagEntry>) -> (v:
    ReservationView)
    ensures
        v.id == reservation.id,
        v.owner == owner,
        v.title == reservation.title,
        v.description == reservation.description,
        v.playlist_url == reservation.playlist_url,
        v.thumbnail_url == reservation.thumbnail_url,
        v.tags == tags,
        v.start_at == reservation.start_at,
        v.end_at == reservation.end_at,
{
    ReservationView {
        id: reservation.id,
        owner: owner,
        title: reservation.title,
        description: reservation.description,
        playlist_url: reservation.playlist_url,
        thumbnail_url: reservation.thumbnail_url,
        tags: tags,
        start_at: reservation.start_at,
        end_at: reservation.end_at,
    }
}

} // verus!
