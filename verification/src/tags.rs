use vstd::prelude::*;

verus! {

/// The highest tag id the platform's catalog is known to hold. Requests may
/// carry ids above it; the writer stores them anyway (the linking is
/// deliberately lenient), and callers use this bound only to log the anomaly.
pub const MAX_CATALOG_TAG_ID: i64 = 103;

/// Some requested tag id lies above the known catalog range. Such a request
/// is still accepted; the caller reports the anomaly instead of failing.
pub fn has_tags_outside_catalog(tags: &Vec<i64>) -> (b: bool)
    ensures
        b == exists|i: int| 0 <= i < tags@.len() && #[trigger] tags@[i] > MAX_CATALOG_TAG_ID,
{
    let n: usize = tags.len();
    let mut i: usize = 0;
    while i < n
        invariant
            i <= n,
            n == tags@.len(),
            forall|j: int| 0 <= j < i ==> #[trigger] tags@[j] <= MAX_CATALOG_TAG_ID,
        decreases n - i,
    {
        if tags[i] > MAX_CATALOG_TAG_ID {
            return true;
        }
        i += 1;
    }
    false
}

} // verus!
