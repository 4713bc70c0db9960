//! The catalog: the ordered collection of persisted records, its identifier
//! discipline, and the recovery rule applied when loading it from disk.

use vstd::prelude::*;
use crate::models::{PhotoMetadata, RecordView};

verus! {

/// Upper bound on the number of records the catalog may hold.
pub const MAX_PHOTOS: usize = 1000;

/// Whether some record in the catalog carries the given identifier.
pub open spec fn has_id(cat: Seq<RecordView>, id: Seq<char>) -> bool {
    exists|k: int| 0 <= k < cat.len() && cat[k].id == id
}

/// Whether no two records of the catalog share an identifier.
pub open spec fn unique_ids(cat: Seq<RecordView>) -> bool {
    forall|i: int, j: int| 0 <= i < j < cat.len() ==> cat[i].id != cat[j].id
}

/// The catalog recovered from a load attempt: whatever was read and decoded
/// when that succeeded, and the empty catalog when the file was missing,
/// unreadable or malformed. Loading never fails.
pub fn load_catalog(parsed: Option<Vec<PhotoMetadata>>) -> (r: Vec<PhotoMetadata>)
    ensures
        match parsed {
            Some(entries) => r@ == entries@,
            None => r@.len() == 0,
        },
{
    match parsed {
        Some(entries) => entries,
        None => Vec::new(),
    }
}

/// Whether the catalog has reached its capacity bound, in which case a
/// refresh serves from disk and makes no network request.
pub fn cache_is_full(records: &Vec<PhotoMetadata>) -> (r: bool)
    ensures
        r == (records@.len() >= MAX_PHOTOS),
{
    records.len() >= MAX_PHOTOS
}

/// Whether the given identifier is already taken by a record.
pub fn contains_id(records: &Vec<PhotoMetadata>, id: &String) -> (r: bool)
    ensures
        r == has_id(crate::models::records_view(records@), id@),
{
    let ghost cat = crate::models::records_view(records@);
    let mut k: usize = 0;
    while k < records.len()
        invariant
            k <= records@.len(),
            cat == crate::models::records_view(records@),
            forall|m: int| 0 <= m < k ==> cat[m].id != id@,
        decreases records@.len() - k,
    {
        if records[k].id.eq(id) {
            assert(cat[k as int].id == id@);
            return true;
        }
        k += 1;
    }
    false
}

} // verus!
