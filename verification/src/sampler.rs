//! The rotating sample served to readers: the records whose backing file is
//! present, walked cyclically from a seed-derived offset. The seed is
//! injected by the caller (typically a clock reading), so the selection is
//! deterministic for a given seed and varies across calls.

use vstd::prelude::*;
use crate::models::{
    PhotoMetadata, PhotoDto, RecordView, DtoView, records_view, dtos_view, dto_of_record,
    photo_path,
};
use crate::catalog::unique_ids;

verus! {

/// The records whose backing file is present, in catalog order.
pub open spec fn valid_view(entries: Seq<RecordView>, present: Seq<bool>) -> Seq<RecordView>
    decreases entries.len(),
{
    if entries.len() == 0 {
        Seq::empty()
    } else {
        let rest = valid_view(entries.drop_last(), present.drop_last());
        if present[entries.len() - 1] {
            rest.push(entries.last())
        } else {
            rest
        }
    }
}

/// The sequence walked cyclically from `off`: the tail from `off` on,
/// followed by the head before it.
pub open spec fn rotated(valid: Seq<RecordView>, off: int) -> Seq<RecordView> {
    valid.skip(off) + valid.take(off)
}

/// The items derived from the records, element for element.
pub open spec fn dtos_of_records(s: Seq<RecordView>, dir: Seq<char>) -> Seq<DtoView> {
    s.map_values(|r: RecordView| dto_of_record(r, dir))
}

/// What a sample returns: at most `count` of the valid records, in rotated
/// order starting at `seed % valid.len()`, each resolved against `dir`;
/// nothing when no record is valid.
pub open spec fn sample_view(
    entries: Seq<RecordView>,
    present: Seq<bool>,
    dir: Seq<char>,
    seed: int,
    count: int,
) -> Seq<DtoView> {
    let valid = valid_view(entries, present);
    if valid.len() == 0 {
        Seq::empty()
    } else {
        let off = seed % (valid.len() as int);
        let n = if count < valid.len() { count } else { valid.len() as int };
        dtos_of_records(rotated(valid, off).take(n), dir)
    }
}

/// Where a rotated sequence's entries come from.
pub proof fn lemma_rotated_index(valid: Seq<RecordView>, off: int, k: int)
    requires
        0 <= off < valid.len(),
        0 <= k < valid.len(),
    ensures
        rotated(valid, off)[k] == (if off + k < valid.len() {
            valid[off + k]
        } else {
            valid[off + k - valid.len()]
        }),
{
}

/// Every valid record is one of the entries, at a position marked present.
pub proof fn lemma_valid_view_membership(entries: Seq<RecordView>, present: Seq<bool>, j: int)
    requires
        present.len() == entries.len(),
        0 <= j < valid_view(entries, present).len(),
    ensures
        exists|m: int|
            0 <= m < entries.len() && present[m] && entries[m] == valid_view(entries, present)[j],
    decreases entries.len(),
{
    let valid = valid_view(entries, present);
    if entries.len() == 0 {
    } else {
        let rest = valid_view(entries.drop_last(), present.drop_last());
        if present[entries.len() - 1] && j == valid.len() - 1 {
            assert(valid[j] == entries[entries.len() - 1]);
        } else {
            lemma_valid_view_membership(entries.drop_last(), present.drop_last(), j);
            let m = choose|m: int|
                0 <= m < entries.drop_last().len() && present.drop_last()[m]
                    && entries.drop_last()[m] == rest[j];
            assert(entries[m] == valid[j]);
        }
    }
}

/// The set of identifiers appearing in a sequence of returned items.
pub open spec fn id_set(items: Seq<DtoView>) -> Set<Seq<char>> {
    Set::new(|id: Seq<char>| exists|k: int| 0 <= k < items.len() && items[k].id == id)
}

/// The set of identifiers appearing in a sequence of records.
pub open spec fn record_id_set(records: Seq<RecordView>) -> Set<Seq<char>> {
    Set::new(|id: Seq<char>| exists|k: int| 0 <= k < records.len() && records[k].id == id)
}

/// A sample large enough to cover every valid record returns exactly the
/// valid records' identifiers, whatever the seed.
pub proof fn lemma_full_sample_ids(
    entries: Seq<RecordView>,
    present: Seq<bool>,
    dir: Seq<char>,
    seed: int,
    count: int,
)
    requires
        present.len() == entries.len(),
        seed >= 0,
        count >= valid_view(entries, present).len(),
    ensures
        id_set(sample_view(entries, present, dir, seed, count)) == record_id_set(
            valid_view(entries, present),
        ),
{
    let valid = valid_view(entries, present);
    let s = sample_view(entries, present, dir, seed, count);
    if valid.len() == 0 {
        assert(id_set(s) =~= record_id_set(valid));
    } else {
        let n = valid.len() as int;
        let off = seed % n;
        let rs = rotated(valid, off);
        assert(s.len() == n);
        assert forall|id: Seq<char>| id_set(s).contains(id) implies record_id_set(
            valid,
        ).contains(id) by {
            let k = choose|k: int| 0 <= k < s.len() && s[k].id == id;
            lemma_rotated_index(valid, off, k);
            if off + k < n {
                assert(valid[off + k].id == id);
            } else {
                assert(valid[off + k - n].id == id);
            }
        }
        assert forall|id: Seq<char>| record_id_set(valid).contains(id) implies id_set(
            s,
        ).contains(id) by {
            let m = choose|m: int| 0 <= m < valid.len() && valid[m].id == id;
            let k = if m >= off {
                m - off
            } else {
                m - off + n
            };
            lemma_rotated_index(valid, off, k);
            assert(s[k].id == id);
        }
        assert(id_set(s) =~= record_id_set(valid));
    }
}

/// Law: reading twice without an intervening refresh returns the same set
/// of identifiers; only the rotation offset may differ between the calls.
pub proof fn lemma_read_idempotent(
    entries: Seq<RecordView>,
    present: Seq<bool>,
    dir: Seq<char>,
    seed1: int,
    seed2: int,
    count: int,
)
    requires
        present.len() == entries.len(),
        seed1 >= 0,
        seed2 >= 0,
        count >= valid_view(entries, present).len(),
    ensures
        id_set(sample_view(entries, present, dir, seed1, count)) == id_set(
            sample_view(entries, present, dir, seed2, count),
        ),
{
    lemma_full_sample_ids(entries, present, dir, seed1, count);
    lemma_full_sample_ids(entries, present, dir, seed2, count);
}

/// Law: a record whose backing file is absent contributes nothing to a
/// sample — its identifier never appears among the returned items — while
/// the record itself stays untouched in the catalog the sample was drawn
/// from.
pub proof fn lemma_absent_record_excluded(
    entries: Seq<RecordView>,
    present: Seq<bool>,
    dir: Seq<char>,
    seed: int,
    count: int,
    i: int,
)
    requires
        present.len() == entries.len(),
        unique_ids(entries),
        0 <= i < entries.len(),
        !present[i],
        seed >= 0,
        count >= 0,
    ensures
        forall|k: int|
            0 <= k < sample_view(entries, present, dir, seed, count).len()
                ==> #[trigger] sample_view(entries, present, dir, seed, count)[k].id
                != entries[i].id,
{
    let valid = valid_view(entries, present);
    let s = sample_view(entries, present, dir, seed, count);
    if valid.len() > 0 {
        let n = valid.len() as int;
        let off = seed % n;
        let rs = rotated(valid, off);
        let tn = if count < n {
            count
        } else {
            n
        };
        assert(rs.len() == n);
        assert(s.len() == tn);
        assert forall|k: int| 0 <= k < s.len() implies s[k].id != entries[i].id by {
            lemma_rotated_index(valid, off, k);
            let j = if off + k < n {
                off + k
            } else {
                off + k - n
            };
            assert(s[k].id == valid[j].id);
            lemma_valid_view_membership(entries, present, j);
            let m = choose|m: int|
                0 <= m < entries.len() && present[m] && entries[m] == valid[j];
            if m < i {
                assert(entries[m].id != entries[i].id);
            } else {
                assert(m != i);
                assert(entries[i].id != entries[m].id);
            }
        }
    }
}

/// Returns up to `count` items over the records whose backing file is
/// present, walking cyclically from an offset derived from `seed`. The
/// caller states in `present`, position for position, whether each record's
/// stored file exists; records marked absent are left out of the result but
/// are not touched in `entries`.
pub fn get_cached_sample(
    entries: &Vec<PhotoMetadata>,
    present: &Vec<bool>,
    dir: &str,
    seed: usize,
    count: usize,
) -> (r: Vec<PhotoDto>)
    requires
        present@.len() == entries@.len(),
    ensures
        dtos_view(r@) == sample_view(records_view(entries@), present@, dir@, seed as int,
            count as int),
{
    let ghost ents = records_view(entries@);
    let ghost vv = valid_view(ents, present@);

    let mut valid: Vec<PhotoMetadata> = Vec::new();
    let mut i: usize = 0;
    while i < entries.len()
        invariant
            i <= entries@.len(),
            present@.len() == entries@.len(),
            ents == records_view(entries@),
            records_view(valid@) == valid_view(ents.take(i as int), present@.take(i as int)),
        decreases entries@.len() - i,
    {
        proof {
            assert(ents.take(i + 1).drop_last() =~= ents.take(i as int));
            assert(present@.take(i + 1).drop_last() =~= present@.take(i as int));
        }
        if present[i] {
            let rec = entries[i].duplicate();
            valid.push(rec);
        }
        proof {
            assert(records_view(valid@) =~= valid_view(ents.take(i + 1), present@.take(i + 1)));
        }
        i += 1;
    }
    proof {
        assert(ents.take(entries@.len() as int) =~= ents);
        assert(present@.take(entries@.len() as int) =~= present@);
        assert(records_view(valid@) == vv);
    }

    if valid.len() == 0 {
        let r: Vec<PhotoDto> = Vec::new();
        proof {
            assert(dtos_view(r@) =~= sample_view(ents, present@, dir@, seed as int,
                count as int));
        }
        return r;
    }

    let n = valid.len();
    let off = seed % n;
    let take_n = if count < n { count } else { n };
    let ghost rot = rotated(vv, off as int);

    let mut out: Vec<PhotoDto> = Vec::new();
    let mut idx = off;
    let mut j: usize = 0;
    while j < take_n
        invariant
            j <= take_n,
            take_n <= n,
            n == valid@.len(),
            n > 0,
            off == seed as int % (n as int),
            off < n,
            records_view(valid@) == vv,
            rot == rotated(vv, off as int),
            idx as int == (if off + j < n {
                off + j
            } else {
                off + j - n
            }),
            idx < n,
            out@.len() == j,
            forall|k: int| 0 <= k < j ==> #[trigger] out@[k]@ == dto_of_record(rot[k], dir@),
        decreases take_n - j,
    {
        proof {
            lemma_rotated_index(vv, off as int, j as int);
            assert(rot[j as int] == vv[idx as int]);
        }
        let rec = &valid[idx];
        let url = photo_path(dir, rec.filename.as_str());
        let dto = PhotoDto {
            id: rec.id.clone(),
            url,
            photographer: rec.photographer.clone(),
            profile_url: rec.profile_url.clone(),
        };
        proof {
            assert(valid@[idx as int]@ == vv[idx as int]);
            assert(dto@ == dto_of_record(vv[idx as int], dir@));
        }
        out.push(dto);
        idx += 1;
        if idx == n {
            idx = 0;
        }
        j += 1;
    }
    proof {
        let goal = sample_view(ents, present@, dir@, seed as int, count as int);
        assert forall|k: int| 0 <= k < take_n implies dtos_view(out@)[k] == goal[k] by {
            assert(dtos_view(out@)[k] == out@[k]@);
            assert(goal[k] == dto_of_record(rot.take(take_n as int)[k], dir@));
        }
        assert(dtos_view(out@) =~= goal);
    }
    out
}

} // verus!
