//! The refresh state machine. A refresh walks one batch of provider
//! candidates in order, skipping duplicates and candidates without a
//! download link, and admits at most one download at a time; a record is
//! appended only after the caller reports the payload written to disk.
//! The machine enforces the capacity bound and the identifier discipline;
//! the caller performs the downloads and file writes between steps.

use vstd::prelude::*;
use crate::catalog::{MAX_PHOTOS, has_id, unique_ids};
use crate::error::AppError;
use crate::models::{
    Candidate, CandidateView, DtoView, PhotoDto, PhotoMetadata, RecordView, candidates_view,
    dto_of_record, dtos_view, photo_path, record_of_candidate, records_view, stored_filename,
};
use crate::sampler::sample_view;
use vstd::pervasive::unreached;

verus! {

/// How many candidates one refresh asks the provider for, and how many
/// cached items a fallback serves.
pub const BATCH_SIZE: usize = 10;

/// Whether a candidate may be admitted against the given catalog: it has
/// an identifier not yet taken, and a download link.
pub open spec fn eligible(c: CandidateView, cat: Seq<RecordView>) -> bool {
    &&& c.id.len() > 0
    &&& !has_id(cat, c.id)
    &&& c.download_url.len() > 0
}

/// One refresh in progress: the working catalog, the items admitted so
/// far, and the batch of candidates still to be walked.
pub struct RefreshBatch {
    records: Vec<PhotoMetadata>,
    new_items: Vec<PhotoDto>,
    candidates: Vec<Candidate>,
    next: usize,
    pending: Option<Candidate>,
    dir: String,
    base: Ghost<Seq<RecordView>>,
}

impl RefreshBatch {
    /// The working catalog: the pre-existing records followed by those
    /// admitted in this refresh.
    pub closed spec fn catalog(self) -> Seq<RecordView> {
        records_view(self.records@)
    }

    /// The items admitted by this refresh so far, in admission order.
    pub closed spec fn fresh_items(self) -> Seq<DtoView> {
        dtos_view(self.new_items@)
    }

    /// The batch of candidates this refresh walks.
    pub closed spec fn offered(self) -> Seq<CandidateView> {
        candidates_view(self.candidates@)
    }

    /// How many candidates have been examined.
    pub closed spec fn position(self) -> int {
        self.next as int
    }

    /// The candidate whose download the caller was asked for, if any.
    pub closed spec fn pending_view(self) -> Option<CandidateView> {
        match self.pending {
            Some(c) => Some(c@),
            None => None,
        }
    }

    /// The cache directory items are resolved against.
    pub closed spec fn dir_view(self) -> Seq<char> {
        self.dir@
    }

    /// The catalog as it stood when the refresh began.
    pub closed spec fn base_view(self) -> Seq<RecordView> {
        self.base@
    }

    /// The machine's invariant: the catalog is bounded and duplicate-free,
    /// holds the starting records as an untouched prefix, and each admitted
    /// item mirrors the record appended for it.
    pub closed spec fn wf(self) -> bool {
        &&& self.catalog().len() <= MAX_PHOTOS
        &&& unique_ids(self.catalog())
        &&& self.next <= self.candidates@.len()
        &&& self.base@.len() <= self.catalog().len()
        &&& self.catalog().take(self.base@.len() as int) == self.base@
        &&& self.new_items@.len() + self.base@.len() == self.catalog().len()
        &&& self.fresh_items() == crate::sampler::dtos_of_records(
            self.catalog().skip(self.base@.len() as int),
            self.dir@,
        )
        &&& (match self.pending {
            Some(c) => {
                &&& 1 <= self.next <= self.candidates@.len()
                &&& c@ == self.offered()[self.next - 1]
                &&& eligible(c@, self.catalog())
                &&& self.catalog().len() < MAX_PHOTOS
            },
            None => true,
        })
    }

    /// Starts a refresh over the catalog as loaded and one batch of
    /// provider candidates. The catalog must be within its bound and
    /// duplicate-free, as every catalog this library produces is.
    pub fn begin_refresh(existing: Vec<PhotoMetadata>, candidates: Vec<Candidate>, dir: String)
        -> (b: RefreshBatch)
        requires
            existing@.len() <= MAX_PHOTOS,
            unique_ids(records_view(existing@)),
        ensures
            b.wf(),
            b.catalog() == records_view(existing@),
            b.base_view() == records_view(existing@),
            b.fresh_items() == Seq::<DtoView>::empty(),
            b.offered() == candidates_view(candidates@),
            b.position() == 0,
            b.pending_view() is None,
            b.dir_view() == dir@,
    {
        let ghost base = records_view(existing@);
        let b = RefreshBatch {
            records: existing,
            new_items: Vec::new(),
            candidates,
            next: 0,
            pending: None,
            dir,
            base: Ghost(base),
        };
        proof {
            assert(b.catalog().take(base.len() as int) =~= base);
            assert(b.fresh_items() =~= Seq::<DtoView>::empty());
            assert(b.fresh_items() =~= crate::sampler::dtos_of_records(
                b.catalog().skip(base.len() as int),
                b.dir@,
            ));
        }
        b
    }

    /// Advances to the next candidate whose download should be attempted:
    /// the first not yet examined that has a fresh identifier and a
    /// download link — provided the catalog still has room. Returns `None`
    /// when the batch is exhausted or the catalog is full; the skipped
    /// candidates were all ineligible.
    pub fn next_candidate(&mut self) -> (r: Option<Candidate>)
        requires
            old(self).wf(),
            old(self).pending_view() is None,
        ensures
            final(self).wf(),
            final(self).catalog() == old(self).catalog(),
            final(self).fresh_items() == old(self).fresh_items(),
            final(self).offered() == old(self).offered(),
            final(self).base_view() == old(self).base_view(),
            final(self).dir_view() == old(self).dir_view(),
            old(self).position() <= final(self).position() <= final(self).offered().len(),
            match r {
                Some(c) => {
                    &&& final(self).pending_view() == Some(c@)
                    &&& old(self).position() < final(self).position()
                    &&& c@ == final(self).offered()[final(self).position() - 1]
                    &&& eligible(c@, final(self).catalog())
                    &&& final(self).catalog().len() < MAX_PHOTOS
                    &&& (forall|k: int|
                        old(self).position() <= k < final(self).position() - 1 ==> !eligible(
                            #[trigger] final(self).offered()[k],
                            final(self).catalog(),
                        ))
                },
                None => {
                    &&& final(self).pending_view() is None
                    &&& ((final(self).catalog().len() >= MAX_PHOTOS && final(self).position()
                        == old(self).position()) || (final(self).position()
                        == final(self).offered().len() && (forall|k: int|
                        old(self).position() <= k < final(self).offered().len() ==> !eligible(
                            #[trigger] final(self).offered()[k],
                            final(self).catalog(),
                        ))))
                },
            },
    {
        if self.records.len() >= MAX_PHOTOS {
            return None;
        }
        let ghost start = self.next as int;
        while self.next < self.candidates.len()
            invariant
                old(self).wf(),
                self.records == old(self).records,
                self.new_items == old(self).new_items,
                self.candidates == old(self).candidates,
                self.dir == old(self).dir,
                self.base == old(self).base,
                self.pending is None,
                start == old(self).position(),
                start <= self.next <= self.candidates@.len(),
                self.records@.len() < MAX_PHOTOS,
                forall|k: int|
                    start <= k < self.next ==> !eligible(
                        #[trigger] candidates_view(self.candidates@)[k],
                        records_view(self.records@),
                    ),
            decreases self.candidates@.len() - self.next,
        {
            let c = self.candidates[self.next].duplicate();
            self.next += 1;
            let id_ok = !c.id.as_str().is_empty();
            let dup = crate::catalog::contains_id(&self.records, &c.id);
            let url_ok = !c.download_url.as_str().is_empty();
            if id_ok && !dup && url_ok {
                let returned = c.duplicate();
                self.pending = Some(c);
                proof {
                    assert(candidates_view(self.candidates@).len() == self.candidates@.len());
                    assert(candidates_view(self.candidates@)[self.next - 1]
                        == self.candidates@[self.next - 1]@);
                    assert(eligible(returned@, records_view(self.records@)));
                    assert(self.catalog().len() == self.records@.len());
                }
                return Some(returned);
            }
            proof {
                assert(!eligible(candidates_view(self.candidates@)[self.next - 1],
                    records_view(self.records@)));
            }
        }
        None
    }

    /// Records that the pending candidate's payload was downloaded and
    /// written to its file: the record is appended to the catalog and the
    /// derived item to this refresh's results.
    pub fn record_success(&mut self)
        requires
            old(self).wf(),
            old(self).pending_view() is Some,
        ensures
            final(self).wf(),
            ({
                let c = old(self).pending_view().unwrap();
                &&& final(self).catalog() == old(self).catalog().push(record_of_candidate(c))
                &&& final(self).fresh_items() == old(self).fresh_items().push(
                    dto_of_record(record_of_candidate(c), old(self).dir_view()),
                )
            }),
            final(self).pending_view() is None,
            final(self).offered() == old(self).offered(),
            final(self).position() == old(self).position(),
            final(self).base_view() == old(self).base_view(),
            final(self).dir_view() == old(self).dir_view(),
            final(self).catalog().len() <= MAX_PHOTOS,
    {
        let c = match &self.pending {
            Some(c0) => c0.duplicate(),
            None => unreached(),
        };
        self.pending = None;
        let filename = stored_filename(c.id.as_str());
        let url = photo_path(self.dir.as_str(), filename.as_str());
        let dto = PhotoDto {
            id: c.id.clone(),
            url,
            photographer: c.photographer.clone(),
            profile_url: c.profile_url.clone(),
        };
        let rec = PhotoMetadata {
            id: c.id,
            photographer: c.photographer,
            profile_url: c.profile_url,
            filename,
        };
        proof {
            assert(rec@ == record_of_candidate(c@));
            assert(dto@ == dto_of_record(record_of_candidate(c@), self.dir@));
        }
        self.records.push(rec);
        self.new_items.push(dto);
        proof {
            let oldcat = old(self).catalog();
            let b = self.base@.len() as int;
            assert(self.catalog() =~= oldcat.push(record_of_candidate(c@)));
            assert(self.fresh_items() =~= old(self).fresh_items().push(
                dto_of_record(record_of_candidate(c@), self.dir@),
            ));
            assert(self.catalog().skip(b) =~= oldcat.skip(b).push(record_of_candidate(c@)));
            assert(crate::sampler::dtos_of_records(self.catalog().skip(b), self.dir@)
                =~= crate::sampler::dtos_of_records(oldcat.skip(b), self.dir@).push(
                dto_of_record(record_of_candidate(c@), self.dir@),
            ));
            assert forall|i: int, j: int| 0 <= i < j < self.catalog().len() implies self.catalog()[i].id
                != self.catalog()[j].id by {
                if j == self.catalog().len() - 1 {
                    assert(!has_id(oldcat, c@.id));
                    assert(oldcat[i].id != c@.id);
                }
            }
            assert(self.catalog().take(self.base@.len() as int) =~= oldcat.take(
                self.base@.len() as int,
            ));
        }
    }

    /// Records that the pending candidate's download or file write failed:
    /// the candidate is skipped and the batch goes on.
    pub fn record_failure(&mut self)
        requires
            old(self).wf(),
            old(self).pending_view() is Some,
        ensures
            final(self).wf(),
            final(self).catalog() == old(self).catalog(),
            final(self).fresh_items() == old(self).fresh_items(),
            final(self).offered() == old(self).offered(),
            final(self).position() == old(self).position(),
            final(self).base_view() == old(self).base_view(),
            final(self).dir_view() == old(self).dir_view(),
            final(self).pending_view() is None,
    {
        self.pending = None;
    }

    /// Ends the walk, handing back the working catalog to persist and the
    /// items admitted by this refresh. What goes to disk is within the
    /// bound and free of duplicate identifiers.
    pub fn finish(self) -> (r: (Vec<PhotoMetadata>, Vec<PhotoDto>))
        requires
            self.wf(),
        ensures
            records_view(r.0@) == self.catalog(),
            dtos_view(r.1@) == self.fresh_items(),
            r.0@.len() <= MAX_PHOTOS,
            unique_ids(records_view(r.0@)),
    {
        (self.records, self.new_items)
    }
}

/// Law: a well-formed refresh never lets the catalog outgrow its bound,
/// however many steps were taken.
pub proof fn lemma_catalog_bounded(b: RefreshBatch)
    requires
        b.wf(),
    ensures
        b.catalog().len() <= MAX_PHOTOS,
{
}

/// Law: a well-formed refresh keeps the catalog free of duplicate
/// identifiers.
pub proof fn lemma_catalog_ids_unique(b: RefreshBatch)
    requires
        b.wf(),
    ensures
        unique_ids(b.catalog()),
{
}

/// Law: a refresh only appends — the records the catalog held when the
/// refresh began are still there, first and in their old order.
pub proof fn lemma_existing_records_kept(b: RefreshBatch)
    requires
        b.wf(),
    ensures
        b.base_view().len() <= b.catalog().len(),
        b.catalog().take(b.base_view().len() as int) == b.base_view(),
{
}

/// Decides what a refresh returns once its fetch phase is over. The items
/// admitted in this refresh win when there are any; otherwise the caller
/// falls back to a sample of what was already cached before the fetch, and
/// only an empty fallback is an error — the one error a refresh can raise.
pub fn finish_refresh(
    new_items: Vec<PhotoDto>,
    existing: &Vec<PhotoMetadata>,
    present: &Vec<bool>,
    dir: &str,
    seed: usize,
) -> (r: Result<Vec<PhotoDto>, AppError>)
    requires
        present@.len() == existing@.len(),
    ensures
        ({
            let fallback = sample_view(records_view(existing@), present@, dir@, seed as int,
                BATCH_SIZE as int);
            match r {
                Ok(items) => {
                    &&& (new_items@.len() > 0 ==> items == new_items)
                    &&& (new_items@.len() == 0 ==> dtos_view(items@) == fallback && fallback.len()
                        > 0)
                },
                Err(e) => {
                    &&& new_items@.len() == 0
                    &&& fallback.len() == 0
                    &&& (e matches AppError::Cache(m)
                        && m@ == "No photos available: network unreachable and cache is empty"@)
                },
            }
        }),
{
    if new_items.len() > 0 {
        return Ok(new_items);
    }
    let cached = crate::sampler::get_cached_sample(existing, present, dir, seed, BATCH_SIZE);
    if cached.len() == 0 {
        proof {
            assert(dtos_view(cached@).len() == 0);
        }
        Err(AppError::Cache(
            "No photos available: network unreachable and cache is empty".to_owned(),
        ))
    } else {
        proof {
            assert(dtos_view(cached@).len() == cached@.len());
        }
        Ok(cached)
    }
}

} // verus!
