//! The data carried through the cache: persisted records, the items handed
//! to callers, the candidates offered by the remote provider, and the track
//! description of the media-control bridge.

use vstd::prelude::*;
use vstd::string::StringExecFns;

verus! {

/// One persisted catalog entry describing a photo stored on disk.
#[derive(Debug, Clone)]
pub struct PhotoMetadata {
    pub id: String,
    pub photographer: String,
    pub profile_url: String,
    pub filename: String,
}

/// Model of a catalog entry: its fields as character sequences.
#[verifier::ext_equal]
pub struct RecordView {
    pub id: Seq<char>,
    pub photographer: Seq<char>,
    pub profile_url: Seq<char>,
    pub filename: Seq<char>,
}

impl View for PhotoMetadata {
    type V = RecordView;

    open spec fn view(&self) -> RecordView {
        RecordView {
            id: self.id@,
            photographer: self.photographer@,
            profile_url: self.profile_url@,
            filename: self.filename@,
        }
    }
}

/// The item handed to a caller: record fields plus a resolved path.
#[derive(Debug, Clone)]
pub struct PhotoDto {
    pub id: String,
    pub url: String,
    pub photographer: String,
    pub profile_url: String,
}

/// Model of a returned item.
#[verifier::ext_equal]
pub struct DtoView {
    pub id: Seq<char>,
    pub url: Seq<char>,
    pub photographer: Seq<char>,
    pub profile_url: Seq<char>,
}

impl View for PhotoDto {
    type V = DtoView;

    open spec fn view(&self) -> DtoView {
        DtoView {
            id: self.id@,
            url: self.url@,
            photographer: self.photographer@,
            profile_url: self.profile_url@,
        }
    }
}

/// A candidate item offered by the remote provider, before download.
#[derive(Debug, Clone)]
pub struct Candidate {
    pub id: String,
    pub download_url: String,
    pub photographer: String,
    pub profile_url: String,
}

/// Model of a provider candidate.
#[verifier::ext_equal]
pub struct CandidateView {
    pub id: Seq<char>,
    pub download_url: Seq<char>,
    pub photographer: Seq<char>,
    pub profile_url: Seq<char>,
}

impl View for Candidate {
    type V = CandidateView;

    open spec fn view(&self) -> CandidateView {
        CandidateView {
            id: self.id@,
            download_url: self.download_url@,
            photographer: self.photographer@,
            profile_url: self.profile_url@,
        }
    }
}

/// The models of a sequence of records, element for element.
pub open spec fn records_view(s: Seq<PhotoMetadata>) -> Seq<RecordView> {
    s.map_values(|r: PhotoMetadata| r@)
}

/// The models of a sequence of returned items, element for element.
pub open spec fn dtos_view(s: Seq<PhotoDto>) -> Seq<DtoView> {
    s.map_values(|d: PhotoDto| d@)
}

/// The models of a sequence of candidates, element for element.
pub open spec fn candidates_view(s: Seq<Candidate>) -> Seq<CandidateView> {
    s.map_values(|c: Candidate| c@)
}

/// The item derived from a record: the same attribution, and the record's
/// file resolved against the cache directory.
pub open spec fn dto_of_record(r: RecordView, dir: Seq<char>) -> DtoView {
    DtoView {
        id: r.id,
        url: dir + "/"@ + r.filename,
        photographer: r.photographer,
        profile_url: r.profile_url,
    }
}

/// The record created for a candidate once its payload is on disk: the
/// candidate's attribution, stored under `<id>.jpg`.
pub open spec fn record_of_candidate(c: CandidateView) -> RecordView {
    RecordView {
        id: c.id,
        photographer: c.photographer,
        profile_url: c.profile_url,
        filename: c.id + ".jpg"@,
    }
}

impl PhotoMetadata {
    /// A field-for-field copy of the record.
    pub fn duplicate(&self) -> (r: PhotoMetadata)
        ensures
            r@ == self@,
    {
        PhotoMetadata {
            id: self.id.clone(),
            photographer: self.photographer.clone(),
            profile_url: self.profile_url.clone(),
            filename: self.filename.clone(),
        }
    }
}

impl Candidate {
    /// A field-for-field copy of the candidate.
    pub fn duplicate(&self) -> (r: Candidate)
        ensures
            r@ == self@,
    {
        Candidate {
            id: self.id.clone(),
            download_url: self.download_url.clone(),
            photographer: self.photographer.clone(),
            profile_url: self.profile_url.clone(),
        }
    }
}

/// The file name a candidate's payload is stored under.
pub fn stored_filename(id: &str) -> (r: String)
    ensures
        r@ == id@ + ".jpg"@,
{
    let mut s = id.to_owned();
    s.append(".jpg");
    s
}

/// The full path of a stored file inside the cache directory.
pub fn photo_path(dir: &str, filename: &str) -> (r: String)
    ensures
        r@ == dir@ + "/"@ + filename@,
{
    let mut s = dir.to_owned();
    s.append("/");
    s.append(filename);
    s
}

/// Builds a candidate from the provider's fields as they came in, filling
/// an absent identifier or link with the empty string and an absent
/// photographer name with "Unknown".
pub fn candidate_from_parts(
    id: Option<String>,
    download_url: Option<String>,
    photographer: Option<String>,
    profile_url: Option<String>,
) -> (c: Candidate)
    ensures
        c.id@ == (match id {
            Some(s) => s@,
            None => ""@,
        }),
        c.download_url@ == (match download_url {
            Some(s) => s@,
            None => ""@,
        }),
        c.photographer@ == (match photographer {
            Some(s) => s@,
            None => "Unknown"@,
        }),
        c.profile_url@ == (match profile_url {
            Some(s) => s@,
            None => ""@,
        }),
{
    Candidate {
        id: match id {
            Some(s) => s,
            None => "".to_owned(),
        },
        download_url: match download_url {
            Some(s) => s,
            None => "".to_owned(),
        },
        photographer: match photographer {
            Some(s) => s,
            None => "Unknown".to_owned(),
        },
        profile_url: match profile_url {
            Some(s) => s,
            None => "".to_owned(),
        },
    }
}

} // verus!
