//! The error type surfaced by the cache and the media-control bridge.

use vstd::prelude::*;
use vstd::string::StringExecFns;

verus! {

/// Everything a caller can be told went wrong. Only `Cache` is ever
/// produced by the cache's own policy ("no items available"); the other
/// variants carry failures of the outside services through unchanged.
#[derive(Debug, Clone)]
pub enum AppError {
    /// A failure of the remote photo provider or its transport.
    Unsplash(String),
    /// A failure of the media-player control bridge.
    Mpris(String),
    /// No active media player was found.
    NoPlayer,
    /// A failure of the local photo cache.
    Cache(String),
}

/// The message a given error describes itself with.
pub open spec fn message_of(e: AppError) -> Seq<char> {
    match e {
        AppError::Unsplash(m) => "Unsplash API error: "@ + m@,
        AppError::Mpris(m) => "MPRIS error: "@ + m@,
        AppError::NoPlayer => "No music player found"@,
        AppError::Cache(m) => "Cache error: "@ + m@,
    }
}

impl AppError {
    /// The human-readable description of the error.
    pub fn message(&self) -> (r: String)
        ensures
            r@ == message_of(*self),
    {
        match self {
            AppError::Unsplash(m) => {
                let mut s = "Unsplash API error: ".to_owned();
                s.append(m.as_str());
                s
            },
            AppError::Mpris(m) => {
                let mut s = "MPRIS error: ".to_owned();
                s.append(m.as_str());
                s
            },
            AppError::NoPlayer => "No music player found".to_owned(),
            AppError::Cache(m) => {
                let mut s = "Cache error: ".to_owned();
                s.append(m.as_str());
                s
            },
        }
    }
}

} // verus!
