//! The track description handed to the caller by the media-control bridge.
//! The bridge itself is an outside service; this module only shapes what it
//! reported into the caller-facing form.

use vstd::prelude::*;

verus! {

/// What the media player reported it is doing.
#[derive(Debug, Clone, Copy, PartialEq, Eq, Structural)]
pub enum PlaybackState {
    Playing,
    Paused,
    Stopped,
}

/// The track description handed to the caller.
#[derive(Debug, Clone)]
pub struct TrackDto {
    pub title: String,
    pub artist: String,
    pub status: String,
}

/// Model of a track description.
#[verifier::ext_equal]
pub struct TrackView {
    pub title: Seq<char>,
    pub artist: Seq<char>,
    pub status: Seq<char>,
}

impl View for TrackDto {
    type V = TrackView;

    open spec fn view(&self) -> TrackView {
        TrackView {
            title: self.title@,
            artist: self.artist@,
            status: self.status@,
        }
    }
}

/// The word each playback state is reported as.
pub open spec fn status_text(state: PlaybackState) -> Seq<char> {
    match state {
        PlaybackState::Playing => "Playing"@,
        PlaybackState::Paused => "Paused"@,
        PlaybackState::Stopped => "Stopped"@,
    }
}

/// The caller-facing word for a playback state.
pub fn status_label(state: PlaybackState) -> (r: String)
    ensures
        r@ == status_text(state),
{
    match state {
        PlaybackState::Playing => "Playing".to_owned(),
        PlaybackState::Paused => "Paused".to_owned(),
        PlaybackState::Stopped => "Stopped".to_owned(),
    }
}

/// Builds the track description from what the player reported: a missing
/// title or artist becomes "Unknown", and the playback state its word.
pub fn track_from_parts(
    title: Option<String>,
    artist: Option<String>,
    state: PlaybackState,
) -> (t: TrackDto)
    ensures
        t.title@ == (match title {
            Some(s) => s@,
            None => "Unknown"@,
        }),
        t.artist@ == (match artist {
            Some(s) => s@,
            None => "Unknown"@,
        }),
        t.status@ == status_text(state),
{
    TrackDto {
        title: match title {
            Some(s) => s,
            None => "Unknown".to_owned(),
        },
        artist: match artist {
            Some(s) => s,
            None => "Unknown".to_owned(),
        },
        status: status_label(state),
    }
}

} // verus!
