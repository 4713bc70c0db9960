use photo_cache::error::AppError;
use photo_cache::track::{status_label, track_from_parts, PlaybackState, TrackDto};

#[test]
fn test_track_dto_structure() {
    let track = TrackDto {
        title: "Test Song".to_string(),
        artist: "Test Artist".to_string(),
        status: "Playing".to_string(),
    };

    assert_eq!(track.title, "Test Song");
    assert_eq!(track.artist, "Test Artist");
    assert_eq!(track.status, "Playing");
}

#[test]
fn test_playback_status_mapping() {
    let statuses = vec![
        (PlaybackState::Playing, "Playing"),
        (PlaybackState::Paused, "Paused"),
        (PlaybackState::Stopped, "Stopped"),
    ];

    for (status, expected) in statuses {
        let status_str = status_label(status);
        assert_eq!(status_str, expected);
    }
}

#[test]
fn test_no_player_error_variant_exists() {
    let err = AppError::NoPlayer;
    assert!(matches!(err, AppError::NoPlayer));
}

#[test]
fn track_dto_accepts_valid_statuses() {
    let statuses = vec!["Playing", "Paused", "Stopped"];

    for status in statuses {
        let track = TrackDto {
            title: "Test".to_string(),
            artist: "Test".to_string(),
            status: status.to_string(),
        };

        assert!(matches!(
            track.status.as_str(),
            "Playing" | "Paused" | "Stopped"
        ));
    }
}

#[test]
fn track_from_parts_keeps_reported_fields() {
    let track = track_from_parts(
        Some("Test Song".to_string()),
        Some("Test Artist".to_string()),
        PlaybackState::Playing,
    );
    assert_eq!(track.title, "Test Song");
    assert_eq!(track.artist, "Test Artist");
    assert_eq!(track.status, "Playing");
}

#[test]
fn track_from_parts_fills_missing_fields() {
    let track = track_from_parts(None, None, PlaybackState::Stopped);
    assert_eq!(track.title, "Unknown");
    assert_eq!(track.artist, "Unknown");
    assert_eq!(track.status, "Stopped");
}
