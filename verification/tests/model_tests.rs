use photo_cache::models::{candidate_from_parts, photo_path, stored_filename, PhotoDto, PhotoMetadata};

#[test]
fn test_photo_dto_structure() {
    let photo = PhotoDto {
        id: "test123".to_string(),
        url: "https://images.unsplash.com/photo-123".to_string(),
        photographer: "Test User".to_string(),
        profile_url: "https://unsplash.com/@testuser".to_string(),
    };

    assert_eq!(photo.id, "test123");
    assert_eq!(photo.url, "https://images.unsplash.com/photo-123");
    assert_eq!(photo.photographer, "Test User");
    assert_eq!(photo.profile_url, "https://unsplash.com/@testuser");
}

#[test]
fn metadata_duplicate_copies_every_field() {
    let metadata = PhotoMetadata {
        id: "abc123".to_string(),
        photographer: "Alice".to_string(),
        profile_url: "https://unsplash.com/@alice".to_string(),
        filename: "abc123.jpg".to_string(),
    };
    let copy = metadata.duplicate();
    assert_eq!(copy.id, "abc123");
    assert_eq!(copy.photographer, "Alice");
    assert_eq!(copy.profile_url, "https://unsplash.com/@alice");
    assert_eq!(copy.filename, "abc123.jpg");
}

#[test]
fn stored_filename_appends_the_extension() {
    assert_eq!(stored_filename("abc123"), "abc123.jpg");
    assert_eq!(stored_filename(""), ".jpg");
}

#[test]
fn photo_path_joins_directory_and_file() {
    assert_eq!(photo_path("/cache/photos", "abc123.jpg"), "/cache/photos/abc123.jpg");
}

#[test]
fn candidate_from_parts_keeps_given_fields() {
    let c = candidate_from_parts(
        Some("id1".to_string()),
        Some("https://img/id1".to_string()),
        Some("Bob".to_string()),
        Some("https://unsplash.com/@bob".to_string()),
    );
    assert_eq!(c.id, "id1");
    assert_eq!(c.download_url, "https://img/id1");
    assert_eq!(c.photographer, "Bob");
    assert_eq!(c.profile_url, "https://unsplash.com/@bob");
}

#[test]
fn candidate_from_parts_fills_missing_fields() {
    let c = candidate_from_parts(None, None, None, None);
    assert_eq!(c.id, "");
    assert_eq!(c.download_url, "");
    assert_eq!(c.photographer, "Unknown");
    assert_eq!(c.profile_url, "");
}
