use music_id::errors::AppError;
use music_id::models::Piece;
use music_id::text::contains_substring;
use music_id::text::i32_to_string;
use music_id::text::u32_to_string;

fn piece(id: i32, title: &str, artist: &str, path: &str, file_size: u32) -> Piece {
    Piece { id, title: title.to_owned(), artist: artist.to_owned(), file_path: path.to_owned(), file_size }
}

#[test]
fn records_with_equal_ids_are_equal_whatever_else_differs() {
    let a = piece(7, "Title A", "Artist A", "/a.mp3", 100);
    let b = piece(7, "Title B", "Artist B", "/b.mp3", 999);
    assert!(a == b);
    assert!(!(a != b));
}

#[test]
fn records_with_different_ids_are_never_equal() {
    let a = piece(7, "Same", "Same", "/same.mp3", 100);
    let b = piece(8, "Same", "Same", "/same.mp3", 100);
    assert!(a != b);
    assert!(!(a == b));
}

#[test]
fn describe_renders_id_title_artist_and_path() {
    let p = piece(7, "Moon River", "Mancini", "/media/7.mp3", 100);
    assert_eq!(p.describe(), "7: Moon River by Mancini at /media/7.mp3");
    let n = piece(-3, "X", "Y", "/x", 1);
    assert_eq!(n.describe(), "-3: X by Y at /x");
}

#[test]
fn error_tiers_follow_the_two_level_taxonomy() {
    assert!(AppError::InvalidRange.is_client_error());
    assert!(AppError::NoMatch.is_client_error());
    assert!(AppError::InsufficientData.is_client_error());
    assert!(!AppError::StorageError.is_client_error());
    assert!(!AppError::IoError.is_client_error());
    assert_eq!(AppError::InvalidRange.status_code(), 400);
    assert_eq!(AppError::NoMatch.status_code(), 400);
    assert_eq!(AppError::InsufficientData.status_code(), 400);
    assert_eq!(AppError::StorageError.status_code(), 500);
    assert_eq!(AppError::IoError.status_code(), 500);
}

#[test]
fn server_error_messages_hide_detail() {
    assert_eq!(AppError::StorageError.message(), "Internal Server Error");
    assert_eq!(AppError::IoError.message(), "Internal Server Error");
    assert!(AppError::InvalidRange.message().starts_with("Bad Request"));
    assert!(AppError::NoMatch.message().starts_with("Bad Request"));
    assert!(AppError::InsufficientData.message().starts_with("Bad Request"));
}

#[test]
fn decimal_rendering_matches_the_usual_notation() {
    assert_eq!(u32_to_string(0), "0");
    assert_eq!(u32_to_string(500), "500");
    assert_eq!(u32_to_string(4_294_967_295), "4294967295");
    assert_eq!(i32_to_string(0), "0");
    assert_eq!(i32_to_string(42), "42");
    assert_eq!(i32_to_string(-1), "-1");
    assert_eq!(i32_to_string(i32::MIN), "-2147483648");
    assert_eq!(i32_to_string(i32::MAX), "2147483647");
}

#[test]
fn substring_search_finds_inner_occurrences() {
    assert!(contains_substring("Moonlight Sonata", "light"));
    assert!(contains_substring("Moonlight Sonata", "Moonlight Sonata"));
    assert!(contains_substring("Moonlight Sonata", ""));
    assert!(contains_substring("aaab", "aab"));
    assert!(!contains_substring("Moonlight", "moon"));
    assert!(!contains_substring("abc", "abcd"));
    assert!(contains_substring("Champs-Elysees a Paris", "a P"));
}
