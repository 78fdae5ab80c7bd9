use music_id::errors::AppError;
use music_id::models::Piece;
use music_id::query::list_all;
use music_id::query::list_by_artist;
use music_id::query::list_by_title;
use music_id::query::list_random;
use music_id::query::resolve_full;
use music_id::query::resolve_partial;
use music_id::range::ByteRange;

fn piece(id: i32, title: &str, artist: &str, file_size: u32) -> Piece {
    Piece {
        id,
        title: title.to_owned(),
        artist: artist.to_owned(),
        file_path: format!("/media/{id}.mp3"),
        file_size,
    }
}

fn catalog() -> Vec<Piece> {
    vec![
        piece(1, "Moonlight Sonata", "Beethoven", 5_000_000),
        piece(2, "Clair de Lune", "Debussy", 4_000_000),
        piece(3, "Moon River", "Mancini", 3_000_000),
        piece(4, "Gymnopedie No. 1", "Satie", 2_000_000),
        piece(5, "Clair de Lune", "Faure", 1_000_000),
    ]
}

fn titles(pieces: &[Piece]) -> Vec<String> {
    pieces.iter().map(|p| p.title.clone()).collect()
}

#[test]
fn list_all_returns_every_record_in_order() {
    let c = catalog();
    let r = list_all(&c);
    assert_eq!(r.len(), 5);
    let ids: Vec<i32> = r.iter().map(|p| p.id).collect();
    assert_eq!(ids, vec![1, 2, 3, 4, 5]);
}

#[test]
fn list_by_artist_matches_exactly() {
    let c = catalog();
    let r = list_by_artist(&c, &"Debussy".to_owned());
    assert_eq!(titles(&r), vec!["Clair de Lune".to_owned()]);
    assert_eq!(r[0].id, 2);
    let none = list_by_artist(&c, &"debussy".to_owned());
    assert!(none.is_empty());
    let none2 = list_by_artist(&c, &"Debus".to_owned());
    assert!(none2.is_empty());
}

#[test]
fn list_by_title_matches_substrings() {
    let c = catalog();
    let r = list_by_title(&c, &"Moon".to_owned());
    let ids: Vec<i32> = r.iter().map(|p| p.id).collect();
    assert_eq!(ids, vec![1, 3]);
    let mid = list_by_title(&c, &"de L".to_owned());
    let ids: Vec<i32> = mid.iter().map(|p| p.id).collect();
    assert_eq!(ids, vec![2, 5]);
    let all = list_by_title(&c, &"".to_owned());
    assert_eq!(all.len(), 5);
    let none = list_by_title(&c, &"Nocturne".to_owned());
    assert!(none.is_empty());
}

#[test]
fn repeated_list_reads_return_identical_results() {
    let c = catalog();
    assert_eq!(titles(&list_by_title(&c, &"Moon".to_owned())), titles(&list_by_title(
        &c,
        &"Moon".to_owned(),
    )));
    assert_eq!(titles(&list_by_artist(&c, &"Satie".to_owned())), titles(&list_by_artist(
        &c,
        &"Satie".to_owned(),
    )));
    assert_eq!(titles(&list_all(&c)), titles(&list_all(&c)));
}

#[test]
fn resolve_full_takes_first_match_in_catalog_order() {
    let c = catalog();
    let p = resolve_full(&c, &"Clair de Lune".to_owned()).expect("title exists");
    assert_eq!(p.id, 2);
    let err = resolve_full(&c, &"Clair".to_owned());
    assert_eq!(err.map(|p| p.id), Err(AppError::NoMatch));
}

#[test]
fn resolve_partial_rejects_bad_range_before_lookup() {
    let empty: Vec<Piece> = Vec::new();
    let r = resolve_partial(&empty, &"anything".to_owned(), 600, 500);
    assert_eq!(r.map(|(p, rg)| (p.id, rg)), Err(AppError::InvalidRange));
}

#[test]
fn resolve_partial_finds_first_substring_match_and_bumps_zero() {
    let c = catalog();
    let (p, rg) = resolve_partial(&c, &"Clair".to_owned(), 0, 500).expect("must resolve");
    assert_eq!(p.id, 2);
    assert_eq!(rg, ByteRange { start: 1, end: 500 });
}

#[test]
fn resolve_partial_rejects_end_past_declared_size() {
    let c = catalog();
    let r = resolve_partial(&c, &"Gymnopedie".to_owned(), 10, 2_000_001);
    assert_eq!(r.map(|(p, rg)| (p.id, rg)), Err(AppError::InvalidRange));
    let ok = resolve_partial(&c, &"Gymnopedie".to_owned(), 10, 2_000_000);
    assert!(ok.is_ok());
}

#[test]
fn resolve_partial_reports_no_match() {
    let c = catalog();
    let r = resolve_partial(&c, &"Nocturne".to_owned(), 10, 20);
    assert_eq!(r.map(|(p, rg)| (p.id, rg)), Err(AppError::NoMatch));
}

#[test]
fn list_random_truncates_to_n_records_from_the_catalog() {
    let c = catalog();
    for _ in 0..20 {
        let r = list_random(&c, 3);
        assert_eq!(r.len(), 3);
        let mut seen: Vec<i32> = Vec::new();
        for p in &r {
            assert!(c.iter().any(|q| q.id == p.id && q.title == p.title));
            assert!(!seen.contains(&p.id));
            seen.push(p.id);
        }
    }
}

#[test]
fn list_random_with_large_n_returns_whole_catalog() {
    let c = catalog();
    let r = list_random(&c, 50);
    assert_eq!(r.len(), 5);
    let mut ids: Vec<i32> = r.iter().map(|p| p.id).collect();
    ids.sort();
    assert_eq!(ids, vec![1, 2, 3, 4, 5]);
}
