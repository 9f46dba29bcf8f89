use mrbot::cache::{CacheError, ContentCache};
use mrbot::download::{
    cached_file_path, fetch_args, DownloadCoordinator, DownloadError, DownloadStep, InFlightSet,
};
use mrbot::hashing::{content_id, hex_string};

const ABC_SHA256: &str = "ba7816bf8f01cfea414140de5dae2223b00361a396177a9cb410ff61f20015ad";

#[test]
fn content_id_is_sha256_hex() {
    assert_eq!(content_id("abc"), ABC_SHA256);
    assert_eq!(content_id("abc").len(), 64);
    assert_ne!(content_id("abd"), content_id("abc"));
}

#[test]
fn content_id_is_deterministic() {
    assert_eq!(content_id("https://video/x"), content_id("https://video/x"));
}

#[test]
fn hex_string_two_digits_per_byte() {
    assert_eq!(hex_string(&vec![0u8, 15, 16, 255]), "000f10ff");
    assert_eq!(hex_string(&vec![]), "");
}

#[test]
fn commit_then_lookup_by_url_and_query() {
    let mut cache = ContentCache::new();
    assert!(!cache.is_cached("https://video/x"));
    assert!(cache.commit("https://video/x", "some song", Some("Song".to_string()), 10).is_ok());
    assert!(cache.is_cached("https://video/x"));
    let by_url = cache.lookup("https://video/x").unwrap();
    assert_eq!(by_url.source_url, "https://video/x");
    assert_eq!(by_url.id, content_id("https://video/x"));
    assert_eq!(by_url.possible_queries, vec!["some song".to_string()]);
    assert_eq!(by_url.title, Some("Song".to_string()));
    assert_eq!(by_url.cached_at, 10);
    let by_query = cache.lookup("some song").unwrap();
    assert_eq!(by_query.source_url, "https://video/x");
    assert!(cache.lookup("other song").is_none());
}

#[test]
fn commit_twice_is_refused() {
    let mut cache = ContentCache::new();
    assert!(cache.commit("https://video/x", "a", None, 1).is_ok());
    assert!(matches!(cache.commit("https://video/x", "b", None, 2), Err(CacheError::DuplicateId)));
    assert_eq!(cache.records().len(), 1);
    assert_eq!(cache.records()[0].possible_queries, vec!["a".to_string()]);
}

#[test]
fn link_query_appends_once() {
    let mut cache = ContentCache::new();
    cache.commit("https://video/x", "a", None, 1).ok();
    cache.link_query("https://video/x", "b");
    cache.link_query("https://video/x", "b");
    cache.link_query("https://video/x", "a");
    assert_eq!(cache.records()[0].possible_queries, vec!["a".to_string(), "b".to_string()]);
    cache.link_query("https://video/missing", "c");
    assert_eq!(cache.records().len(), 1);
}

#[test]
fn lookup_prefers_identifier_then_first_listing() {
    let mut cache = ContentCache::new();
    cache.commit("https://video/a", "shared", None, 1).ok();
    cache.commit("https://video/b", "shared", None, 2).ok();
    assert_eq!(cache.lookup("shared").unwrap().source_url, "https://video/a");
    assert_eq!(cache.lookup("https://video/b").unwrap().source_url, "https://video/b");
}

#[test]
fn in_flight_set_inserts_and_removes() {
    let mut s = InFlightSet::new();
    assert!(s.try_insert("h"));
    assert!(!s.try_insert("h"));
    assert!(s.contains("h"));
    assert!(s.remove("h"));
    assert!(!s.remove("h"));
    assert!(!s.contains("h"));
}

#[test]
fn fetch_command_arguments() {
    let path = cached_file_path("/home/bot", "abc");
    assert_eq!(path, "/home/bot/songbird_cache/abc");
    let args = fetch_args("https://video/x", &path);
    assert_eq!(
        args,
        vec![
            "-f",
            "webm[abr>0]/bestaudio/best",
            "--no-playlist",
            "--ignore-config",
            "--no-warnings",
            "https://video/x",
            "-o",
            "/home/bot/songbird_cache/abc",
        ]
    );
}

#[test]
fn two_requests_leave_one_record_with_both_queries() {
    let mut d = DownloadCoordinator::new(ContentCache::new());
    let url = "https://video/x";
    match d.begin(url, "q1", "/home/bot") {
        Ok(DownloadStep::Fetch { id, program, args }) => {
            assert_eq!(id, content_id(url));
            assert_eq!(program, "yt-dlp");
            assert_eq!(args[5], url);
            assert_eq!(args[7], format!("/home/bot/songbird_cache/{}", content_id(url)));
        }
        _ => panic!("expected a fetch"),
    }
    assert!(d.complete_at(url, "q1", Some("T".to_string()), true, 5).is_ok());
    assert!(matches!(d.begin(url, "q2", "/home/bot"), Ok(DownloadStep::AlreadyCached)));
    assert_eq!(d.cache.records().len(), 1);
    assert_eq!(d.cache.records()[0].possible_queries, vec!["q1".to_string(), "q2".to_string()]);
    assert!(!d.in_flight.contains(&content_id(url)));
}

#[test]
fn concurrent_request_is_already_in_flight() {
    let mut d = DownloadCoordinator::new(ContentCache::new());
    let url = "https://video/x";
    assert!(matches!(d.begin(url, "q1", "/h"), Ok(DownloadStep::Fetch { .. })));
    assert!(matches!(d.begin(url, "q2", "/h"), Err(DownloadError::AlreadyInFlight)));
    assert!(d.in_flight.contains(&content_id(url)));
    assert!(d.complete_at(url, "q1", None, true, 1).is_ok());
    assert_eq!(d.cache.records().len(), 1);
    assert_eq!(d.cache.records()[0].possible_queries, vec!["q1".to_string()]);
}

#[test]
fn failed_fetch_releases_slot_and_stores_nothing() {
    let mut d = DownloadCoordinator::new(ContentCache::new());
    let url = "https://video/x";
    assert!(matches!(d.begin(url, "q", "/h"), Ok(DownloadStep::Fetch { .. })));
    assert!(matches!(d.complete_at(url, "q", None, false, 1), Err(DownloadError::FetchFailed)));
    assert!(!d.in_flight.contains(&content_id(url)));
    assert!(!d.cache.is_cached(url));
    assert!(matches!(d.begin(url, "q", "/h"), Ok(DownloadStep::Fetch { .. })));
}

#[test]
fn completion_without_slot_commits_nothing() {
    let mut d = DownloadCoordinator::new(ContentCache::new());
    assert!(d.complete_at("https://video/x", "q", None, true, 1).is_ok());
    assert!(!d.cache.is_cached("https://video/x"));
}

#[test]
fn completion_after_cached_meanwhile_is_store_error() {
    let mut d = DownloadCoordinator::new(ContentCache::new());
    let url = "https://video/x";
    assert!(matches!(d.begin(url, "q", "/h"), Ok(DownloadStep::Fetch { .. })));
    d.cache.commit(url, "other", None, 1).ok();
    assert!(matches!(d.complete_at(url, "q", None, true, 2), Err(DownloadError::Store(CacheError::DuplicateId))));
    assert_eq!(d.cache.records().len(), 1);
}

#[test]
fn downloaded_media_found_by_query_and_url() {
    let mut d = DownloadCoordinator::new(ContentCache::new());
    let url = "https://video/y";
    assert!(matches!(d.begin(url, "my query", "/h"), Ok(DownloadStep::Fetch { .. })));
    assert!(d.complete_at(url, "my query", None, true, 3).is_ok());
    assert_eq!(d.cache.lookup("my query").unwrap().source_url, url);
    assert_eq!(d.cache.lookup(url).unwrap().source_url, url);
}

#[test]
fn complete_dates_the_record_now() {
    let mut d = DownloadCoordinator::new(ContentCache::new());
    let url = "https://video/now";
    assert!(matches!(d.begin(url, "q", "/h"), Ok(DownloadStep::Fetch { .. })));
    assert!(d.complete(url, "q", None, true).is_ok());
    assert!(d.cache.records()[0].cached_at > 1_600_000_000);
}
