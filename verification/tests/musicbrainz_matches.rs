use newfm::ids::Uuid;
use newfm::providers::musicbrainz::{
    best_artist, best_recording, best_release, found_artist, found_recording, found_release,
    found_release_group, lookup_recording, lookup_release_group, lucene_quote, parse_mb_date,
    preferred_index, score_ok, search_artist, search_recording, search_release, ArtistMatch,
    Recording, Release, ReleaseFilter, ReleaseGroup,
};
use newfm::providers::{HttpGet, ProviderError};
use newfm::time::CalendarDate;

fn id(n: u128) -> Uuid {
    Uuid { bits: n }
}

fn params(request: &HttpGet) -> Vec<(&str, &str)> {
    request.query.iter().map(|(k, v)| (k.as_str(), v.as_str())).collect()
}

fn release(n: u128, score: i32, title: &str, date: Option<&str>, status: Option<&str>) -> Release {
    Release {
        id: id(n),
        score: Some(score),
        title: title.to_string(),
        date: date.map(|s| s.to_string()),
        status: status.map(|s| s.to_string()),
        release_group: None,
    }
}

fn recording(n: u128, score: Option<i32>) -> Recording {
    Recording { id: id(n), score, length: None, artist_credit: vec![], releases: vec![] }
}

/// Reads a quoted phrase back as a Lucene parser does.
fn unquote(s: &str) -> String {
    let mut out = String::new();
    let mut chars = s.chars();
    while let Some(c) = chars.next() {
        assert_ne!(c, '"');
        if c == '\\' {
            out.push(chars.next().unwrap());
        } else {
            out.push(c);
        }
    }
    out
}

#[test]
fn quoting_escapes_backslashes_and_quotes() {
    assert_eq!(lucene_quote("a\"b\\c"), "a\\\"b\\\\c");
    assert_eq!(lucene_quote("plain"), "plain");
}

#[test]
fn quoting_is_undone_by_reading() {
    for s in ["", "\\", "\"", "\\\"\\", "AC\\DC \"live\"", "Ænima"] {
        assert_eq!(unquote(&lucene_quote(s)), s);
    }
}

#[test]
fn searches_quote_their_fields() {
    let request = search_recording("Say \"Hi\"", "A\\B");
    assert_eq!(request.url, "https://musicbrainz.org/ws/2/recording");
    assert_eq!(
        params(&request),
        vec![
            ("query", "recording:\"Say \\\"Hi\\\"\" AND artist:\"A\\\\B\""),
            ("fmt", "json"),
            ("limit", "5"),
        ]
    );
    let request = search_release("Post", "Björk");
    assert_eq!(request.url, "https://musicbrainz.org/ws/2/release");
    assert_eq!(params(&request)[0], ("query", "release:\"Post\" AND artist:\"Björk\""));
    let request = search_artist("Björk");
    assert_eq!(request.url, "https://musicbrainz.org/ws/2/artist");
    assert_eq!(params(&request)[0], ("query", "artist:\"Björk\""));
}

#[test]
fn lookups_go_by_mbid() {
    let request = lookup_recording(id(1));
    assert_eq!(
        request.url,
        "https://musicbrainz.org/ws/2/recording/00000000-0000-0000-0000-000000000001"
    );
    assert_eq!(
        params(&request),
        vec![("fmt", "json"), ("inc", "artist-credits releases release-groups")]
    );
    let request = lookup_release_group(id(0xff));
    assert_eq!(
        request.url,
        "https://musicbrainz.org/ws/2/release/00000000-0000-0000-0000-0000000000ff"
    );
    assert_eq!(params(&request), vec![("fmt", "json"), ("inc", "release-groups")]);
}

#[test]
fn matches_need_a_score() {
    assert!(score_ok(Some(90), 90));
    assert!(!score_ok(Some(89), 90));
    assert!(!score_ok(None, 0));
}

#[test]
fn the_first_artist_above_the_bar_wins() {
    let hits = vec![
        ArtistMatch { id: id(1), score: Some(94) },
        ArtistMatch { id: id(2), score: Some(95) },
        ArtistMatch { id: id(3), score: Some(100) },
    ];
    assert_eq!(best_artist(&hits).map(|a| a.id), Some(id(2)));
    assert_eq!(best_artist(&vec![ArtistMatch { id: id(1), score: None }]), None);
    assert_eq!(found_artist(Ok(Some(hits))).unwrap().map(|a| a.id), Some(id(2)));
    assert_eq!(found_artist(Ok(None)), Ok(None));
    assert_eq!(
        found_artist(Err(ProviderError::Fatal("x".to_string()))),
        Err(ProviderError::Fatal("x".to_string()))
    );
}

#[test]
fn the_first_recording_above_the_bar_wins() {
    let hits = vec![recording(1, Some(89)), recording(2, Some(90)), recording(3, Some(99))];
    assert_eq!(best_recording(hits).map(|r| r.id), Some(id(2)));
    assert_eq!(best_recording(vec![recording(1, None)]), None);
    let found = found_recording(Ok(Some(vec![recording(7, Some(100))])));
    assert_eq!(found.unwrap().map(|r| r.id), Some(id(7)));
    assert_eq!(found_recording(Ok(None)), Ok(None));
}

#[test]
fn official_releases_with_a_date_are_preferred() {
    let hits = vec![
        release(1, 100, "Post", Some("1995"), Some("Bootleg")),
        release(2, 95, "Post", None, Some("Official")),
        release(3, 91, "Post", Some("1995-06-13"), Some("Official")),
        release(4, 92, "Post", Some("1996"), Some("Official")),
        release(5, 89, "Post", Some("1996"), Some("Official")),
    ];
    assert_eq!(preferred_index(&hits, &ReleaseFilter::Scored), Some(2));
    assert_eq!(best_release(hits).map(|r| r.id), Some(id(3)));
}

#[test]
fn of_equally_preferred_releases_the_first_wins() {
    let hits = vec![
        release(1, 90, "Post", None, None),
        release(2, 99, "Post", None, Some("Promotion")),
        release(3, 99, "Post", Some("1995"), None),
    ];
    assert_eq!(best_release(hits).map(|r| r.id), Some(id(3)));
    let tied = vec![release(1, 90, "Post", None, None), release(2, 99, "Post", None, None)];
    assert_eq!(found_release(Ok(Some(tied))).unwrap().map(|r| r.id), Some(id(1)));
    assert_eq!(found_release(Ok(None)), Ok(None));
}

#[test]
fn releases_are_matched_by_title() {
    let hits = vec![
        release(1, 0, "Post (Deluxe)", Some("1995"), Some("Official")),
        release(2, 0, " POST ", None, None),
    ];
    let wanted = ReleaseFilter::Titled("Post".to_string());
    assert_eq!(preferred_index(&hits, &wanted), Some(1));
    assert_eq!(preferred_index(&hits, &ReleaseFilter::Scored), None);
}

#[test]
fn a_release_group_is_taken_where_there_is_one() {
    assert_eq!(found_release_group(Ok(Some(Some(ReleaseGroup { id: id(9) })))), Ok(Some(id(9))));
    assert_eq!(found_release_group(Ok(Some(None))), Ok(None));
    assert_eq!(found_release_group(Ok(None)), Ok(None));
    assert_eq!(
        found_release_group(Err(ProviderError::Transient("x".to_string()))),
        Err(ProviderError::Transient("x".to_string()))
    );
}

#[test]
fn flexible_dates_default_to_the_first() {
    let date = |year, month, day| Some(CalendarDate { year, month, day });
    assert_eq!(parse_mb_date("2004"), date(2004, 1, 1));
    assert_eq!(parse_mb_date("2004-05"), date(2004, 5, 1));
    assert_eq!(parse_mb_date("2004-05-12"), date(2004, 5, 12));
    assert_eq!(parse_mb_date("2004-02-29"), date(2004, 2, 29));
    assert_eq!(parse_mb_date("2003-02-29"), None);
    assert_eq!(parse_mb_date("1900-02-29"), None);
    assert_eq!(parse_mb_date("2000-02-29"), date(2000, 2, 29));
    assert_eq!(parse_mb_date("2004-13"), None);
    assert_eq!(parse_mb_date("2004-04-31"), None);
    assert_eq!(parse_mb_date(""), None);
    assert_eq!(parse_mb_date("next year"), None);
    assert_eq!(parse_mb_date("2004-05-12 "), None);
    assert_eq!(parse_mb_date("2004-05-121"), None);
}
