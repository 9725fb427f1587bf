use newfm::models::Scrobble;
use newfm::scrobble::{
    is_duplicate, normalize_name, plays_within_window, same_name, validate, validate_at,
    ScrobbleInput, ScrobbleValidationError,
};
use newfm::time::Timestamp;

fn at(secs: i64) -> Timestamp {
    Timestamp { secs, nanos: 0 }
}

fn listen() -> ScrobbleInput {
    ScrobbleInput {
        track_title: "Hoppípolla".to_string(),
        artist_name: "Sigur Rós".to_string(),
        album_title: None,
        played_at: at(1_000),
        duration_ms: Some(240_000),
        listened_ms: Some(120_000),
        source: "extension".to_string(),
    }
}

fn scrobble(track_id: i64, played_at: Timestamp) -> Scrobble {
    Scrobble {
        id: 1,
        user_id: 2,
        track_id,
        artist_id: 3,
        album_id: None,
        played_at,
        source: "extension".to_string(),
        duration_ms: None,
    }
}

#[test]
fn names_are_trimmed_and_lowercased() {
    assert_eq!(normalize_name("  Sigur Rós\t"), "sigur rós");
    assert_eq!(normalize_name("\u{2003}ÀÉ\u{a0}"), "àé");
    assert_eq!(normalize_name(" \n "), "");
}

#[test]
fn normalizing_ignores_padding() {
    assert_eq!(normalize_name("Muse"), normalize_name("   Muse  "));
    assert!(same_name(" MUSE", "muse "));
    assert!(!same_name("muse", "museum"));
}

#[test]
fn normalizing_twice_changes_nothing() {
    for name in ["  The Prodigy ", "AC/DC", "muse", "", " \t", "  Sigur Rós\t", "Björk"] {
        let once = normalize_name(name);
        assert_eq!(normalize_name(&once), once);
    }
}

#[test]
fn names_that_differ_in_case_alone_are_the_same() {
    assert!(same_name("Daft PUNK", "dAFT punk"));
    assert_eq!(normalize_name("@Z[`z{"), "@z[`z{");
}

#[test]
fn a_title_is_required() {
    let mut input = listen();
    input.track_title = " \t ".to_string();
    assert_eq!(validate_at(&input, &at(2_000)), Err(ScrobbleValidationError::MissingTitle));
    assert_eq!(
        ScrobbleValidationError::MissingTitle.message(),
        "track title is required"
    );
}

#[test]
fn an_artist_is_required() {
    let mut input = listen();
    input.artist_name = String::new();
    assert_eq!(validate_at(&input, &at(2_000)), Err(ScrobbleValidationError::MissingArtist));
    assert_eq!(
        ScrobbleValidationError::MissingArtist.message(),
        "artist name is required"
    );
}

#[test]
fn the_first_broken_rule_names_the_error() {
    let mut input = listen();
    input.track_title = String::new();
    input.artist_name = String::new();
    assert_eq!(validate_at(&input, &at(0)), Err(ScrobbleValidationError::MissingTitle));
}

#[test]
fn plays_in_the_future_are_refused() {
    let input = listen();
    assert_eq!(validate_at(&input, &at(999)), Err(ScrobbleValidationError::FutureTimestamp));
    assert_eq!(validate_at(&input, &at(1_000)), Ok(()));
    assert_eq!(
        ScrobbleValidationError::FutureTimestamp.message(),
        "played_at timestamp is in the future"
    );
    let mut later_this_second = listen();
    later_this_second.played_at = Timestamp { secs: 1_000, nanos: 1 };
    assert_eq!(
        validate_at(&later_this_second, &at(1_000)),
        Err(ScrobbleValidationError::FutureTimestamp)
    );
}

#[test]
fn a_listen_counts_from_thirty_seconds_or_half_the_track() {
    let mut input = listen();
    input.duration_ms = Some(240_000);
    input.listened_ms = Some(30_000);
    assert_eq!(validate_at(&input, &at(2_000)), Ok(()));
    input.listened_ms = Some(29_999);
    assert_eq!(validate_at(&input, &at(2_000)), Err(ScrobbleValidationError::TooShort));
    input.duration_ms = Some(40_000);
    input.listened_ms = Some(20_000);
    assert_eq!(validate_at(&input, &at(2_000)), Ok(()));
    input.listened_ms = Some(19_999);
    assert_eq!(validate_at(&input, &at(2_000)), Err(ScrobbleValidationError::TooShort));
    input.duration_ms = None;
    assert_eq!(validate_at(&input, &at(2_000)), Err(ScrobbleValidationError::TooShort));
    assert_eq!(
        ScrobbleValidationError::TooShort.message(),
        "listen duration too short to scrobble"
    );
}

#[test]
fn a_listen_of_unknown_length_counts() {
    let mut input = listen();
    input.listened_ms = None;
    input.duration_ms = None;
    assert_eq!(validate_at(&input, &at(2_000)), Ok(()));
}

#[test]
fn extreme_durations_do_not_overflow() {
    let mut input = listen();
    input.duration_ms = Some(i32::MAX);
    input.listened_ms = Some(i32::MIN);
    assert_eq!(validate_at(&input, &at(2_000)), Err(ScrobbleValidationError::TooShort));
    input.listened_ms = Some(i32::MAX);
    assert_eq!(validate_at(&input, &at(2_000)), Ok(()));
    input.duration_ms = Some(-5);
    input.listened_ms = Some(10);
    assert_eq!(validate_at(&input, &at(2_000)), Err(ScrobbleValidationError::TooShort));
}

#[test]
fn listening_longer_stays_valid() {
    let mut input = listen();
    input.listened_ms = Some(120_000);
    assert_eq!(validate_at(&input, &at(2_000)), Ok(()));
    input.listened_ms = Some(240_000);
    assert_eq!(validate_at(&input, &at(2_000)), Ok(()));
}

#[test]
fn a_valid_scrobble_stays_valid_as_time_passes() {
    let input = listen();
    assert_eq!(validate_at(&input, &at(1_500)), Ok(()));
    assert_eq!(validate_at(&input, &at(4_000_000_000)), Ok(()));
}

#[test]
fn a_full_play_of_a_short_track_is_long_enough() {
    let mut input = listen();
    input.duration_ms = Some(5_000);
    input.listened_ms = Some(5_000);
    assert_eq!(validate_at(&input, &at(2_000)), Ok(()));
}

#[test]
fn the_clock_is_consulted() {
    let mut input = listen();
    assert_eq!(validate(&input), Ok(()));
    // The year 5138.
    input.played_at = at(100_000_000_000);
    assert_eq!(validate(&input), Err(ScrobbleValidationError::FutureTimestamp));
}

#[test]
fn duplicates_are_the_same_track_within_thirty_seconds() {
    let previous = scrobble(7, at(1_000));
    assert!(is_duplicate(&previous, 7, at(1_029)));
    assert!(is_duplicate(&previous, 7, at(971)));
    assert!(!is_duplicate(&previous, 7, at(1_030)));
    assert!(!is_duplicate(&previous, 7, at(970)));
    assert!(!is_duplicate(&previous, 8, at(1_000)));
}

#[test]
fn the_duplicate_window_counts_whole_seconds() {
    let almost = Timestamp { secs: 1_029, nanos: 999_999_999 };
    assert!(plays_within_window(&almost, &at(1_000)));
    let before = Timestamp { secs: 970, nanos: 1 };
    assert!(plays_within_window(&before, &at(1_000)));
}

#[test]
fn the_duplicate_window_is_symmetric() {
    for delta in [0, 1, 29, 30, 31] {
        assert_eq!(
            plays_within_window(&at(1_000 + delta), &at(1_000)),
            plays_within_window(&at(1_000), &at(1_000 + delta))
        );
    }
}
