use newfm::errors::AppError;
use newfm::ingest::{
    advance_catalog, advance_ingest, ingest_scrobble, ingest_scrobble_at, resolve_catalog,
    scrobble, scrobble_at, scrobble_response, CatalogIds, CatalogReply, CatalogStep, IngestError,
    IngestReply, IngestStep, InsertScrobble, Listen, ScrobbleRequest, ScrobbleResponse,
};
use newfm::models::Scrobble;
use newfm::scrobble::{ScrobbleInput, ScrobbleValidationError};
use newfm::time::Timestamp;

fn at(secs: i64) -> Timestamp {
    Timestamp { secs, nanos: 0 }
}

fn listen(album: Option<&str>) -> ScrobbleInput {
    ScrobbleInput {
        track_title: "Breathe".to_string(),
        artist_name: "The Prodigy".to_string(),
        album_title: album.map(|a| a.to_string()),
        played_at: at(5_000),
        duration_ms: Some(339_000),
        listened_ms: Some(339_000),
        source: "mobile".to_string(),
    }
}

fn last(played_at: Timestamp) -> Scrobble {
    Scrobble {
        id: 90,
        user_id: 4,
        track_id: 30,
        artist_id: 10,
        album_id: None,
        played_at,
        source: "extension".to_string(),
        duration_ms: None,
    }
}

/// Answers every question and returns the result with the inserted row.
fn run(
    input: &ScrobbleInput,
    previous: Option<Scrobble>,
    artist: Option<&str>,
    track: Option<&str>,
) -> (Result<i64, IngestError>, Option<InsertScrobble>) {
    let mut step = ingest_scrobble_at(4, input, &at(6_000));
    let mut previous = Some(previous);
    let mut inserted = None;
    for _ in 0..8 {
        let reply = match &step {
            IngestStep::LastScrobble { user_id } => {
                assert_eq!(*user_id, 4);
                IngestReply::LastScrobble(Ok(previous.take().unwrap_or(None)))
            }
            IngestStep::LastArtist { .. } => {
                IngestReply::LastArtist(Ok(artist.map(|s| s.to_string())))
            }
            IngestStep::LastTrack { .. } => {
                IngestReply::LastTrack(Ok(track.map(|s| s.to_string())))
            }
            IngestStep::Catalog { step } => IngestReply::Catalog(match step {
                CatalogStep::Artist { name } => {
                    assert_eq!(name, &input.artist_name);
                    CatalogReply::Artist(Ok(10))
                }
                CatalogStep::Album { artist_id, title } => {
                    assert_eq!((*artist_id, Some(title)), (10, input.album_title.as_ref()));
                    CatalogReply::Album(Ok(20))
                }
                CatalogStep::Track { artist_id, title, duration_ms, .. } => {
                    assert_eq!((*artist_id, title), (10, &input.track_title));
                    assert_eq!(*duration_ms, input.duration_ms);
                    CatalogReply::Track(Ok((30, Some(339_000))))
                }
                _ => CatalogReply::Enqueued(Err("queue is down".to_string())),
            }),
            IngestStep::Insert { row } => {
                inserted = Some(InsertScrobble {
                    user_id: row.user_id,
                    track_id: row.track_id,
                    artist_id: row.artist_id,
                    album_id: row.album_id,
                    played_at: row.played_at,
                    source: row.source.clone(),
                    duration_ms: row.duration_ms,
                });
                IngestReply::Inserted(Ok(77))
            }
            IngestStep::Done { .. } => break,
        };
        step = advance_ingest(4, input, step, reply);
    }
    match step {
        IngestStep::Done { result } => (result, inserted),
        other => panic!("still open: {other:?}"),
    }
}

#[test]
fn a_first_listen_is_inserted() {
    let (result, row) = run(&listen(Some("The Fat of the Land")), None, None, None);
    assert_eq!(result, Ok(77));
    assert_eq!(
        row,
        Some(InsertScrobble {
            user_id: 4,
            track_id: 30,
            artist_id: 10,
            album_id: Some(20),
            played_at: at(5_000),
            source: "mobile".to_string(),
            duration_ms: Some(339_000),
        })
    );
}

#[test]
fn a_scrobble_lasts_as_long_as_the_user_listened() {
    let stored = |listened_ms, duration_ms| {
        let input = ScrobbleInput { listened_ms, duration_ms, ..listen(None) };
        run(&input, None, None, None).1.map(|row| row.duration_ms)
    };
    assert_eq!(stored(Some(180_000), Some(339_000)), Some(Some(180_000)));
    assert_eq!(stored(Some(180_000), None), Some(Some(180_000)));
    assert_eq!(stored(None, Some(339_000)), Some(Some(339_000)));
    assert_eq!(stored(None, None), Some(None));
}

#[test]
fn a_listen_without_an_album_skips_it() {
    let (result, row) = run(&listen(None), None, None, None);
    assert_eq!(result, Ok(77));
    assert_eq!(row.map(|r| r.album_id), Some(None));
}

#[test]
fn a_repeat_of_the_last_scrobble_is_refused() {
    let (result, row) = run(
        &listen(None),
        Some(last(at(4_980))),
        Some(" the prodigy "),
        Some("BREATHE"),
    );
    assert_eq!(result, Err(IngestError::Duplicate));
    assert_eq!(row, None);
    assert_eq!(IngestError::Duplicate.message(), "duplicate scrobble detected");
}

#[test]
fn the_same_track_later_is_no_repeat() {
    let (result, _) = run(
        &listen(None),
        Some(last(at(4_970))),
        Some("The Prodigy"),
        Some("Breathe"),
    );
    assert_eq!(result, Ok(77));
}

#[test]
fn another_track_of_the_artist_is_no_repeat() {
    let (result, _) = run(
        &listen(None),
        Some(last(at(4_990))),
        Some("The Prodigy"),
        Some("Firestarter"),
    );
    assert_eq!(result, Ok(77));
}

#[test]
fn a_last_scrobble_whose_entries_are_gone_is_no_repeat() {
    let (result, _) = run(&listen(None), Some(last(at(4_990))), None, None);
    assert_eq!(result, Ok(77));
}

#[test]
fn an_invalid_listen_ends_at_once() {
    let mut input = listen(None);
    input.track_title = " ".to_string();
    assert_eq!(
        ingest_scrobble_at(4, &input, &at(6_000)),
        IngestStep::Done {
            result: Err(IngestError::Validation(ScrobbleValidationError::MissingTitle))
        }
    );
    assert_eq!(
        IngestError::Validation(ScrobbleValidationError::MissingTitle).message(),
        "scrobble validation failed: track title is required"
    );
}

#[test]
fn ingestion_reads_the_clock() {
    assert_eq!(ingest_scrobble(4, &listen(None)), IngestStep::LastScrobble { user_id: 4 });
    let mut future = listen(None);
    future.played_at = at(100_000_000_000);
    assert_eq!(
        ingest_scrobble(4, &future),
        IngestStep::Done {
            result: Err(IngestError::Validation(ScrobbleValidationError::FutureTimestamp))
        }
    );
}

#[test]
fn database_failures_end_the_ingestion() {
    let input = listen(Some("The Fat of the Land"));
    let failed = IngestStep::Done { result: Err(IngestError::Db("down".to_string())) };
    assert_eq!(
        advance_ingest(
            4,
            &input,
            IngestStep::LastScrobble { user_id: 4 },
            IngestReply::LastScrobble(Err("down".to_string()))
        ),
        failed
    );
    assert_eq!(
        advance_ingest(
            4,
            &input,
            IngestStep::LastArtist { last: last(at(1)) },
            IngestReply::LastArtist(Err("down".to_string()))
        ),
        failed
    );
    assert_eq!(
        advance_ingest(
            4,
            &input,
            IngestStep::LastTrack { last: last(at(1)), last_artist: None },
            IngestReply::LastTrack(Err("down".to_string()))
        ),
        failed
    );
    assert_eq!(
        advance_ingest(
            4,
            &input,
            IngestStep::Catalog { step: CatalogStep::Artist { name: "The Prodigy".to_string() } },
            IngestReply::Catalog(CatalogReply::Artist(Err("down".to_string())))
        ),
        failed
    );
    assert_eq!(IngestError::Db("down".to_string()).message(), "database error: down");
}

#[test]
fn an_answer_to_another_question_changes_nothing() {
    let input = listen(None);
    assert_eq!(
        advance_ingest(
            4,
            &input,
            IngestStep::LastScrobble { user_id: 4 },
            IngestReply::Inserted(Ok(1))
        ),
        IngestStep::LastScrobble { user_id: 4 }
    );
}

fn names(album: Option<&str>) -> Listen<&str> {
    Listen { artist: "Portishead", album, track: "Roads", duration_ms: Some(305_000) }
}

fn road(album_id: Option<i64>) -> CatalogStep {
    CatalogStep::Track {
        artist_id: 1,
        album_id,
        title: "Roads".to_string(),
        duration_ms: Some(305_000),
    }
}

#[test]
fn catalog_entries_resolve_in_order() {
    let listen = names(Some("Dummy"));
    let step = resolve_catalog(&listen);
    assert_eq!(step, CatalogStep::Artist { name: "Portishead".to_string() });
    let step = advance_catalog(&listen, step, CatalogReply::Artist(Ok(1)));
    assert_eq!(step, CatalogStep::Album { artist_id: 1, title: "Dummy".to_string() });
    let step = advance_catalog(&listen, step, CatalogReply::Album(Ok(2)));
    assert_eq!(step, road(Some(2)));
    let step = advance_catalog(&listen, step, CatalogReply::Track(Ok((3, None))));
    let ids = CatalogIds { artist_id: 1, album_id: Some(2), track_id: 3, track_duration_ms: None };
    assert_eq!(step, CatalogStep::Enqueue { ids });
    let step = advance_catalog(&listen, step, CatalogReply::Enqueued(Err("full".to_string())));
    assert_eq!(step, CatalogStep::Resolved { ids });
    let artist = resolve_catalog(&names(None));
    assert_eq!(advance_catalog(&names(None), artist, CatalogReply::Artist(Ok(1))), road(None));
}

#[test]
fn a_catalog_failure_fails_the_resolution() {
    let album = CatalogStep::Album { artist_id: 1, title: "Dummy".to_string() };
    assert_eq!(
        advance_catalog(&names(Some("Dummy")), album, CatalogReply::Album(Err("no".to_string()))),
        CatalogStep::Failed { error: "no".to_string() }
    );
    assert_eq!(
        advance_catalog(&names(None), road(None), CatalogReply::Track(Err("no".to_string()))),
        CatalogStep::Failed { error: "no".to_string() }
    );
}

fn request(source: Option<&str>) -> ScrobbleRequest {
    ScrobbleRequest {
        track: "Breathe".to_string(),
        artist: "The Prodigy".to_string(),
        album: None,
        played_at: at(5_000),
        duration_ms: None,
        listened_ms: None,
        source: source.map(|s| s.to_string()),
    }
}

#[test]
fn a_request_without_a_source_comes_from_the_extension() {
    let (input, step) = scrobble_at(4, request(None), &at(6_000));
    assert_eq!(input.source, "extension");
    assert_eq!(input.track_title, "Breathe");
    assert_eq!(step, IngestStep::LastScrobble { user_id: 4 });
    let (input, _) = scrobble(4, request(Some("mobile")));
    assert_eq!(input.source, "mobile");
}

#[test]
fn a_scrobble_is_answered_with_its_id() {
    assert_eq!(
        scrobble_response(at(5_000), Ok(77)),
        Ok(ScrobbleResponse { id: 77, played_at: at(5_000) })
    );
}

#[test]
fn invalid_and_repeated_scrobbles_are_bad_requests() {
    let invalid = scrobble_response(
        at(5_000),
        Err(IngestError::Validation(ScrobbleValidationError::TooShort)),
    );
    assert_eq!(
        invalid,
        Err(AppError::ScrobbleInvalid("listen duration too short to scrobble".to_string()))
    );
    assert_eq!(invalid.unwrap_err().into_response().0, 400);
    let repeated = scrobble_response(at(5_000), Err(IngestError::Duplicate));
    assert_eq!(
        repeated.unwrap_err().into_response(),
        (400, "scrobble validation failed: duplicate scrobble detected".to_string())
    );
    let failed = scrobble_response(at(5_000), Err(IngestError::Db("down".to_string())));
    assert_eq!(
        failed.unwrap_err().into_response(),
        (500, "internal server error".to_string())
    );
}

#[test]
fn every_error_has_its_response() {
    let expected = [
        (AppError::Unauthorized, 401, "missing or invalid Authorization header"),
        (AppError::InvalidCredentials, 401, "invalid credentials"),
        (AppError::Forbidden, 403, "you do not have permission to do this"),
        (AppError::BadRequest("x".to_string()), 400, "bad request: x"),
        (AppError::ScrobbleInvalid("x".to_string()), 400, "scrobble validation failed: x"),
        (AppError::NotFound, 404, "not found"),
        (AppError::UsernameTaken, 409, "username already taken"),
        (AppError::EmailTaken, 409, "email already registered"),
        (AppError::RateLimited, 429, "too many requests"),
        (AppError::Database("x".to_string()), 500, "internal server error"),
        (AppError::Redis("x".to_string()), 500, "internal server error"),
        (AppError::Internal("x".to_string()), 500, "internal server error"),
    ];
    for (error, status, body) in expected {
        assert_eq!(error.into_response(), (status, body.to_string()));
    }
    assert_eq!(AppError::Database("x".to_string()).message(), "database error: x");
    assert_eq!(AppError::Redis("x".to_string()).message(), "redis error: x");
    assert_eq!(AppError::Internal("x".to_string()).message(), "internal server error");
}
