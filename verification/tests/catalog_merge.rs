use newfm::enrichment::EntityKind;
use newfm::ids::Uuid;
use newfm::jobs::{
    claim, complete_job, enqueue, enqueue_for_ingest, fail_job, request_refresh, reschedule_job,
    reset_stuck, resweep, CatalogEntry, JobRow, JobStatus, PRIORITY_BACKFILL, PRIORITY_INGEST,
    PRIORITY_REFRESH,
};
use newfm::metadata::{
    advance_batch, apply_album_metadata, apply_artist_metadata, apply_track_metadata, begin_batch,
    is_mbid_conflict, next_write, AlbumColumns, AlbumMetadata, ArtistColumns, ArtistMetadata,
    BatchStep, CatalogWrite, TrackColumns, TrackMetadata, WriteBatch, WriteFailure,
};
use newfm::time::{CalendarDate, Timestamp};

fn id(n: u128) -> Uuid {
    Uuid { bits: n }
}

fn some(s: &str) -> Option<String> {
    Some(s.to_string())
}

fn artist(locked: bool) -> ArtistColumns {
    ArtistColumns {
        mbid: Some(id(1)),
        image_url: some("old"),
        image_locked: locked,
        bio: some("old bio"),
    }
}

fn found() -> ArtistMetadata {
    ArtistMetadata { mbid: Some(id(2)), image_url: some("new"), bio: some("new bio") }
}

#[test]
fn an_mbid_is_never_overwritten() {
    for force in [false, true] {
        assert_eq!(apply_artist_metadata(artist(false), found(), force).mbid, Some(id(1)));
    }
    let track = apply_track_metadata(
        TrackColumns { mbid: Some(id(1)), duration_ms: Some(5) },
        TrackMetadata { mbid: Some(id(2)), duration_ms: Some(9) },
    );
    assert_eq!(track, TrackColumns { mbid: Some(id(1)), duration_ms: Some(5) });
}

#[test]
fn an_unforced_merge_only_fills_gaps() {
    assert_eq!(apply_artist_metadata(artist(false), found(), false), artist(false));
    let empty = ArtistColumns { mbid: None, image_url: None, image_locked: false, bio: None };
    assert_eq!(
        apply_artist_metadata(empty, found(), false),
        ArtistColumns {
            mbid: Some(id(2)),
            image_url: some("new"),
            image_locked: false,
            bio: some("new bio"),
        }
    );
}

#[test]
fn a_forced_merge_overwrites_image_and_bio() {
    let after = apply_artist_metadata(artist(false), found(), true);
    assert_eq!(after.image_url, some("new"));
    assert_eq!(after.bio, some("new bio"));
}

#[test]
fn an_image_that_the_community_chose_survives() {
    let after = apply_artist_metadata(artist(true), found(), true);
    assert_eq!(after.image_url, some("old"));
    assert!(after.image_locked);
    assert_eq!(after.bio, some("new bio"));
    // Also where the community chose none.
    let bare = ArtistColumns { mbid: None, image_url: None, image_locked: true, bio: None };
    assert_eq!(apply_artist_metadata(bare, found(), true).image_url, None);
}

#[test]
fn a_merge_never_empties_a_column() {
    let after = apply_artist_metadata(artist(false), ArtistMetadata::default(), true);
    assert_eq!(after, artist(false));
}

#[test]
fn merging_again_changes_nothing() {
    let once = apply_artist_metadata(artist(false), found(), true);
    let twice = apply_artist_metadata(
        apply_artist_metadata(artist(false), found(), true),
        found(),
        true,
    );
    assert_eq!(once, twice);
}

#[test]
fn a_release_date_only_fills_a_gap() {
    let date = |year| Some(CalendarDate { year, month: 1, day: 1 });
    let row = AlbumColumns {
        mbid: None,
        image_url: some("old"),
        image_locked: false,
        release_date: date(1995),
    };
    let meta =
        AlbumMetadata { mbid: Some(id(3)), image_url: some("new"), release_date: date(2000) };
    assert_eq!(
        apply_album_metadata(row, meta, true),
        AlbumColumns {
            mbid: Some(id(3)),
            image_url: some("new"),
            image_locked: false,
            release_date: date(1995),
        }
    );
}

fn write(n: i64) -> CatalogWrite {
    CatalogWrite::Track {
        track_id: n,
        track: TrackMetadata { mbid: Some(id(n as u128)), duration_ms: None },
    }
}

fn failure(constraint: Option<&str>) -> WriteFailure {
    WriteFailure { constraint: constraint.map(|s| s.to_string()), error: "broken".to_string() }
}

#[test]
fn mbid_conflicts_are_told_by_their_constraint() {
    assert!(is_mbid_conflict(&failure(Some("tracks_mbid_key"))));
    assert!(!is_mbid_conflict(&failure(Some("tracks_pkey"))));
    assert!(!is_mbid_conflict(&failure(None)));
}

fn open(step: BatchStep) -> WriteBatch {
    match step {
        BatchStep::Write { batch } => batch,
        other => panic!("{other:?}"),
    }
}

#[test]
fn a_conflicting_mbid_costs_only_that_write_its_mbid() {
    let batch = open(begin_batch(vec![write(1), write(2)]));
    assert_eq!((batch.next, batch.with_mbid), (0, true));
    assert_eq!(next_write(&batch), Some(write(1)));
    let batch = open(advance_batch(batch, Err(failure(Some("tracks_mbid_key")))));
    assert_eq!((batch.next, batch.with_mbid), (0, false));
    assert_ne!(next_write(&batch), Some(write(1)));
    let batch = open(advance_batch(batch, Ok(())));
    assert_eq!((batch.next, batch.with_mbid), (1, true));
    assert_eq!(advance_batch(batch, Ok(())), BatchStep::Done { result: Ok(()) });
}

#[test]
fn any_other_failure_ends_the_batch() {
    let failed = BatchStep::Done { result: Err("broken".to_string()) };
    let batch = open(begin_batch(vec![write(1), write(2)]));
    assert_eq!(advance_batch(batch, Err(failure(Some("tracks_pkey")))), failed);
    let again = WriteBatch { writes: vec![write(1)], next: 0, with_mbid: false };
    assert_eq!(advance_batch(again, Err(failure(Some("tracks_mbid_key")))), failed);
    assert_eq!(begin_batch(vec![]), BatchStep::Done { result: Ok(()) });
}

// The queue

fn at(secs: i64) -> Timestamp {
    Timestamp { secs, nanos: 0 }
}

fn row(status: JobStatus) -> JobRow {
    JobRow {
        status,
        attempts: 3,
        force: false,
        priority: PRIORITY_INGEST,
        next_attempt_at: at(10),
        started_at: Some(at(20)),
        finished_at: Some(at(30)),
        last_error: some("why"),
    }
}

#[test]
fn an_entity_is_queued_once() {
    let fresh = enqueue(None, PRIORITY_BACKFILL, at(1));
    assert_eq!(
        fresh,
        JobRow {
            status: JobStatus::Pending,
            attempts: 0,
            force: false,
            priority: PRIORITY_BACKFILL,
            next_attempt_at: at(1),
            started_at: None,
            finished_at: None,
            last_error: None,
        }
    );
    assert_eq!(
        enqueue(Some(row(JobStatus::Failed)), PRIORITY_INGEST, at(50)),
        row(JobStatus::Failed)
    );
}

#[test]
fn a_listen_queues_what_was_never_enriched() {
    let entry = |id, enriched| Some(CatalogEntry { id, enriched });
    assert_eq!(
        enqueue_for_ingest(entry(1, false), entry(2, true), entry(3, false)),
        vec![(EntityKind::Artist, 1), (EntityKind::Track, 3)]
    );
    assert_eq!(
        enqueue_for_ingest(entry(1, true), entry(2, false), None),
        vec![(EntityKind::Album, 2)]
    );
    assert_eq!(enqueue_for_ingest(None, None, None), vec![]);
}

#[test]
fn a_refresh_wins_over_the_running_pass() {
    let refreshed = request_refresh(Some(row(JobStatus::Running)), at(50));
    assert_eq!(refreshed.status, JobStatus::Pending);
    assert_eq!(refreshed.attempts, 0);
    assert!(refreshed.force);
    assert_eq!(refreshed.priority, PRIORITY_REFRESH);
    assert_eq!(refreshed.next_attempt_at, at(50));
    assert_eq!(refreshed.last_error, None);
    assert_eq!(refreshed.finished_at, None);
    // The pass that was running comes to its end: the refresh stands.
    let after = complete_job(request_refresh(Some(row(JobStatus::Running)), at(50)), at(60));
    assert_eq!(after, request_refresh(Some(row(JobStatus::Running)), at(50)));
}

#[test]
fn a_refresh_of_an_unknown_entity_is_queued() {
    let fresh = request_refresh(None, at(5));
    assert_eq!((fresh.status, fresh.force, fresh.priority), (JobStatus::Pending, true, 100));
}

#[test]
fn the_resweep_revives_finished_jobs_only() {
    for status in [JobStatus::Done, JobStatus::Failed] {
        assert_eq!(resweep(Some(row(status)), at(50)).status, JobStatus::Pending);
    }
    for status in [JobStatus::Pending, JobStatus::Running] {
        assert_eq!(resweep(Some(row(status)), at(50)), row(status));
    }
}

#[test]
fn a_job_is_claimed_once() {
    let claimed = claim(row(JobStatus::Pending), at(50));
    assert_eq!(claimed.status, JobStatus::Running);
    assert_eq!(claimed.started_at, Some(at(50)));
    assert_eq!(claim(row(JobStatus::Running), at(50)), row(JobStatus::Running));
    assert_eq!(claim(row(JobStatus::Pending), at(9)), row(JobStatus::Pending));
}

#[test]
fn status_writes_need_a_running_job() {
    for status in [JobStatus::Pending, JobStatus::Done, JobStatus::Failed] {
        assert_eq!(complete_job(row(status), at(50)), row(status));
        assert_eq!(reschedule_job(row(status), "e".to_string(), at(50)), row(status));
        assert_eq!(fail_job(row(status), "e".to_string(), at(50)), row(status));
    }
    let done = complete_job(row(JobStatus::Running), at(50));
    assert_eq!((done.status, done.finished_at), (JobStatus::Done, Some(at(50))));
    let failed = fail_job(row(JobStatus::Running), "e".to_string(), at(50));
    assert_eq!((failed.status, failed.last_error), (JobStatus::Failed, some("e")));
    let retried = reschedule_job(row(JobStatus::Running), "e".to_string(), at(50));
    assert_eq!((retried.status, retried.attempts), (JobStatus::Pending, 4));
    assert_eq!(retried.next_attempt_at, at(50));
}

#[test]
fn stuck_jobs_are_put_back() {
    let mut stuck = row(JobStatus::Running);
    stuck.started_at = Some(at(5));
    assert_eq!(reset_stuck(stuck, at(10), at(50)).status, JobStatus::Pending);
    assert_eq!(
        reset_stuck(row(JobStatus::Running), at(10), at(50)),
        row(JobStatus::Running)
    );
}

#[test]
fn a_write_without_its_mbid_keeps_the_rest() {
    let track = |mbid| CatalogWrite::Track {
        track_id: 1,
        track: TrackMetadata { mbid, duration_ms: Some(9) },
    };
    let album = |mbid| CatalogWrite::Album {
        album_id: 2,
        album: AlbumMetadata {
            mbid,
            image_url: Some("cover".to_string()),
            release_date: Some(CalendarDate { year: 2001, month: 3, day: 12 }),
        },
        overwrite: true,
    };
    let artist = |mbid| CatalogWrite::Artist {
        artist_id: 3,
        artist: ArtistMetadata {
            mbid,
            image_url: Some("face".to_string()),
            bio: Some("a life".to_string()),
        },
        overwrite: false,
    };
    let mbid = Some(Uuid { bits: 5 });
    let writes = || vec![track(mbid), album(mbid), artist(mbid)];
    let bare = [track(None), album(None), artist(None)];
    for (next, expected) in bare.into_iter().enumerate() {
        let batch = WriteBatch { writes: writes(), next, with_mbid: false };
        assert_eq!(next_write(&batch), Some(expected));
    }
    assert_eq!(next_write(&WriteBatch { writes: writes(), next: 3, with_mbid: true }), None);
}
