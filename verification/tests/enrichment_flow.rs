use newfm::enrichment::album::{
    advance_album, album_request, enrich_album, AlbumCtx, AlbumReply, AlbumStep,
};
use newfm::enrichment::artist::{
    advance_artist, artist_request, bio_mbid, bio_report, enrich_artist, image_report, ArtistCtx, ArtistReply,
    ArtistStep,
};
use newfm::enrichment::track::{
    advance_track, enrich_track, track_request, TrackCtx, TrackReply, TrackStep,
};
use newfm::enrichment::{
    backoff_base_secs, note, parse_entity_kind, process, republishes, retry_or_fail, settle,
    sweep_due, EntityKind, Job, JobEnd, Processed, ProviderRequest,
};
use newfm::ids::Uuid;
use newfm::metadata::{
    AlbumMetadata, ArtistMetadata, CatalogWrite, TrackMetadata, WriteBatch, WriteFailure,
};
use newfm::providers::musicbrainz::{
    ArtistCredit, ArtistMatch, CreditedArtist, Recording, Release, ReleaseGroup,
};
use newfm::providers::{coverart, deezer, lastfm, musicbrainz, ProviderError};
use newfm::time::CalendarDate;

fn id(n: u128) -> Uuid {
    Uuid { bits: n }
}

fn text(s: &str) -> String {
    s.to_string()
}

fn transient(s: &str) -> ProviderError {
    ProviderError::Transient(s.to_string())
}

fn job(attempts: i32) -> Job {
    Job { id: 1, entity_type: text("artist"), entity_id: 2, attempts, force: false }
}

fn done(errors: &[&str]) -> Processed {
    Processed::Done { transient: errors.iter().map(|s| s.to_string()).collect(), image: false }
}

fn with_image(errors: &[&str]) -> Processed {
    Processed::Done { transient: errors.iter().map(|s| s.to_string()).collect(), image: true }
}

fn batch(writes: Vec<CatalogWrite>) -> WriteBatch {
    WriteBatch { writes, next: 0, with_mbid: true }
}

// Jobs

#[test]
fn only_transient_errors_are_noted() {
    let mut errors = Vec::new();
    note(&mut errors, transient("a"));
    note(&mut errors, ProviderError::Fatal(text("b")));
    note(&mut errors, transient("c"));
    assert_eq!(errors, vec![text("a"), text("c")]);
}

#[test]
fn delays_grow_fivefold_up_to_a_day() {
    let delays: Vec<u64> = (1..=8).map(backoff_base_secs).collect();
    assert_eq!(delays, vec![60, 300, 1_500, 7_500, 37_500, 86_400, 86_400, 86_400]);
    assert_eq!(backoff_base_secs(i32::MAX), 86_400);
}

#[test]
fn the_fifth_failure_is_final() {
    assert_eq!(
        retry_or_fail(&job(0), text("x"), false),
        JobEnd::Retry { error: text("x"), attempt: 1, base_delay_secs: 60, publish: false }
    );
    assert_eq!(
        retry_or_fail(&job(3), text("x"), true),
        JobEnd::Retry { error: text("x"), attempt: 4, base_delay_secs: 7_500, publish: true }
    );
    assert_eq!(
        retry_or_fail(&job(4), text("x"), false),
        JobEnd::Failed { error: text("x"), publish: false }
    );
    assert_eq!(
        retry_or_fail(&job(i32::MAX), text("x"), false),
        JobEnd::Failed { error: text("x"), publish: false }
    );
}

#[test]
fn a_job_is_done_when_no_transient_error_was_met() {
    assert_eq!(settle(&job(0), Ok(done(&[]))), JobEnd::Enriched);
    assert_eq!(settle(&job(0), Ok(Processed::EntityGone)), JobEnd::Gone);
    assert_eq!(
        settle(&job(0), Ok(done(&["a", "b", "c"]))),
        JobEnd::Retry { error: text("a; b; c"), attempt: 1, base_delay_secs: 60, publish: false }
    );
    assert_eq!(
        settle(&job(4), Err(text("down"))),
        JobEnd::Failed { error: text("db error: down"), publish: false }
    );
}

#[test]
fn the_kind_of_a_job_says_what_it_does() {
    assert_eq!(parse_entity_kind("artist"), Some(EntityKind::Artist));
    assert_eq!(parse_entity_kind("album"), Some(EntityKind::Album));
    assert_eq!(parse_entity_kind("track"), Some(EntityKind::Track));
    assert_eq!(parse_entity_kind("Artist"), None);
    assert_eq!(process(&job(0)), Ok(EntityKind::Artist));
    let mut unknown = job(0);
    unknown.entity_type = text("label");
    assert_eq!(
        process(&unknown),
        Err(JobEnd::Failed { error: text("unknown entity type"), publish: false })
    );
}

#[test]
fn only_artwork_is_republished() {
    assert!(republishes(EntityKind::Artist, &JobEnd::Enriched));
    assert!(republishes(EntityKind::Album, &JobEnd::Enriched));
    assert!(!republishes(EntityKind::Track, &JobEnd::Enriched));
    assert!(!republishes(EntityKind::Artist, &JobEnd::Gone));
}

#[test]
fn a_stored_image_is_published_though_the_job_is_put_back() {
    let retried = settle(&job(0), Ok(with_image(&["lastfm is down"])));
    assert!(matches!(retried, JobEnd::Retry { .. }));
    assert!(republishes(EntityKind::Artist, &retried));
    assert!(republishes(EntityKind::Album, &retried));
    assert!(!republishes(EntityKind::Track, &retried));
    let failed = settle(&job(4), Ok(with_image(&["lastfm is down"])));
    assert!(matches!(failed, JobEnd::Failed { .. }));
    assert!(republishes(EntityKind::Artist, &failed));
    let without = settle(&job(0), Ok(done(&["lastfm is down"])));
    assert!(!republishes(EntityKind::Artist, &without));
    assert!(!republishes(EntityKind::Artist, &settle(&job(0), Err(text("down")))));
}

#[test]
fn sweeps_are_due_at_startup_and_every_six_hours() {
    let due: Vec<u64> = (0..30).filter(|tick| sweep_due(*tick)).collect();
    assert_eq!(due, vec![0, 12, 24]);
}

// Artists

fn artist(mbid: Option<Uuid>, image: Option<&str>, bio: Option<&str>) -> ArtistCtx {
    ArtistCtx {
        id: 2,
        name: text("Björk"),
        mbid,
        image_url: image.map(text),
        bio: bio.map(text),
    }
}

fn start_artist(force: bool, has_lastfm: bool, ctx: ArtistCtx) -> ArtistStep {
    advance_artist(force, has_lastfm, enrich_artist(2), ArtistReply::Loaded(Ok(Some(ctx))))
}

#[test]
fn an_artist_job_asks_for_everything_that_is_missing() {
    let step = start_artist(false, true, artist(None, None, None));
    assert!(matches!(step, ArtistStep::Search { .. }));
    let step = advance_artist(
        false,
        true,
        step,
        ArtistReply::Match(Ok(Some(ArtistMatch { id: id(7), score: Some(100) }))),
    );
    assert!(matches!(step, ArtistStep::Image { .. }));
    let step = advance_artist(false, true, step, ArtistReply::Image(Err(transient("slow"))));
    let ArtistStep::Bio { run } = &step else { panic!("{step:?}") };
    assert_eq!(bio_mbid(run), Some(id(7)));
    let step = advance_artist(false, true, step, ArtistReply::Bio(Ok(Some(text("bio")))));
    assert_eq!(
        step,
        ArtistStep::Apply {
            batch: batch(vec![CatalogWrite::Artist {
                artist_id: 2,
                artist: ArtistMetadata {
                    mbid: Some(id(7)),
                    image_url: None,
                    bio: Some(text("bio")),
                },
                overwrite: false,
            }]),
            transient: vec![text("slow")],
            image: false,
        }
    );
    let step = advance_artist(false, true, step, ArtistReply::Written(Ok(())));
    assert_eq!(step, ArtistStep::Done { result: Ok(done(&["slow"])) });
}

#[test]
fn an_artist_job_asks_by_the_name_and_the_mbid() {
    let step = enrich_artist(2);
    assert_eq!(artist_request(&step, Some("key")), None);
    let step = start_artist(false, true, artist(None, None, None));
    assert_eq!(
        artist_request(&step, Some("key")),
        Some(ProviderRequest::MusicBrainz { get: musicbrainz::search_artist("Björk") })
    );
    let found = ArtistReply::Match(Ok(Some(ArtistMatch { id: id(7), score: Some(100) })));
    let step = advance_artist(false, true, step, found);
    assert_eq!(
        artist_request(&step, Some("key")),
        Some(ProviderRequest::Deezer {
            get: deezer::artist_image("Björk"),
            wanted: text("Björk"),
        })
    );
    let step = advance_artist(false, true, step, ArtistReply::Image(Ok(None)));
    assert_eq!(
        artist_request(&step, Some("key")),
        Some(ProviderRequest::Lastfm { get: lastfm::artist_bio("key", "Björk", Some(id(7))) })
    );
    assert_eq!(artist_request(&step, None), None);
    let step = advance_artist(false, true, step, ArtistReply::Bio(Ok(None)));
    assert_eq!(artist_request(&step, Some("key")), None);
}

#[test]
fn a_complete_artist_asks_nothing() {
    let step = start_artist(false, true, artist(Some(id(1)), Some("i"), Some("b")));
    assert!(matches!(step, ArtistStep::Apply { .. }));
}

#[test]
fn a_forced_refresh_asks_again() {
    let step = start_artist(true, false, artist(Some(id(1)), Some("i"), Some("b")));
    assert!(matches!(step, ArtistStep::Image { .. }));
    let step = advance_artist(true, false, step, ArtistReply::Image(Ok(Some(text("new")))));
    let ArtistStep::Apply { batch, .. } = &step else { panic!() };
    assert_eq!(
        batch.writes,
        vec![CatalogWrite::Artist {
            artist_id: 2,
            artist: ArtistMetadata { mbid: None, image_url: Some(text("new")), bio: None },
            overwrite: true,
        }]
    );
    let step = advance_artist(true, false, step, ArtistReply::Written(Ok(())));
    assert_eq!(step, ArtistStep::Done { result: Ok(with_image(&[])) });
}

#[test]
fn an_image_counts_though_another_provider_failed() {
    let step = start_artist(false, true, artist(Some(id(1)), None, None));
    let step = advance_artist(false, true, step, ArtistReply::Image(Ok(Some(text("new")))));
    let step = advance_artist(false, true, step, ArtistReply::Bio(Err(transient("slow"))));
    let step = advance_artist(false, true, step, ArtistReply::Written(Ok(())));
    assert_eq!(step, ArtistStep::Done { result: Ok(with_image(&["slow"])) });
    let step = start_album(false, album(None, None));
    let step = advance_album(false, step, AlbumReply::Release(Err(transient("busy"))));
    let AlbumStep::Fallback { .. } = &step else { panic!("{step:?}") };
    let step = advance_album(false, step, AlbumReply::Cover(Ok(Some(text("deezer")))));
    let step = advance_album(false, step, AlbumReply::Written(Ok(())));
    assert_eq!(step, AlbumStep::Done { result: Ok(with_image(&["busy"])) });
}

#[test]
fn without_lastfm_no_bio_is_asked_for() {
    let step = start_artist(false, false, artist(Some(id(1)), Some("i"), None));
    assert!(matches!(step, ArtistStep::Apply { .. }));
}

#[test]
fn an_mbid_conflict_costs_the_mbid_and_not_the_job() {
    let step = start_artist(false, false, artist(Some(id(1)), Some("i"), None));
    let conflict = WriteFailure {
        constraint: Some(text("artists_mbid_key")),
        error: text("duplicate key"),
    };
    let step = advance_artist(false, false, step, ArtistReply::Written(Err(conflict)));
    let ArtistStep::Apply { batch, .. } = &step else { panic!("{step:?}") };
    assert!(!batch.with_mbid);
    let step = advance_artist(false, false, step, ArtistReply::Written(Ok(())));
    assert_eq!(step, ArtistStep::Done { result: Ok(done(&[])) });
}

#[test]
fn an_artist_that_is_gone_ends_the_job() {
    assert_eq!(enrich_artist(2), ArtistStep::Load { id: 2 });
    assert_eq!(
        advance_artist(false, false, enrich_artist(2), ArtistReply::Loaded(Ok(None))),
        ArtistStep::Done { result: Ok(Processed::EntityGone) }
    );
    assert_eq!(
        advance_artist(false, false, enrich_artist(2), ArtistReply::Loaded(Err(text("down")))),
        ArtistStep::Done { result: Err(text("down")) }
    );
}

#[test]
fn a_forced_refresh_reports_what_it_did() {
    let some = |s: &str| Some(s.to_string());
    assert_eq!(image_report(&some("a"), &some("a")), "re-fetched, unchanged");
    assert_eq!(image_report(&some("a"), &some("b")), "updated");
    assert_eq!(image_report(&some("a"), &None), "added");
    assert_eq!(image_report(&None, &some("a")), "kept (provider returned none)");
    assert_eq!(image_report(&None, &None), "none found");
    assert_eq!(bio_report(false, true, true), "skipped (LASTFM_API_KEY not set)");
    assert_eq!(bio_report(true, true, false), "fetched");
    assert_eq!(bio_report(true, false, true), "kept (provider returned none)");
    assert_eq!(bio_report(true, false, false), "none found");
}

// Albums

fn album(mbid: Option<Uuid>, image: Option<&str>) -> AlbumCtx {
    AlbumCtx {
        id: 5,
        title: text("Post"),
        mbid,
        image_url: image.map(text),
        release_date: None,
        artist_name: text("Björk"),
    }
}

fn release(group: Option<Uuid>) -> Release {
    Release {
        id: id(20),
        score: Some(100),
        title: text("Post"),
        date: Some(text("1995-06")),
        status: None,
        release_group: group.map(|id| ReleaseGroup { id }),
    }
}

fn start_album(force: bool, ctx: AlbumCtx) -> AlbumStep {
    advance_album(force, enrich_album(5), AlbumReply::Loaded(Ok(Some(ctx))))
}

fn album_written(step: AlbumStep) -> (AlbumMetadata, Vec<String>) {
    let AlbumStep::Apply { batch, transient, .. } = step else { panic!("{step:?}") };
    let mut writes = batch.writes;
    assert_eq!(writes.len(), 1);
    match writes.remove(0) {
        CatalogWrite::Album { album_id: 5, album, .. } => (album, transient),
        other => panic!("{other:?}"),
    }
}

#[test]
fn an_album_job_asks_by_title_artist_and_mbid() {
    let step = start_album(false, album(None, None));
    assert_eq!(
        album_request(&step),
        Some(ProviderRequest::MusicBrainz { get: musicbrainz::search_release("Post", "Björk") })
    );
    let step = advance_album(false, step, AlbumReply::Release(Ok(Some(release(None)))));
    let cover = |kind, mbid| {
        Some(ProviderRequest::CoverArt { url: coverart::front_cover_url(kind, mbid) })
    };
    assert_eq!(album_request(&step), cover(coverart::CoverKind::Release, id(20)));
    let step = advance_album(false, step, AlbumReply::Cover(Ok(None)));
    assert_eq!(
        album_request(&step),
        Some(ProviderRequest::MusicBrainz { get: musicbrainz::lookup_release_group(id(20)) })
    );
    let step = advance_album(false, step, AlbumReply::Group(Ok(Some(id(30)))));
    assert_eq!(album_request(&step), cover(coverart::CoverKind::ReleaseGroup, id(30)));
    let step = advance_album(false, step, AlbumReply::Cover(Ok(None)));
    assert_eq!(
        album_request(&step),
        Some(ProviderRequest::Deezer {
            get: deezer::album_cover("Björk", "Post"),
            wanted: text("Post"),
        })
    );
    let step = advance_album(false, step, AlbumReply::Cover(Ok(None)));
    assert_eq!(album_request(&step), None);
}

#[test]
fn a_cover_of_the_release_is_taken() {
    let step = start_album(false, album(None, None));
    assert!(matches!(step, AlbumStep::Search { .. }));
    let step = advance_album(false, step, AlbumReply::Release(Ok(Some(release(None)))));
    assert!(matches!(step, AlbumStep::ReleaseCover { mbid, .. } if mbid == id(20)));
    let step = advance_album(false, step, AlbumReply::Cover(Ok(Some(text("caa")))));
    assert_eq!(
        album_written(step),
        (
            AlbumMetadata {
                mbid: Some(id(20)),
                image_url: Some(text("caa")),
                release_date: Some(CalendarDate { year: 1995, month: 6, day: 1 }),
            },
            vec![]
        )
    );
}

#[test]
fn a_release_without_art_falls_back_to_its_group() {
    let step = start_album(false, album(None, None));
    let step = advance_album(false, step, AlbumReply::Release(Ok(Some(release(Some(id(30)))))));
    let step = advance_album(false, step, AlbumReply::Cover(Ok(None)));
    assert!(matches!(step, AlbumStep::GroupCover { group, .. } if group == id(30)));
    let step = advance_album(false, step, AlbumReply::Cover(Ok(Some(text("group")))));
    assert_eq!(album_written(step).0.image_url, Some(text("group")));
}

#[test]
fn an_unknown_group_is_looked_up() {
    let step = start_album(false, album(Some(id(20)), None));
    let step = advance_album(false, step, AlbumReply::Cover(Ok(None)));
    assert!(matches!(step, AlbumStep::Group { mbid, .. } if mbid == id(20)));
    let step = advance_album(false, step, AlbumReply::Group(Ok(Some(id(31)))));
    let step = advance_album(false, step, AlbumReply::Cover(Err(transient("archive"))));
    assert!(matches!(step, AlbumStep::Fallback { .. }));
    let step = advance_album(false, step, AlbumReply::Cover(Ok(Some(text("deezer")))));
    let (meta, errors) = album_written(step);
    assert_eq!(meta.image_url, Some(text("deezer")));
    assert_eq!(errors, vec![text("archive")]);
}

#[test]
fn an_archive_failure_skips_the_group() {
    let step = start_album(true, album(Some(id(20)), Some("old")));
    let step = advance_album(true, step, AlbumReply::Cover(Err(transient("archive"))));
    assert!(matches!(step, AlbumStep::Fallback { .. }));
    let step = advance_album(true, step, AlbumReply::Cover(Ok(None)));
    assert_eq!(album_written(step), (AlbumMetadata::default(), vec![text("archive")]));
}

#[test]
fn an_album_without_an_mbid_goes_to_deezer() {
    let step = start_album(false, album(None, None));
    let step = advance_album(false, step, AlbumReply::Release(Ok(None)));
    assert!(matches!(step, AlbumStep::Fallback { .. }));
}

#[test]
fn a_complete_album_asks_nothing() {
    let step = start_album(false, album(Some(id(1)), Some("i")));
    let step = advance_album(false, step, AlbumReply::Written(Ok(())));
    assert_eq!(step, AlbumStep::Done { result: Ok(done(&[])) });
    let gone = advance_album(false, enrich_album(5), AlbumReply::Loaded(Ok(None)));
    assert_eq!(gone, AlbumStep::Done { result: Ok(Processed::EntityGone) });
}

// Tracks

fn track(mbid: Option<Uuid>, duration_ms: Option<i32>) -> TrackCtx {
    TrackCtx {
        id: 3,
        title: text("Army of Me"),
        mbid,
        duration_ms,
        artist_id: 2,
        artist_name: text("Björk"),
        artist_mbid: None,
        album_id: Some(5),
        album_title: Some(text("post")),
        album_mbid: None,
    }
}

fn recording(length: Option<i64>) -> Recording {
    Recording {
        id: id(40),
        score: Some(100),
        length,
        artist_credit: vec![
            ArtistCredit { artist: CreditedArtist { id: id(50) } },
            ArtistCredit { artist: CreditedArtist { id: id(51) } },
        ],
        releases: vec![release(None)],
    }
}

fn start_track(ctx: TrackCtx) -> TrackStep {
    advance_track(enrich_track(3), TrackReply::Loaded(Ok(Some(ctx))))
}

#[test]
fn a_recording_fills_track_artist_and_album() {
    let step = start_track(track(None, None));
    assert!(matches!(step, TrackStep::Search { .. }));
    let step = advance_track(step, TrackReply::Recording(Ok(Some(recording(Some(234_000))))));
    let TrackStep::Apply { batch, transient } = &step else { panic!("{step:?}") };
    assert_eq!(transient, &Vec::<String>::new());
    assert_eq!(
        batch.writes,
        vec![
            CatalogWrite::Track {
                track_id: 3,
                track: TrackMetadata { mbid: Some(id(40)), duration_ms: Some(234_000) },
            },
            CatalogWrite::Artist {
                artist_id: 2,
                artist: ArtistMetadata { mbid: Some(id(50)), image_url: None, bio: None },
                overwrite: false,
            },
            CatalogWrite::Album {
                album_id: 5,
                album: AlbumMetadata {
                    mbid: Some(id(20)),
                    image_url: None,
                    release_date: Some(CalendarDate { year: 1995, month: 6, day: 1 }),
                },
                overwrite: false,
            },
        ]
    );
    let step = advance_track(step, TrackReply::Written(Ok(())));
    let step = advance_track(step, TrackReply::Written(Ok(())));
    let step = advance_track(step, TrackReply::Written(Ok(())));
    assert_eq!(step, TrackStep::Done { result: Ok(done(&[])) });
}

#[test]
fn a_track_job_searches_or_looks_up() {
    let search = start_track(track(None, None));
    let TrackStep::Search { ctx } = &search else { panic!("{search:?}") };
    assert_eq!(
        track_request(&search),
        Some(ProviderRequest::MusicBrainz {
            get: musicbrainz::search_recording(&ctx.title, &ctx.artist_name),
        })
    );
    assert_eq!(
        track_request(&start_track(track(Some(id(40)), None))),
        Some(ProviderRequest::MusicBrainz { get: musicbrainz::lookup_recording(id(40)) })
    );
    assert_eq!(track_request(&enrich_track(3)), None);
}

#[test]
fn known_mbids_are_not_written_again() {
    let mut ctx = track(Some(id(40)), None);
    ctx.artist_mbid = Some(id(1));
    ctx.album_mbid = Some(id(2));
    let step = start_track(ctx);
    assert!(matches!(step, TrackStep::Lookup { mbid, .. } if mbid == id(40)));
    let step = advance_track(step, TrackReply::Recording(Ok(Some(recording(Some(1 << 40))))));
    let TrackStep::Apply { batch, .. } = step else { panic!() };
    assert_eq!(
        batch.writes,
        vec![CatalogWrite::Track {
            track_id: 3,
            track: TrackMetadata { mbid: Some(id(40)), duration_ms: None },
        }]
    );
}

#[test]
fn an_album_of_another_title_is_not_identified() {
    let mut ctx = track(None, None);
    ctx.album_title = Some(text("Homogenic"));
    let step = start_track(ctx);
    let step = advance_track(step, TrackReply::Recording(Ok(Some(recording(None)))));
    let TrackStep::Apply { batch, .. } = step else { panic!() };
    assert_eq!(batch.writes.len(), 2);
}

#[test]
fn a_complete_track_asks_nothing() {
    assert_eq!(
        start_track(track(Some(id(1)), Some(1))),
        TrackStep::Done { result: Ok(done(&[])) }
    );
}

#[test]
fn a_track_that_was_not_found_is_done() {
    let step = advance_track(start_track(track(None, None)), TrackReply::Recording(Ok(None)));
    assert_eq!(step, TrackStep::Done { result: Ok(done(&[])) });
    let failed = advance_track(
        start_track(track(None, None)),
        TrackReply::Recording(Err(transient("busy"))),
    );
    assert_eq!(failed, TrackStep::Done { result: Ok(done(&["busy"])) });
    let gone = advance_track(enrich_track(3), TrackReply::Loaded(Ok(None)));
    assert_eq!(gone, TrackStep::Done { result: Ok(Processed::EntityGone) });
}
