use newfm::errors::AppError;
use newfm::ingest::{CatalogIds, CatalogReply, CatalogStep};
use newfm::live::{
    advance_feed, advance_live, advance_now_playing, advance_now_playing_at, channel_name,
    get_now_playing, get_now_playing_at, live_now_playing, update_now_playing, FeedEvent,
    FeedStep, LiveError, LiveReply, LiveStep, NowPlayingReply, NowPlayingRequest, NowPlayingStep,
    UpsertNowPlaying,
};
use newfm::models::NowPlayingRich;
use newfm::time::{Timestamp, MAX_SECS};

fn at(secs: i64) -> Timestamp {
    Timestamp { secs, nanos: 0 }
}

fn report(duration_ms: Option<i32>, source: Option<&str>) -> NowPlayingRequest {
    NowPlayingRequest {
        track: "Joga".to_string(),
        artist: "Björk".to_string(),
        album: None,
        duration_ms,
        source: source.map(|s| s.to_string()),
    }
}

fn resolved(track_duration_ms: Option<i32>) -> NowPlayingStep {
    NowPlayingStep::Catalog {
        step: CatalogStep::Enqueue {
            ids: CatalogIds { artist_id: 1, album_id: Some(2), track_id: 3, track_duration_ms },
        },
    }
}

fn queued() -> NowPlayingReply {
    NowPlayingReply::Catalog(CatalogReply::Enqueued(Ok(())))
}

fn row(source: &str, expires_at: Timestamp) -> UpsertNowPlaying {
    UpsertNowPlaying {
        user_id: 9,
        track_id: 3,
        artist_id: 1,
        album_id: Some(2),
        source: source.to_string(),
        expires_at,
    }
}

#[test]
fn every_user_has_a_channel_of_their_own() {
    assert_eq!(channel_name(42), "now_playing:42");
    assert_ne!(channel_name(1), channel_name(11));
    assert_ne!(channel_name(1), channel_name(-1));
}

#[test]
fn the_state_expires_with_the_track() {
    let step = advance_now_playing_at(
        9,
        &report(Some(100_000), Some("mobile")),
        resolved(Some(200_000)),
        queued(),
        &at(1_000),
    );
    assert_eq!(
        step,
        NowPlayingStep::Live { step: LiveStep::Upsert { row: row("mobile", at(1_200)) } }
    );
}

#[test]
fn the_reported_duration_stands_in_for_the_catalog() {
    let step = advance_now_playing_at(
        9,
        &report(Some(100_000), None),
        resolved(None),
        queued(),
        &at(1_000),
    );
    assert_eq!(
        step,
        NowPlayingStep::Live { step: LiveStep::Upsert { row: row("extension", at(1_100)) } }
    );
}

#[test]
fn an_unknown_duration_is_five_minutes() {
    let step =
        advance_now_playing_at(9, &report(None, None), resolved(None), queued(), &at(1_000));
    assert_eq!(
        step,
        NowPlayingStep::Live { step: LiveStep::Upsert { row: row("extension", at(1_300)) } }
    );
}

#[test]
fn an_expiry_out_of_range_is_an_internal_error() {
    let step =
        advance_now_playing_at(9, &report(None, None), resolved(None), queued(), &at(MAX_SECS));
    assert_eq!(
        step,
        NowPlayingStep::Done {
            result: Err(AppError::Internal("expiry is out of range".to_string()))
        }
    );
}

#[test]
fn a_report_runs_to_its_end() {
    let body = report(Some(1_000), None);
    let mut step = update_now_playing(&body);
    assert_eq!(
        step,
        NowPlayingStep::Catalog { step: CatalogStep::Artist { name: "Björk".to_string() } }
    );
    let replies = vec![
        NowPlayingReply::Catalog(CatalogReply::Artist(Ok(1))),
        NowPlayingReply::Catalog(CatalogReply::Track(Ok((3, None)))),
        queued(),
        NowPlayingReply::Live(LiveReply::Upserted(Ok(()))),
        NowPlayingReply::Live(LiveReply::Read(Ok(true))),
    ];
    for reply in replies {
        step = advance_now_playing(9, &body, step, reply);
    }
    assert_eq!(
        step,
        NowPlayingStep::Live { step: LiveStep::Publish { channel: "now_playing:9".to_string() } }
    );
    step = advance_now_playing(
        9,
        &body,
        step,
        NowPlayingReply::Live(LiveReply::Published(Ok(()))),
    );
    assert_eq!(step, NowPlayingStep::Done { result: Ok(()) });
}

#[test]
fn failures_of_a_report_are_told_apart() {
    let body = report(None, None);
    let failed = |step: NowPlayingStep, reply: NowPlayingReply| {
        advance_now_playing(9, &body, step, reply)
    };
    assert_eq!(
        failed(
            update_now_playing(&body),
            NowPlayingReply::Catalog(CatalogReply::Artist(Err("down".to_string())))
        ),
        NowPlayingStep::Done { result: Err(AppError::Database("down".to_string())) }
    );
    let publish =
        || NowPlayingStep::Live { step: LiveStep::Publish { channel: "c".to_string() } };
    assert_eq!(
        failed(
            publish(),
            NowPlayingReply::Live(LiveReply::Published(Err(LiveError::Redis("r".to_string()))))
        ),
        NowPlayingStep::Done { result: Err(AppError::Redis("r".to_string())) }
    );
    assert_eq!(
        failed(
            publish(),
            NowPlayingReply::Live(LiveReply::Published(Err(LiveError::Encode("e".to_string()))))
        ),
        NowPlayingStep::Done { result: Err(AppError::Internal("e".to_string())) }
    );
}

#[test]
fn a_state_that_has_expired_is_not_published() {
    assert_eq!(
        advance_live(LiveStep::Read { user_id: 1 }, LiveReply::Read(Ok(false))),
        LiveStep::Done { result: Ok(()) }
    );
    assert_eq!(
        advance_live(LiveStep::Read { user_id: 1 }, LiveReply::Read(Err("x".to_string()))),
        LiveStep::Done { result: Err(LiveError::Db("x".to_string())) }
    );
    assert_eq!(
        advance_live(
            LiveStep::Upsert { row: row("x", at(1)) },
            LiveReply::Upserted(Err("x".to_string()))
        ),
        LiveStep::Done { result: Err(LiveError::Db("x".to_string())) }
    );
}

#[test]
fn the_current_state_comes_first() {
    let step = advance_feed(
        5,
        live_now_playing(5),
        FeedEvent::InitialPlaying { json: Some("{}".to_string()), expires_at: at(90) },
    );
    let until = Some(at(90));
    assert_eq!(step, FeedStep::SendInitial { data: "{}".to_string(), until });
    let step = advance_feed(5, step, FeedEvent::Sent { connected: true });
    assert_eq!(step, FeedStep::Subscribe { channel: "now_playing:5".to_string(), until });
    let step = advance_feed(5, step, FeedEvent::Subscribed { ok: true });
    assert_eq!(step, FeedStep::Receive { until });
}

#[test]
fn silence_is_an_explicit_null() {
    assert_eq!(live_now_playing(5), FeedStep::ReadInitial { user_id: 5 });
    let step = advance_feed(5, live_now_playing(5), FeedEvent::InitialNothing);
    assert_eq!(step, FeedStep::SendInitial { data: "null".to_string(), until: None });
}

#[test]
fn a_stream_goes_on_without_its_first_event() {
    let subscribe = |until| FeedStep::Subscribe { channel: "now_playing:5".to_string(), until };
    assert_eq!(advance_feed(5, live_now_playing(5), FeedEvent::InitialFailed), subscribe(None));
    let unreadable = FeedEvent::InitialPlaying { json: None, expires_at: at(90) };
    assert_eq!(advance_feed(5, live_now_playing(5), unreadable), subscribe(None));
    assert_eq!(
        advance_feed(5, subscribe(None), FeedEvent::Subscribed { ok: false }),
        FeedStep::Closed
    );
}

#[test]
fn a_subscriber_gets_the_messages_of_the_channel_in_order() {
    let messages = [
        ("now_playing:5", Some("a")),
        ("now_playing:6", Some("b")),
        ("now_playing:5", None),
        ("now_playing:5", Some("c")),
        ("now_playing:55", Some("d")),
    ];
    let mut sent = Vec::new();
    let mut step = FeedStep::Receive { until: None };
    for (channel, value) in messages {
        step = advance_feed(
            5,
            step,
            FeedEvent::Message {
                channel: channel.to_string(),
                value: value.map(|s| s.to_string()),
                expires_at: None,
            },
        );
        if let FeedStep::Forward { data, .. } = &step {
            sent.push(data.clone());
            step = advance_feed(5, step, FeedEvent::Sent { connected: true });
        }
        assert_eq!(step, FeedStep::Receive { until: None });
    }
    assert_eq!(sent, vec!["a".to_string(), "c".to_string()]);
}

#[test]
fn the_end_of_a_state_is_sent_as_null() {
    let message = |value: &str, expires_at| FeedEvent::Message {
        channel: "now_playing:5".to_string(),
        value: Some(value.to_string()),
        expires_at,
    };
    let mut sent = Vec::new();
    let mut step = FeedStep::Receive { until: Some(at(90)) };
    let events = vec![
        message("a", Some(at(300))),
        FeedEvent::Expired,
        // Nothing is left to expire.
        FeedEvent::Expired,
        message("b", Some(at(900))),
        FeedEvent::Expired,
        message("null", None),
        FeedEvent::Expired,
    ];
    for event in events {
        step = advance_feed(5, step, event);
        if let FeedStep::Forward { data, .. } = &step {
            sent.push(data.clone());
            step = advance_feed(5, step, FeedEvent::Sent { connected: true });
        }
    }
    assert_eq!(sent, vec!["a", "null", "b", "null", "null"]);
    assert_eq!(step, FeedStep::Receive { until: None });
}

#[test]
fn the_end_of_the_first_state_is_sent_too() {
    let step = advance_feed(5, FeedStep::Receive { until: Some(at(90)) }, FeedEvent::Expired);
    assert_eq!(step, FeedStep::Forward { data: "null".to_string(), until: None });
}

#[test]
fn a_client_that_has_gone_gets_nothing_more() {
    let forward = FeedStep::Forward { data: "x".to_string(), until: None };
    let step = advance_feed(5, forward, FeedEvent::Sent { connected: false });
    assert_eq!(step, FeedStep::Closed);
    let step = advance_feed(5, step, FeedEvent::Subscribed { ok: true });
    assert_eq!(step, FeedStep::Closed);
    let receive = FeedStep::Receive { until: None };
    assert_eq!(advance_feed(5, receive, FeedEvent::Lost), FeedStep::Closed);
}

fn stored(expires_at: i64) -> NowPlayingRich {
    NowPlayingRich {
        track_title: "Jóga".to_string(),
        artist_name: "Björk".to_string(),
        album_title: None,
        album_image: None,
        artist_image: None,
        started_at: Timestamp { secs: 0, nanos: 0 },
        expires_at: Timestamp { secs: expires_at, nanos: 0 },
        source: "extension".to_string(),
    }
}

#[test]
fn the_state_is_shown_until_it_expires() {
    let now = Timestamp { secs: 300, nanos: 0 };
    assert_eq!(get_now_playing_at(Some(stored(301)), &now), Some(stored(301)));
    assert_eq!(get_now_playing_at(Some(stored(300)), &now), None);
    assert_eq!(get_now_playing_at(None, &now), None);
    assert_eq!(get_now_playing(Some(stored(0))), None);
    assert_eq!(get_now_playing(Some(stored(8_000_000_000))), Some(stored(8_000_000_000)));
}
