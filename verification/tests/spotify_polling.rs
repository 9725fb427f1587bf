use newfm::accounts::{mark_polled, ConnectedAccount, RefreshReply, RefreshStep};
use newfm::ingest::{CatalogReply, CatalogStep, IngestError};
use newfm::live::{LiveError, LiveReply, LiveStep, UpsertNowPlaying};
use newfm::poller::{
    advance_poll, advance_poll_at, advance_watch, advance_watch_at, is_enabled, is_same_track,
    poll_account, poll_now_playing, poll_request, watch_request, PollReply, PollStep, WatchReply,
    WatchStep,
};
use newfm::scrobble::{validate_at, ScrobbleInput};
use newfm::spotify::{
    currently_playing_request, recently_played_request, CurrentlyPlaying, RecentlyPlayedItem,
    SpotifyError, SpotifyRequest, SpotifyTokens,
};
use newfm::time::Timestamp;

fn text(s: &str) -> String {
    s.to_string()
}

fn at(secs: i64) -> Timestamp {
    Timestamp { secs, nanos: 0 }
}

fn account() -> ConnectedAccount {
    ConnectedAccount {
        id: 3,
        user_id: 7,
        provider: text("spotify"),
        provider_user_id: text("bjork"),
        access_token: text("access"),
        refresh_token: Some(text("refresh")),
        token_type: text("Bearer"),
        scope: None,
        expires_at: None,
        last_polled_at: None,
        last_error: None,
        is_active: true,
        created_at: at(1),
        updated_at: at(1),
    }
}

fn tokens() -> SpotifyTokens {
    SpotifyTokens {
        access_token: text("new"),
        refresh_token: None,
        expires_in: 3_600,
        scope: text("s"),
        token_type: text("Bearer"),
    }
}

fn play(title: &str, played_at: i64) -> RecentlyPlayedItem {
    RecentlyPlayedItem {
        track_title: text(title),
        artist_name: text("Björk"),
        album_title: Some(text("Homogenic")),
        duration_ms: 9_000,
        played_at: at(played_at),
    }
}

// The listening history

#[test]
fn polling_needs_credentials() {
    assert!(is_enabled(&Some(text("id")), &Some(text("secret"))));
    assert!(!is_enabled(&None, &Some(text("secret"))));
    assert!(!is_enabled(&Some(text("id")), &None));
}

#[test]
fn polls_follow_on() {
    assert_eq!(
        poll_account(&account()),
        PollStep::Fetch { access_token: text("access"), after_ms: None }
    );
    let polled =
        mark_polled(account(), Timestamp { secs: 100, nanos: 250_000_000 }, None);
    assert_eq!(
        poll_account(&polled),
        PollStep::Fetch { access_token: text("access"), after_ms: Some(100_250) }
    );
}

#[test]
fn every_play_is_ingested_in_order() {
    let account = account();
    let items = vec![play("Joga", 50), play("Bachelorette", 40), play("Hunter", 30)];
    let mut step = advance_poll(&account, poll_account(&account), PollReply::Items(Ok(items)));
    let mut titles = Vec::new();
    let outcomes = [
        Err(IngestError::Duplicate),
        Err(IngestError::Db(text("down"))),
        Ok(1),
    ];
    for outcome in outcomes {
        let PollStep::Ingest { inputs, next } = &step else { panic!("{step:?}") };
        titles.push(inputs[*next].track_title.clone());
        step = advance_poll(&account, step, PollReply::Ingested(outcome));
    }
    assert_eq!(titles, vec![text("Joga"), text("Bachelorette"), text("Hunter")]);
    assert!(matches!(step, PollStep::MarkPolled { .. }));
    let step = advance_poll(&account, step, PollReply::Marked(Ok(())));
    assert_eq!(step, PollStep::NowPlaying);
    // The live state is best-effort.
    let step = advance_poll(&account, step, PollReply::NowPlaying(Err(text("scope"))));
    assert_eq!(step, PollStep::Done { result: Ok(()) });
}

#[test]
fn a_play_is_a_full_listen() {
    let account = account();
    let step = advance_poll(
        &account,
        poll_account(&account),
        PollReply::Items(Ok(vec![play("Joga", 50)])),
    );
    let PollStep::Ingest { inputs, next: 0 } = step else { panic!() };
    assert_eq!(
        inputs,
        vec![ScrobbleInput {
            track_title: text("Joga"),
            artist_name: text("Björk"),
            album_title: Some(text("Homogenic")),
            played_at: at(50),
            duration_ms: Some(9_000),
            listened_ms: Some(9_000),
            source: text("spotify"),
        }]
    );
    assert_eq!(validate_at(&inputs[0], &at(60)), Ok(()));
}

#[test]
fn a_poll_without_plays_is_marked() {
    let account = account();
    let none = PollReply::Items(Ok(vec![]));
    let step = advance_poll_at(&account, poll_account(&account), none, &at(70));
    assert_eq!(step, PollStep::MarkPolled { at: at(70) });
    assert_eq!(
        advance_poll(&account, step, PollReply::Marked(Err(text("down")))),
        PollStep::Done { result: Err(text("down")) }
    );
}

#[test]
fn a_refused_token_is_refreshed_once() {
    let account = account();
    let now = at(100);
    let refused = PollReply::Items(Err(SpotifyError::Unauthorized));
    let step = advance_poll_at(&account, poll_account(&account), refused, &now);
    assert_eq!(
        step,
        PollStep::Refresh { step: RefreshStep::Request { refresh_token: text("refresh") } }
    );
    let reply = PollReply::Refresh(RefreshReply::Tokens(Ok(tokens())));
    let step = advance_poll_at(&account, step, reply, &now);
    assert_eq!(
        step,
        PollStep::Refresh {
            step: RefreshStep::Store { tokens: tokens(), expires_at: at(3_700) }
        }
    );
    let step =
        advance_poll_at(&account, step, PollReply::Refresh(RefreshReply::Stored(Ok(()))), &now);
    assert_eq!(step, PollStep::Retry { access_token: text("new"), after_ms: None });
    let again = PollReply::Items(Err(SpotifyError::Unauthorized));
    let step = advance_poll_at(&account, step, again, &now);
    let reason = text("spotify access token is invalid or expired");
    assert_eq!(step, PollStep::MarkRefused { error: reason.clone(), at: now });
    // Marking a refused account is best-effort.
    let step = advance_poll_at(&account, step, PollReply::Marked(Err(text("down"))), &now);
    assert_eq!(step, PollStep::Done { result: Err(reason) });
}

#[test]
fn a_retry_can_succeed() {
    let account = account();
    let retry = PollStep::Retry { access_token: text("new"), after_ms: None };
    let step = advance_poll(&account, retry, PollReply::Items(Ok(vec![play("Joga", 5)])));
    assert!(matches!(step, PollStep::Ingest { next: 0, .. }));
}

#[test]
fn an_account_without_a_refresh_token_is_marked() {
    let mut account = account();
    account.refresh_token = None;
    let step = advance_poll_at(
        &account,
        poll_account(&account),
        PollReply::Items(Err(SpotifyError::Unauthorized)),
        &at(70),
    );
    let error = text("no refresh_token stored for account 3");
    assert_eq!(step, PollStep::MarkRefused { error, at: at(70) });
}

#[test]
fn a_failed_fetch_is_marked() {
    let account = account();
    let fail = || {
        advance_poll_at(
            &account,
            poll_account(&account),
            PollReply::Items(Err(SpotifyError::Http(text("timeout")))),
            &at(70),
        )
    };
    let error = text("http error: timeout");
    assert_eq!(fail(), PollStep::MarkFailed { error, at: at(70) });
    assert_eq!(
        advance_poll(&account, fail(), PollReply::Marked(Ok(()))),
        PollStep::Done { result: Err(text("http error: timeout")) }
    );
    assert_eq!(
        advance_poll(&account, fail(), PollReply::Marked(Err(text("down")))),
        PollStep::Done { result: Err(text("down")) }
    );
}

// What is playing

fn current(duration_ms: i32, progress_ms: i32) -> CurrentlyPlaying {
    CurrentlyPlaying {
        track_title: text("Joga"),
        artist_name: text("Björk"),
        album_title: None,
        duration_ms,
        progress_ms,
    }
}

fn existing(title: &str, artist: &str) -> WatchReply {
    WatchReply::Existing(Ok(Some((text(title), text(artist)))))
}

#[test]
fn without_a_channel_nothing_is_asked() {
    assert_eq!(poll_now_playing(&account(), false), WatchStep::Done { result: Ok(()) });
    assert_eq!(
        poll_now_playing(&account(), true),
        WatchStep::Current { access_token: text("access") }
    );
}

#[test]
fn silence_changes_nothing() {
    let account = account();
    let step =
        advance_watch(&account, poll_now_playing(&account, true), WatchReply::Current(Ok(None)));
    assert_eq!(step, WatchStep::Done { result: Ok(()) });
}

#[test]
fn a_track_that_keeps_playing_changes_nothing() {
    let account = account();
    let step = advance_watch(
        &account,
        WatchStep::Existing { current: current(10, 5) },
        existing(" JOGA", "björk "),
    );
    assert_eq!(step, WatchStep::Done { result: Ok(()) });
    let recorded = |title: &str, artist: &str| Some((text(title), text(artist)));
    assert!(is_same_track(&recorded("joga", "björk"), &current(10, 5)));
    assert!(!is_same_track(&recorded("joga", "bjork"), &current(10, 5)));
    assert!(!is_same_track(&recorded("Hunter", "Björk"), &current(10, 5)));
    assert!(!is_same_track(&None, &current(10, 5)));
}

#[test]
fn a_new_track_is_recorded_and_published() {
    let account = account();
    let now = at(1_000);
    let step = WatchStep::Existing { current: current(305_000, 5_000) };
    let step = advance_watch_at(&account, step, existing("Hunter", "Björk"), &now);
    assert_eq!(
        step,
        WatchStep::Catalog {
            current: current(305_000, 5_000),
            step: CatalogStep::Artist { name: text("Björk") },
        }
    );
    let replies = vec![
        WatchReply::Catalog(CatalogReply::Artist(Ok(1))),
        WatchReply::Catalog(CatalogReply::Track(Ok((3, None)))),
        WatchReply::Catalog(CatalogReply::Enqueued(Err(text("full")))),
    ];
    let mut step = step;
    for reply in replies {
        step = advance_watch_at(&account, step, reply, &now);
    }
    assert_eq!(
        step,
        WatchStep::Live {
            step: LiveStep::Upsert {
                row: UpsertNowPlaying {
                    user_id: 7,
                    track_id: 3,
                    artist_id: 1,
                    album_id: None,
                    source: text("spotify"),
                    expires_at: at(1_300),
                }
            }
        }
    );
    let step = advance_watch_at(
        &account,
        step,
        WatchReply::Live(LiveReply::Upserted(Ok(()))),
        &now,
    );
    let step =
        advance_watch_at(&account, step, WatchReply::Live(LiveReply::Read(Ok(true))), &now);
    assert_eq!(
        step,
        WatchStep::Live { step: LiveStep::Publish { channel: text("now_playing:7") } }
    );
    let failed = WatchReply::Live(LiveReply::Published(Err(LiveError::Redis(text("gone")))));
    assert_eq!(
        advance_watch_at(&account, step, failed, &now),
        WatchStep::Done { result: Err(text("gone")) }
    );
}

#[test]
fn a_track_at_its_end_expires_now() {
    let account = account();
    for (duration_ms, progress_ms) in [(10, 10), (10, 99), (i32::MIN, i32::MAX)] {
        let step = WatchStep::Catalog {
            current: current(duration_ms, progress_ms),
            step: CatalogStep::Track {
                artist_id: 1,
                album_id: None,
                title: text("Joga"),
                duration_ms: Some(duration_ms),
            },
        };
        let step = advance_watch_at(
            &account,
            step,
            WatchReply::Catalog(CatalogReply::Track(Ok((3, None)))),
            &at(50),
        );
        let step = advance_watch_at(
            &account,
            step,
            WatchReply::Catalog(CatalogReply::Enqueued(Ok(()))),
            &at(50),
        );
        let WatchStep::Live { step: LiveStep::Upsert { row } } = step else { panic!() };
        assert_eq!(row.expires_at, at(50));
    }
}

#[test]
fn the_live_state_refreshes_a_refused_token() {
    let account = account();
    let now = at(100);
    let refused = WatchReply::Current(Err(SpotifyError::Unauthorized));
    let step = advance_watch_at(&account, poll_now_playing(&account, true), refused, &now);
    let reply = WatchReply::Refresh(RefreshReply::Tokens(Ok(tokens())));
    let step = advance_watch_at(&account, step, reply, &now);
    let reply = WatchReply::Refresh(RefreshReply::Stored(Ok(())));
    let step = advance_watch_at(&account, step, reply, &now);
    assert_eq!(step, WatchStep::Retry { access_token: text("new") });
    let failed = WatchReply::Current(Err(SpotifyError::Api(text("x"))));
    assert_eq!(
        advance_watch_at(&account, step, failed, &now),
        WatchStep::Done { result: Err(text("spotify returned an error: x")) }
    );
}

#[test]
fn failures_end_the_poll_of_the_live_state() {
    let account = account();
    let step = advance_watch(
        &account,
        WatchStep::Existing { current: current(10, 5) },
        WatchReply::Existing(Err(text("down"))),
    );
    assert_eq!(step, WatchStep::Done { result: Err(text("down")) });
    let step = advance_watch(
        &account,
        WatchStep::Catalog {
            current: current(10, 5),
            step: CatalogStep::Artist { name: text("Björk") },
        },
        WatchReply::Catalog(CatalogReply::Artist(Err(text("down")))),
    );
    assert_eq!(step, WatchStep::Done { result: Err(text("down")) });
}

#[test]
fn the_state_expires_by_the_clock_at_its_resolution() {
    let account = account();
    let mut step = WatchStep::Existing { current: current(305_000, 5_000) };
    let replies = vec![
        existing("Hunter", "Björk"),
        WatchReply::Catalog(CatalogReply::Artist(Ok(1))),
        WatchReply::Catalog(CatalogReply::Track(Ok((3, None)))),
        WatchReply::Catalog(CatalogReply::Enqueued(Ok(()))),
    ];
    // The clock goes on by ten seconds between the answers.
    let mut secs = 1_000;
    for reply in replies {
        step = advance_watch_at(&account, step, reply, &at(secs));
        secs += 10;
    }
    let WatchStep::Live { step: LiveStep::Upsert { row } } = step else { panic!() };
    assert_eq!(row.expires_at, at(1_030 + 300));
}

#[test]
fn polls_ask_spotify_under_the_token_of_the_account() {
    let polled = mark_polled(account(), at(100), None);
    let asked = |access_token: &str, after_ms| {
        Some(SpotifyRequest::Api {
            get: recently_played_request(after_ms),
            access_token: text(access_token),
        })
    };
    assert_eq!(poll_request(&poll_account(&polled)), asked("access", Some(100_000)));
    let retry = PollStep::Retry { access_token: text("new"), after_ms: None };
    assert_eq!(poll_request(&retry), asked("new", None));
    assert_eq!(poll_request(&PollStep::NowPlaying), None);
    assert_eq!(
        watch_request(&poll_now_playing(&account(), true)),
        Some(SpotifyRequest::Api {
            get: currently_playing_request(),
            access_token: text("access"),
        })
    );
    assert_eq!(watch_request(&poll_now_playing(&account(), false)), None);
}
