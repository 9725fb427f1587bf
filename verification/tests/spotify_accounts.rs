use newfm::accounts::{
    advance_refresh_at, create_connected_account, deactivate, list_connected_accounts,
    mark_polled, refresh, refresh_request, update_tokens, upsert_connected_account,
    AccountListing, ConnectedAccount, RefreshReply, RefreshStep, UpsertConnectedAccount,
};
use newfm::connect::{
    advance_callback, advance_callback_at, callback_request, connect_provider,
    connect_provider_with, disconnect, ensure_supported_provider, spotify_callback,
    CallbackReply, CallbackStep, ConnectResult, SpotifyCallbackQuery, SpotifyConfig,
};
use newfm::errors::AppError;
use newfm::spotify::{
    build_authorize_url, check_status, current_user_request, currently_playing_request,
    exchange_code, get_current_user_id, get_currently_playing, get_recently_played,
    parse_token_response, recently_played_request, refresh_access_token, ApiReply,
    CurrentlyPlaying, PlaybackState, PlayedTrack, SpotifyError, SpotifyRequest, SpotifyTokens,
    SpotifyTrack, TokenReply,
};
use newfm::time::{Timestamp, MAX_SECS};

fn text(s: &str) -> String {
    s.to_string()
}

fn at(secs: i64) -> Timestamp {
    Timestamp { secs, nanos: 0 }
}

fn tokens(refresh_token: Option<&str>) -> SpotifyTokens {
    SpotifyTokens {
        access_token: text("new-access"),
        refresh_token: refresh_token.map(text),
        expires_in: 3_600,
        scope: text("s"),
        token_type: text("Bearer"),
    }
}

// The Web API

#[test]
fn the_authorize_url_is_form_encoded() {
    assert_eq!(
        build_authorize_url("id", "https://fm/cb?a=b&c", "st*te ü"),
        "https://accounts.spotify.com/authorize?client_id=id&response_type=code\
         &redirect_uri=https%3A%2F%2Ffm%2Fcb%3Fa%3Db%26c\
         &scope=user-read-recently-played+user-read-currently-playing&state=st*te+%C3%BC"
    );
}

#[test]
fn tokens_are_asked_for_as_the_client() {
    let post = exchange_code("id", "secret", "code", "https://fm/cb");
    assert_eq!(post.url, "https://accounts.spotify.com/api/token");
    assert_eq!((post.user.as_str(), post.password.as_str()), ("id", "secret"));
    assert_eq!(
        post.form,
        vec![
            (text("grant_type"), text("authorization_code")),
            (text("code"), text("code")),
            (text("redirect_uri"), text("https://fm/cb")),
        ]
    );
    let post = refresh_access_token("id", "secret", "old");
    assert_eq!(
        post.form,
        vec![
            (text("grant_type"), text("refresh_token")),
            (text("refresh_token"), text("old")),
        ]
    );
}

#[test]
fn only_revocations_are_unauthorized() {
    let refused = |status, body: &str| {
        parse_token_response(TokenReply::Refused { status, body: text(body) }).unwrap_err()
    };
    assert_eq!(refused(401, ""), SpotifyError::Unauthorized);
    assert_eq!(refused(400, "{\"error\":\"invalid_grant\"}"), SpotifyError::Unauthorized);
    assert_eq!(
        refused(400, "invalid_client"),
        SpotifyError::Api(text("400 Bad Request: invalid_client"))
    );
    assert_eq!(
        refused(500, "invalid_grant"),
        SpotifyError::Api(text("500 Internal Server Error: invalid_grant"))
    );
    assert_eq!(
        parse_token_response(TokenReply::Failed { message: text("timeout") }),
        Err(SpotifyError::Http(text("timeout")))
    );
    assert_eq!(
        parse_token_response(TokenReply::Granted { tokens: Ok(tokens(None)) }),
        Ok(tokens(None))
    );
    assert_eq!(
        parse_token_response(TokenReply::Granted { tokens: Err(text("eof")) }),
        Err(SpotifyError::Http(text("eof")))
    );
}

#[test]
fn spotify_errors_describe_themselves() {
    assert_eq!(SpotifyError::Http(text("x")).message(), "http error: x");
    assert_eq!(
        SpotifyError::Unauthorized.message(),
        "spotify access token is invalid or expired"
    );
    assert_eq!(SpotifyError::Api(text("x")).message(), "spotify returned an error: x");
}

#[test]
fn statuses_are_checked() {
    assert_eq!(check_status(200), Ok(()));
    assert_eq!(check_status(204), Ok(()));
    assert_eq!(check_status(401), Err(SpotifyError::Unauthorized));
    assert_eq!(
        check_status(429),
        Err(SpotifyError::Api(text("unexpected status 429 Too Many Requests")))
    );
}

#[test]
fn the_account_behind_a_token_is_read() {
    assert_eq!(current_user_request().url, "https://api.spotify.com/v1/me");
    let reply = |status, body| ApiReply::Response { status, body };
    assert_eq!(get_current_user_id(reply(200, Ok(text("bjork")))), Ok(text("bjork")));
    assert_eq!(
        get_current_user_id(reply(401, Ok(text("bjork")))),
        Err(SpotifyError::Unauthorized)
    );
    assert_eq!(
        get_current_user_id(ApiReply::Failed { message: text("timeout") }),
        Err(SpotifyError::Http(text("timeout")))
    );
}

fn track(artists: &[&str]) -> SpotifyTrack {
    SpotifyTrack {
        name: text("Joga"),
        artists: artists.iter().map(|a| text(a)).collect(),
        album: text("Homogenic"),
        duration_ms: 305_000,
    }
}

#[test]
fn recent_plays_are_asked_for_after_the_cursor() {
    let request = recently_played_request(None);
    assert_eq!(request.url, "https://api.spotify.com/v1/me/player/recently-played");
    assert_eq!(request.query, vec![(text("limit"), text("50"))]);
    let request = recently_played_request(Some(1_234));
    assert_eq!(
        request.query,
        vec![(text("limit"), text("50")), (text("after"), text("1234"))]
    );
}

#[test]
fn a_play_counts_under_the_first_artist() {
    let items = vec![
        PlayedTrack { track: track(&["Björk", "Howie B"]), played_at: at(9) },
        PlayedTrack { track: track(&[]), played_at: at(8) },
    ];
    let plays = get_recently_played(ApiReply::Response { status: 200, body: Ok(items) }).unwrap();
    assert_eq!(plays.len(), 2);
    assert_eq!(plays[0].artist_name, "Björk");
    assert_eq!(plays[0].album_title, Some(text("Homogenic")));
    assert_eq!((plays[0].duration_ms, plays[0].played_at), (305_000, at(9)));
    assert_eq!(plays[1].artist_name, "");
    let failed: ApiReply<Vec<PlayedTrack>> =
        ApiReply::Response { status: 200, body: Err(text("eof")) };
    assert_eq!(get_recently_played(failed), Err(SpotifyError::Http(text("eof"))));
}

fn playback(is_playing: bool, kind: &str) -> PlaybackState {
    PlaybackState {
        is_playing,
        progress_ms: Some(1_000),
        item: Some(track(&["Björk"])),
        currently_playing_type: text(kind),
    }
}

#[test]
fn only_a_playing_track_is_current() {
    assert_eq!(
        currently_playing_request().url,
        "https://api.spotify.com/v1/me/player/currently-playing"
    );
    let read = |status, state| {
        get_currently_playing(ApiReply::Response { status, body: Ok(state) }).unwrap()
    };
    assert_eq!(
        read(200, playback(true, "track")),
        Some(CurrentlyPlaying {
            track_title: text("Joga"),
            artist_name: text("Björk"),
            album_title: Some(text("Homogenic")),
            duration_ms: 305_000,
            progress_ms: 1_000,
        })
    );
    assert_eq!(read(200, playback(false, "track")), None);
    assert_eq!(read(200, playback(true, "episode")), None);
    assert_eq!(read(204, playback(true, "track")), None);
    let mut unknown = playback(true, "track");
    unknown.progress_ms = None;
    assert_eq!(read(200, unknown).map(|c| c.progress_ms), Some(0));
    let mut nothing = playback(true, "track");
    nothing.item = None;
    assert_eq!(read(200, nothing), None);
    assert_eq!(
        get_currently_playing(ApiReply::Response { status: 401, body: Err(text("")) }),
        Err(SpotifyError::Unauthorized)
    );
}

// Connected accounts

fn account() -> ConnectedAccount {
    ConnectedAccount {
        id: 3,
        user_id: 7,
        provider: text("spotify"),
        provider_user_id: text("bjork"),
        access_token: text("old-access"),
        refresh_token: Some(text("old-refresh")),
        token_type: text("Bearer"),
        scope: None,
        expires_at: None,
        last_polled_at: None,
        last_error: Some(text("revoked")),
        is_active: false,
        created_at: at(1),
        updated_at: at(1),
    }
}

#[test]
fn listed_accounts_hold_no_token() {
    let mut other = account();
    other.id = 4;
    other.access_token = text("other-access");
    other.refresh_token = None;
    let shown = |id| AccountListing {
        id,
        user_id: 7,
        provider: text("spotify"),
        provider_user_id: text("bjork"),
        token_type: text("Bearer"),
        scope: None,
        expires_at: None,
        last_polled_at: None,
        last_error: Some(text("revoked")),
        is_active: false,
        created_at: at(1),
        updated_at: at(1),
    };
    let listed = list_connected_accounts(vec![account(), other]);
    assert_eq!(listed, vec![shown(3), shown(4)]);
    assert!(!format!("{listed:?}").contains("access"));
    assert!(!format!("{listed:?}").contains("refresh"));
}

fn granted() -> UpsertConnectedAccount {
    UpsertConnectedAccount {
        user_id: 7,
        provider: text("spotify"),
        provider_user_id: text("bjork2"),
        access_token: text("a"),
        refresh_token: None,
        token_type: text("Bearer"),
        scope: Some(text("s")),
        expires_at: Some(at(9)),
    }
}

#[test]
fn a_new_account_is_active_and_was_never_polled() {
    assert_eq!(
        create_connected_account(12, at(5), granted()),
        ConnectedAccount {
            id: 12,
            user_id: 7,
            provider: text("spotify"),
            provider_user_id: text("bjork2"),
            access_token: text("a"),
            refresh_token: None,
            token_type: text("Bearer"),
            scope: Some(text("s")),
            expires_at: Some(at(9)),
            last_polled_at: None,
            last_error: None,
            is_active: true,
            created_at: at(5),
            updated_at: at(5),
        }
    );
}

#[test]
fn linking_again_reactivates_an_account() {
    let linked = upsert_connected_account(account(), granted());
    assert!(linked.is_active);
    assert_eq!(linked.last_error, None);
    assert_eq!((linked.user_id, linked.id), (7, 3));
    assert_eq!(linked.provider_user_id, "bjork2");
    assert_eq!(linked.refresh_token, None);
}

#[test]
fn a_refresh_keeps_a_refresh_token() {
    let kept = update_tokens(account(), text("a"), None, Some(at(9)));
    assert_eq!(kept.refresh_token, Some(text("old-refresh")));
    assert_eq!((kept.access_token, kept.expires_at), (text("a"), Some(at(9))));
    let replaced = update_tokens(account(), text("a"), Some(text("r")), None);
    assert_eq!(replaced.refresh_token, Some(text("r")));
}

#[test]
fn polls_and_revocations_are_noted() {
    let polled = mark_polled(account(), at(5), None);
    assert_eq!((polled.last_polled_at, &polled.last_error), (Some(at(5)), &None));
    let dead = deactivate(polled, text("why"));
    assert!(!dead.is_active);
    assert_eq!((dead.last_polled_at, dead.last_error), (Some(at(5)), Some(text("why"))));
}

#[test]
fn a_refresh_stores_the_new_tokens() {
    let step = refresh(3, &Some(text("old")));
    assert_eq!(step, RefreshStep::Request { refresh_token: text("old") });
    let step = advance_refresh_at(step, RefreshReply::Tokens(Ok(tokens(None))), &at(100));
    assert_eq!(step, RefreshStep::Store { tokens: tokens(None), expires_at: at(3_700) });
    let step = advance_refresh_at(step, RefreshReply::Stored(Ok(())), &at(100));
    assert_eq!(step, RefreshStep::Done { result: Ok(text("new-access")) });
}

#[test]
fn only_a_revocation_deactivates() {
    let request = || RefreshStep::Request { refresh_token: text("old") };
    let answer = |e| advance_refresh_at(request(), RefreshReply::Tokens(Err(e)), &at(100));
    let reason = "spotify access token is invalid or expired";
    let step = answer(SpotifyError::Unauthorized);
    assert_eq!(step, RefreshStep::Deactivate { reason: text(reason) });
    assert_eq!(
        advance_refresh_at(step, RefreshReply::Deactivated(Ok(())), &at(100)),
        RefreshStep::Done { result: Err(text(reason)) }
    );
    assert_eq!(
        answer(SpotifyError::Http(text("timeout"))),
        RefreshStep::Done { result: Err(text("http error: timeout")) }
    );
    assert_eq!(
        refresh(3, &None),
        RefreshStep::Done { result: Err(text("no refresh_token stored for account 3")) }
    );
}

#[test]
fn a_token_that_never_expires_is_an_error() {
    let mut forever = tokens(None);
    forever.expires_in = i64::MAX;
    assert_eq!(
        advance_refresh_at(
            RefreshStep::Request { refresh_token: text("old") },
            RefreshReply::Tokens(Ok(forever)),
            &at(100)
        ),
        RefreshStep::Done { result: Err(text("expiry is out of range")) }
    );
}

// The OAuth flow

fn config() -> SpotifyConfig {
    SpotifyConfig {
        client_id: Some(text("id")),
        client_secret: Some(text("secret")),
        redirect_uri: Some(text("https://fm/cb")),
    }
}

#[test]
fn only_spotify_is_supported() {
    assert_eq!(ensure_supported_provider("spotify"), Ok(()));
    assert_eq!(
        ensure_supported_provider("deezer"),
        Err(AppError::BadRequest(text("unsupported provider: deezer")))
    );
}

#[test]
fn a_flow_remembers_who_started_it() {
    let bytes: Vec<u8> = vec![0xab; 16];
    let start = connect_provider_with(7, "spotify", &config(), &bytes).unwrap();
    let state = "ab".repeat(16);
    assert_eq!(start.redis_key, format!("oauth_state:spotify:{state}"));
    assert_eq!((start.redis_value.as_str(), start.ttl_secs), ("7", 600));
    assert_eq!(start.response.authorize_url, build_authorize_url("id", "https://fm/cb", &state));
    // The callback reads that entry and finds the user.
    let step = spotify_callback(SpotifyCallbackQuery {
        code: Some(text("c")),
        state: Some(state),
        error: None,
    });
    assert_eq!(
        step,
        CallbackStep::GetState { key: start.redis_key.clone(), code: text("c") }
    );
    let step = advance_callback(
        &config(),
        step,
        CallbackReply::State(Ok(Some(start.redis_value))),
    );
    assert_eq!(
        step,
        CallbackStep::DeleteState { key: start.redis_key, code: text("c"), user_id: 7 }
    );
}

#[test]
fn every_flow_has_a_state_of_its_own() {
    let one = connect_provider(7, "spotify", &config()).unwrap();
    let other = connect_provider(7, "spotify", &config()).unwrap();
    assert_ne!(one.redis_key, other.redis_key);
    assert_eq!(one.redis_key.len(), "oauth_state:spotify:".len() + 32);
}

#[test]
fn a_flow_needs_its_configuration() {
    let mut missing = config();
    missing.client_id = None;
    assert_eq!(
        connect_provider(7, "spotify", &missing),
        Err(AppError::Internal(text("SPOTIFY_CLIENT_ID is not configured")))
    );
    let mut missing = config();
    missing.redirect_uri = None;
    assert_eq!(
        connect_provider(7, "spotify", &missing),
        Err(AppError::Internal(text("SPOTIFY_REDIRECT_URI is not configured")))
    );
    assert_eq!(
        connect_provider(7, "tidal", &missing),
        Err(AppError::BadRequest(text("unsupported provider: tidal")))
    );
    let mut missing = config();
    missing.client_secret = None;
    assert!(connect_provider(7, "spotify", &missing).is_ok());
    let step = CallbackStep::DeleteState { key: text("k"), code: text("c"), user_id: 7 };
    assert_eq!(
        advance_callback(&missing, step, CallbackReply::Deleted(Ok(()))),
        CallbackStep::Done {
            result: Err(AppError::Internal(text("SPOTIFY_CLIENT_SECRET is not configured")))
        }
    );
}

fn callback_error(step: CallbackStep) -> AppError {
    match step {
        CallbackStep::Done { result: Err(e) } => e,
        other => panic!("{other:?}"),
    }
}

#[test]
fn incomplete_callbacks_are_refused() {
    let query = |code: Option<&str>, state: Option<&str>, error: Option<&str>| {
        callback_error(spotify_callback(SpotifyCallbackQuery {
            code: code.map(text),
            state: state.map(text),
            error: error.map(text),
        }))
    };
    assert_eq!(
        query(Some("c"), Some("s"), Some("access_denied")),
        AppError::BadRequest(text("spotify authorization denied: access_denied"))
    );
    assert_eq!(query(None, Some("s"), None), AppError::BadRequest(text("missing code")));
    assert_eq!(query(Some("c"), None, None), AppError::BadRequest(text("missing state")));
}

#[test]
fn unknown_states_are_refused() {
    let get = || CallbackStep::GetState { key: text("k"), code: text("c") };
    let answer = |r| callback_error(advance_callback(&config(), get(), CallbackReply::State(r)));
    assert_eq!(
        answer(Ok(None)),
        AppError::BadRequest(text("invalid or expired oauth state"))
    );
    assert_eq!(
        answer(Ok(Some(text("x")))),
        AppError::Internal(text("corrupt oauth state value in redis"))
    );
    assert_eq!(answer(Err(text("down"))), AppError::Redis(text("down")));
}

#[test]
fn a_state_is_removed_before_the_exchange() {
    let delete = || CallbackStep::DeleteState { key: text("k"), code: text("c"), user_id: 7 };
    assert_eq!(
        callback_error(advance_callback(
            &config(),
            delete(),
            CallbackReply::Deleted(Err(text("down")))
        )),
        AppError::Redis(text("down"))
    );
    assert_eq!(
        advance_callback(&config(), delete(), CallbackReply::Deleted(Ok(()))),
        CallbackStep::Exchange {
            user_id: 7,
            code: text("c"),
            client_id: text("id"),
            client_secret: text("secret"),
            redirect_uri: text("https://fm/cb"),
        }
    );
}

#[test]
fn an_account_is_linked_to_the_user() {
    let exchange = CallbackStep::Exchange {
        user_id: 7,
        code: text("c"),
        client_id: text("id"),
        client_secret: text("secret"),
        redirect_uri: text("https://fm/cb"),
    };
    let now = at(100);
    let reply = CallbackReply::Tokens(Ok(tokens(Some("r"))));
    let step = advance_callback_at(&config(), exchange, reply, &now);
    let reply = CallbackReply::Identity(Ok(text("bjork")));
    let step = advance_callback_at(&config(), step, reply, &now);
    assert_eq!(
        step,
        CallbackStep::Upsert {
            account: UpsertConnectedAccount {
                user_id: 7,
                provider: text("spotify"),
                provider_user_id: text("bjork"),
                access_token: text("new-access"),
                refresh_token: Some(text("r")),
                token_type: text("Bearer"),
                scope: Some(text("s")),
                expires_at: Some(at(3_700)),
            }
        }
    );
    let step = advance_callback_at(&config(), step, CallbackReply::Linked(Ok(())), &now);
    assert_eq!(
        step,
        CallbackStep::Done {
            result: Ok(ConnectResult { provider: text("spotify"), connected: true })
        }
    );
}

#[test]
fn failures_of_the_exchange_are_told_apart() {
    let exchange = || CallbackStep::Exchange {
        user_id: 7,
        code: text("c"),
        client_id: text("id"),
        client_secret: text("secret"),
        redirect_uri: text("https://fm/cb"),
    };
    let answer =
        |e| callback_error(advance_callback(&config(), exchange(), CallbackReply::Tokens(Err(e))));
    assert_eq!(answer(SpotifyError::Http(text("timeout"))), AppError::Internal(text("timeout")));
    assert_eq!(
        answer(SpotifyError::Unauthorized),
        AppError::BadRequest(text(
            "spotify token exchange failed: spotify access token is invalid or expired"
        ))
    );
    let identify = |expires_in| CallbackStep::Identify {
        user_id: 7,
        tokens: SpotifyTokens { expires_in, ..tokens(None) },
    };
    assert_eq!(
        callback_error(advance_callback(
            &config(),
            identify(1),
            CallbackReply::Identity(Err(SpotifyError::Api(text("x"))))
        )),
        AppError::Internal(text("spotify returned an error: x"))
    );
    assert_eq!(
        callback_error(advance_callback_at(
            &config(),
            identify(1),
            CallbackReply::Identity(Ok(text("bjork"))),
            &at(MAX_SECS)
        )),
        AppError::Internal(text("expiry is out of range"))
    );
}

#[test]
fn disconnecting_needs_a_connection() {
    assert_eq!(disconnect("spotify", true), Ok(()));
    assert_eq!(disconnect("spotify", false), Err(AppError::NotFound));
    let refused = disconnect("tidal", true);
    assert_eq!(refused, ensure_supported_provider("tidal"));
    assert!(matches!(refused, Err(AppError::BadRequest(_))));
    assert_eq!(disconnect("tidal", false), refused);
}

#[test]
fn refreshes_and_callbacks_ask_spotify() {
    let request = refresh(3, &Some(text("old")));
    assert_eq!(
        refresh_request(&request, "id", "secret"),
        Some(SpotifyRequest::Tokens { post: refresh_access_token("id", "secret", "old") })
    );
    let done = RefreshStep::Done { result: Ok(text("a")) };
    assert_eq!(refresh_request(&done, "id", "secret"), None);
    let exchange = CallbackStep::Exchange {
        user_id: 7,
        code: text("code"),
        client_id: text("id"),
        client_secret: text("secret"),
        redirect_uri: text("https://fm/callback"),
    };
    assert_eq!(
        callback_request(&exchange),
        Some(SpotifyRequest::Tokens {
            post: exchange_code("id", "secret", "code", "https://fm/callback"),
        })
    );
    let identify = CallbackStep::Identify { user_id: 7, tokens: tokens(None) };
    assert_eq!(
        callback_request(&identify),
        Some(SpotifyRequest::Api {
            get: current_user_request(),
            access_token: text("new-access"),
        })
    );
    let get_state = CallbackStep::GetState { key: text("k"), code: text("code") };
    assert_eq!(callback_request(&get_state), None);
}
