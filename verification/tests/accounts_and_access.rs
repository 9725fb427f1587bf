use newfm::access::{
    advance_auth, advance_auth_at, create_api_token, create_token_response, delete_api_token,
    extract_bearer_token, extract_ip, hash_api_token, issue_api_token_at, logout, optional_auth,
    find_api_token_by_hash, find_api_token_by_hash_at, list_api_tokens, list_api_tokens_at,
    rate_limit, rate_limit_key, require_auth, session_token, viewer, window_cutoff, AuthReply,
    AuthStep, AuthUser,
    CreateTokenRequest, Credential, SessionReply, SessionRow, SessionStep, TokenRow,
};
use newfm::auth::{
    advance_login, advance_register, login, register, AuthResponse, CreateUser, LoginReply,
    LoginRequest, LoginStep, LoginUser, RegisterReply, RegisterRequest, RegisterStep,
};
use newfm::errors::AppError;
use newfm::ids::Uuid;
use newfm::models::ApiToken;
use newfm::time::{Timestamp, MAX_SECS};

fn text(s: &str) -> String {
    s.to_string()
}

fn at(secs: i64) -> Timestamp {
    Timestamp { secs, nanos: 0 }
}

fn id(n: u128) -> Uuid {
    Uuid { bits: n }
}

fn signup(username: &str, password: &str) -> RegisterRequest {
    RegisterRequest {
        username: text(username),
        email: text("b@example.org"),
        password: text(password),
        display_name: Some(text("B")),
    }
}

fn refused(step: RegisterStep) -> AppError {
    match step {
        RegisterStep::Done { result: Err(e) } => e,
        other => panic!("{other:?}"),
    }
}

// Registration and login

#[test]
fn usernames_are_trimmed() {
    assert_eq!(
        register(&signup("  bjork ", "12345678")),
        RegisterStep::FindUsername { username: text("bjork") }
    );
}

#[test]
fn short_usernames_are_refused() {
    assert_eq!(
        refused(register(&signup(" x ", "12345678"))),
        AppError::BadRequest(text("username must be at least 2 characters"))
    );
    assert!(matches!(register(&signup("éé", "12345678")), RegisterStep::FindUsername { .. }));
}

#[test]
fn reserved_usernames_are_refused() {
    for name in ["me", "Settings", "ADMIN", " api "] {
        assert_eq!(
            refused(register(&signup(name, "12345678"))),
            AppError::BadRequest(text("username is reserved"))
        );
    }
}

#[test]
fn short_passwords_are_refused() {
    assert_eq!(
        refused(register(&signup("bjork", "1234567"))),
        AppError::BadRequest(text("password must be at least 8 characters"))
    );
    // Characters count, not bytes.
    assert_eq!(
        refused(register(&signup("bjork", "äöüäöüä"))),
        AppError::BadRequest(text("password must be at least 8 characters"))
    );
}

#[test]
fn a_registration_ends_with_a_session() {
    let body = signup("bjork", "12345678");
    let step = register(&body);
    let step = advance_register(&body, step, RegisterReply::Username(Ok(false)));
    let email = text("b@example.org");
    assert_eq!(step, RegisterStep::FindEmail { username: text("bjork"), email });
    let step = advance_register(&body, step, RegisterReply::Email(Ok(false)));
    assert_eq!(
        step,
        RegisterStep::Hash { username: text("bjork"), password: text("12345678") }
    );
    let step = advance_register(&body, step, RegisterReply::Hashed(Ok(text("hash"))));
    assert_eq!(
        step,
        RegisterStep::Create {
            user: CreateUser {
                username: text("bjork"),
                email: text("b@example.org"),
                password_hash: text("hash"),
                display_name: Some(text("B")),
            }
        }
    );
    let step = advance_register(&body, step, RegisterReply::Created(Ok((7, text("bjork")))));
    let step = advance_register(&body, step, RegisterReply::Session(Ok(id(9))));
    assert_eq!(
        step,
        RegisterStep::Done {
            result: Ok(AuthResponse { token: id(9), user_id: 7, username: text("bjork") })
        }
    );
}

#[test]
fn taken_names_and_emails_are_refused() {
    let body = signup("bjork", "12345678");
    let taken = advance_register(&body, register(&body), RegisterReply::Username(Ok(true)));
    assert_eq!(refused(taken), AppError::UsernameTaken);
    let free = advance_register(&body, register(&body), RegisterReply::Username(Ok(false)));
    assert_eq!(
        refused(advance_register(&body, free, RegisterReply::Email(Ok(true)))),
        AppError::EmailTaken
    );
    let create = || RegisterStep::Create {
        user: CreateUser {
            username: text("bjork"),
            email: text("b@example.org"),
            password_hash: text("hash"),
            display_name: None,
        },
    };
    let raced = |constraint: Option<&str>| {
        let reply = RegisterReply::Created(Err((constraint.map(text), text("dup"))));
        refused(advance_register(&body, create(), reply))
    };
    assert_eq!(raced(Some("users_username_key")), AppError::UsernameTaken);
    assert_eq!(raced(Some("users_email_key")), AppError::EmailTaken);
    assert_eq!(raced(Some("users_pkey")), AppError::Database(text("dup")));
    assert_eq!(raced(None), AppError::Database(text("dup")));
}

#[test]
fn a_password_that_cannot_be_hashed_is_refused() {
    let body = signup("bjork", "12345678");
    let step = advance_register(
        &body,
        RegisterStep::Hash { username: text("bjork"), password: text("12345678") },
        RegisterReply::Hashed(Err(text("too long"))),
    );
    assert_eq!(refused(step), AppError::BadRequest(text("too long")));
}

fn user() -> LoginUser {
    LoginUser { id: 7, username: text("bjork"), password_hash: text("hash") }
}

fn credentials() -> LoginRequest {
    LoginRequest { username: text("bjork"), password: text("12345678") }
}

#[test]
fn a_login_needs_the_password() {
    let body = credentials();
    let step = login(&body);
    assert_eq!(step, LoginStep::Find { username: text("bjork") });
    let step = advance_login(&body, step, LoginReply::Found(Ok(Some(user()))));
    assert_eq!(step, LoginStep::Verify { user: user(), password: text("12345678") });
    let step = advance_login(&body, step, LoginReply::Verified(true));
    let step = advance_login(&body, step, LoginReply::Session(Ok(id(9))));
    assert_eq!(
        step,
        LoginStep::Done {
            result: Ok(AuthResponse { token: id(9), user_id: 7, username: text("bjork") })
        }
    );
}

#[test]
fn login_failures_look_alike() {
    let body = credentials();
    let unknown = advance_login(&body, login(&body), LoginReply::Found(Ok(None)));
    let verify = advance_login(&body, login(&body), LoginReply::Found(Ok(Some(user()))));
    let wrong = advance_login(&body, verify, LoginReply::Verified(false));
    assert_eq!(unknown, wrong);
    assert_eq!(unknown, LoginStep::Done { result: Err(AppError::InvalidCredentials) });
    assert_eq!(
        advance_login(&body, login(&body), LoginReply::Found(Err(text("down")))),
        LoginStep::Done { result: Err(AppError::Database(text("down"))) }
    );
}

// API tokens

fn wanted(expires_days: Option<i64>) -> CreateTokenRequest {
    CreateTokenRequest { name: text("player"), scopes: None, expires_days }
}

#[test]
fn a_token_is_the_hexadecimal_text_of_its_bytes() {
    let token = issue_api_token_at(wanted(Some(2)), &vec![0x00, 0xff, 0x1a], &at(100)).unwrap();
    assert_eq!(token.raw, "00ff1a");
    assert_eq!(token.hash, hash_api_token("00ff1a"));
    assert_eq!(token.hash.len(), 64);
    assert_eq!(token.scopes, vec![text("scrobble")]);
    assert_eq!(token.expires_at, Some(at(100 + 2 * 86_400)));
}

#[test]
fn a_token_need_not_expire() {
    let token = issue_api_token_at(wanted(None), &vec![1], &at(100)).unwrap();
    assert_eq!(token.expires_at, None);
    assert_eq!(
        issue_api_token_at(wanted(Some(i64::MAX)), &vec![1], &at(MAX_SECS)),
        Err(AppError::Internal(text("expiry is out of range")))
    );
}

#[test]
fn new_tokens_are_random() {
    let one = create_api_token(wanted(None)).unwrap();
    let other = create_api_token(wanted(None)).unwrap();
    assert_eq!(one.raw.len(), 64);
    assert!(one.raw.chars().all(|c| c.is_ascii_hexdigit()));
    assert_ne!(one.raw, other.raw);
    assert_eq!(one.hash, hash_api_token(&one.raw));
    assert_ne!(one.hash, one.raw);
}

#[test]
fn an_issued_token_is_looked_up_by_its_hash() {
    let token = create_api_token(wanted(None)).unwrap();
    let header = format!("Bearer {}", token.raw);
    assert_eq!(require_auth(Some(&header)), AuthStep::FindToken { hash: token.hash });
}

#[test]
fn a_stored_token_is_shown_once() {
    let row = ApiToken {
        id: id(1),
        user_id: 7,
        name: text("player"),
        token_hash: text("hash"),
        scopes: vec![text("scrobble")],
        last_used_at: None,
        created_at: at(5),
        expires_at: Some(at(6)),
    };
    let response = create_token_response(row, text("raw"));
    assert_eq!(response.token, "raw");
    assert_eq!((response.id, response.created_at), (id(1), at(5)));
    assert_eq!(delete_api_token(Some(7), 7), Ok(()));
    assert_eq!(delete_api_token(Some(8), 7), Err(AppError::NotFound));
    assert_eq!(delete_api_token(None, 7), Err(AppError::NotFound));
}

// Bearer authentication

#[test]
fn a_bearer_token_is_read_from_the_header() {
    assert_eq!(extract_bearer_token(Some("Bearer abc")), Ok(text("abc")));
    assert_eq!(extract_bearer_token(Some("Bearer ")), Ok(String::new()));
    for header in [Some("bearer abc"), Some("Basic abc"), Some("Bearer"), None] {
        assert_eq!(extract_bearer_token(header), Err(AppError::Unauthorized));
    }
}

#[test]
fn a_presented_session_is_resolved() {
    let session = id(0x1234);
    let header = format!("Bearer {}", session_token(session));
    let step = require_auth(Some(&header));
    assert_eq!(
        step,
        AuthStep::Session {
            id: session,
            step: SessionStep::CacheGet {
                key: text("session:00000000-0000-0000-0000-000000001234")
            }
        }
    );
    let simple = "Bearer 00000000000000000000000000001234";
    assert!(matches!(require_auth(Some(simple)), AuthStep::Session { id, .. } if id == session));
}

fn session_step(step: SessionStep) -> AuthStep {
    AuthStep::Session { id: id(1), step }
}

#[test]
fn a_cached_session_needs_no_look_up() {
    let step = advance_auth(
        session_step(SessionStep::CacheGet { key: text("k") }),
        AuthReply::Session(SessionReply::Cached(Some(text("7")))),
    );
    assert_eq!(
        step,
        AuthStep::FindUser {
            credential: Credential::Session(id(1)),
            user_id: 7,
            scopes: vec![text("scrobble"), text("read"), text("write")],
        }
    );
    let step = advance_auth(step, AuthReply::User(Ok(Some((7, text("bjork"))))));
    let AuthStep::Done { result } = step else { panic!() };
    assert_eq!(
        viewer(result),
        Some(AuthUser {
            id: 7,
            username: text("bjork"),
            scopes: vec![text("scrobble"), text("read"), text("write")],
        })
    );
}

#[test]
fn a_session_is_cached_for_as_long_as_it_lives() {
    let load = session_step(SessionStep::Load);
    let row = SessionRow { user_id: 7, expires_at: Timestamp { secs: 160, nanos: 500_000_000 } };
    let reply = AuthReply::Session(SessionReply::Loaded(Ok(Some(row))));
    let step = advance_auth_at(load, reply, &at(100));
    assert_eq!(
        step,
        session_step(SessionStep::CacheSet {
            key: text("session:00000000-0000-0000-0000-000000000001"),
            value: text("7"),
            ttl_secs: 60,
            user_id: 7,
        })
    );
    let step = advance_auth_at(step, AuthReply::Session(SessionReply::Stored), &at(100));
    assert!(matches!(step, AuthStep::FindUser { user_id: 7, .. }));
}

#[test]
fn a_session_about_to_expire_is_not_cached() {
    let row = SessionRow { user_id: 7, expires_at: Timestamp { secs: 100, nanos: 999_999_999 } };
    let reply = AuthReply::Session(SessionReply::Loaded(Ok(Some(row))));
    let step = advance_auth_at(session_step(SessionStep::Load), reply, &at(100));
    assert!(matches!(step, AuthStep::FindUser { user_id: 7, .. }));
}

#[test]
fn an_expired_session_is_refused() {
    let row = SessionRow { user_id: 7, expires_at: Timestamp { secs: 100, nanos: 0 } };
    let reply = AuthReply::Session(SessionReply::Loaded(Ok(Some(row))));
    let step = advance_auth_at(session_step(SessionStep::Load), reply, &at(100));
    assert_eq!(step, AuthStep::Done { result: Err(AppError::Unauthorized) });
}

#[test]
fn what_the_cache_does_not_know_is_looked_up() {
    for cached in [None, Some(text("no number"))] {
        let step = advance_auth(
            session_step(SessionStep::CacheGet { key: text("k") }),
            AuthReply::Session(SessionReply::Cached(cached)),
        );
        assert_eq!(step, session_step(SessionStep::Load));
    }
    let gone = advance_auth(
        session_step(SessionStep::Load),
        AuthReply::Session(SessionReply::Loaded(Ok(None))),
    );
    assert_eq!(gone, AuthStep::Done { result: Err(AppError::Unauthorized) });
}

#[test]
fn an_api_token_carries_its_scopes() {
    let row = TokenRow { id: id(5), user_id: 7, scopes: vec![text("read")] };
    let step = advance_auth(
        AuthStep::FindToken { hash: text("h") },
        AuthReply::Token(Ok(Some(row))),
    );
    assert_eq!(
        step,
        AuthStep::FindUser {
            credential: Credential::ApiToken(id(5)),
            user_id: 7,
            scopes: vec![text("read")],
        }
    );
    let gone = advance_auth(step, AuthReply::User(Ok(None)));
    assert_eq!(gone, AuthStep::Done { result: Err(AppError::Unauthorized) });
    let unknown =
        advance_auth(AuthStep::FindToken { hash: text("h") }, AuthReply::Token(Ok(None)));
    assert_eq!(unknown, AuthStep::Done { result: Err(AppError::Unauthorized) });
}

#[test]
fn without_a_token_nobody_is_authenticated() {
    assert_eq!(require_auth(None), AuthStep::Done { result: Err(AppError::Unauthorized) });
    assert_eq!(viewer(Err(AppError::Database(text("down")))), None);
}

#[test]
fn public_pages_take_session_tokens_only() {
    let header = format!("Bearer {}", session_token(id(1)));
    assert!(matches!(optional_auth(Some(&header)), Some(AuthStep::Session { .. })));
    assert_eq!(optional_auth(Some("Bearer 00ff")), None);
    assert_eq!(optional_auth(None), None);
}

#[test]
fn logging_out_clears_every_cache_entry() {
    assert_eq!(
        logout(Credential::Session(id(1)), &vec![id(1), id(2)]),
        Ok(vec![
            text("session:00000000-0000-0000-0000-000000000001"),
            text("session:00000000-0000-0000-0000-000000000002"),
        ])
    );
    assert_eq!(logout(Credential::Session(id(1)), &vec![]), Ok(vec![]));
}

#[test]
fn an_api_token_cannot_log_out() {
    assert_eq!(
        logout(Credential::ApiToken(id(1)), &vec![id(1), id(2)]),
        Err(AppError::Unauthorized)
    );
}

// The request limit

#[test]
fn requests_count_under_the_first_hop() {
    assert_eq!(extract_ip(Some(" 1.2.3.4 , 5.6.7.8"), Some(text("9.9.9.9"))), "1.2.3.4");
    assert_eq!(extract_ip(Some("1.2.3.4"), None), "1.2.3.4");
    assert_eq!(extract_ip(None, Some(text("9.9.9.9"))), "9.9.9.9");
    assert_eq!(extract_ip(None, None), "unknown");
    assert_eq!(rate_limit_key("1.2.3.4"), "rl:1.2.3.4");
}

#[test]
fn sixty_requests_fit_a_window() {
    assert_eq!(rate_limit(Some(1)), Ok(()));
    assert_eq!(rate_limit(Some(60)), Ok(()));
    assert_eq!(rate_limit(Some(61)), Err(AppError::RateLimited));
    assert_eq!(rate_limit(None), Ok(()));
}

#[test]
fn the_window_slides_with_the_clock() {
    assert_eq!(window_cutoff(1_700_000_000_000), 1_699_999_940_000);
    assert_eq!(window_cutoff(i64::MIN + 60_000), i64::MIN);
    assert_eq!(window_cutoff(i64::MIN + 59_999), i64::MIN);
    // A request every second: the limit holds in each window, and the counts
    // never pass sixty, so every one of them is served.
    let mut times: Vec<i64> = Vec::new();
    for second in 0..300 {
        let now: i64 = 1_700_000_000_000 + second * 1_000;
        times.retain(|t| *t > window_cutoff(now));
        times.push(now);
        assert_eq!(rate_limit(Some(times.len() as i64)), Ok(()));
    }
    // One more at the same moment is one too many.
    times.push(1_700_000_299_000);
    assert_eq!(rate_limit(Some(times.len() as i64)), Err(AppError::RateLimited));
}

fn api_token(id: u128, expires_at: Option<i64>) -> ApiToken {
    ApiToken {
        id: Uuid { bits: id },
        user_id: 7,
        name: text("player"),
        token_hash: text("hash"),
        scopes: vec![text("scrobble")],
        last_used_at: None,
        created_at: Timestamp { secs: 0, nanos: 0 },
        expires_at: expires_at.map(|secs| Timestamp { secs, nanos: 0 }),
    }
}

#[test]
fn only_active_tokens_are_listed_and_found() {
    let now = Timestamp { secs: 1_000, nanos: 0 };
    let all = vec![api_token(1, None), api_token(2, Some(1_000)), api_token(3, Some(1_001))];
    let listed = list_api_tokens_at(all, &now);
    assert_eq!(listed, vec![api_token(1, None), api_token(3, Some(1_001))]);
    assert_eq!(find_api_token_by_hash_at(None, &now), None);
    assert_eq!(find_api_token_by_hash_at(Some(api_token(2, Some(1_000))), &now), None);
    assert_eq!(
        find_api_token_by_hash_at(Some(api_token(3, Some(1_001))), &now),
        Some(TokenRow { id: Uuid { bits: 3 }, user_id: 7, scopes: vec![text("scrobble")] })
    );
    // By the clock: long expired, and expiring in the far future.
    assert_eq!(
        list_api_tokens(vec![api_token(4, Some(0)), api_token(5, Some(8_000_000_000))]),
        vec![api_token(5, Some(8_000_000_000))]
    );
    assert_eq!(find_api_token_by_hash(Some(api_token(4, Some(0)))), None);
}
