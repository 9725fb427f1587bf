//! Who may do what: API tokens, bearer authentication, the session cache and
//! the request limit.

use crate::errors::AppError;
use crate::ids;
use crate::ids::Uuid;
use crate::models::ApiToken;
use crate::text;
use crate::time;
use crate::time::Timestamp;
use vstd::prelude::*;
use vstd::string::*;

verus! {

// ---------------------------------------------------------------------------
// API tokens
// ---------------------------------------------------------------------------

/// Random bytes in an API token.
pub const TOKEN_BYTES: usize = 32;

#[derive(Debug, PartialEq, Eq)]
pub struct CreateTokenRequest<S = String, L = Vec<String>> {
    pub name: S,
    pub scopes: Option<L>,
    pub expires_days: Option<i64>,
}

impl DeepView for CreateTokenRequest {
    type V = CreateTokenRequest<Seq<char>, Seq<Seq<char>>>;

    open spec fn deep_view(&self) -> CreateTokenRequest<Seq<char>, Seq<Seq<char>>> {
        CreateTokenRequest {
            name: self.name@,
            scopes: self.scopes.deep_view(),
            expires_days: self.expires_days,
        }
    }
}

/// An API token that was just made up.
#[derive(Debug, PartialEq, Eq)]
pub struct NewApiToken<S = String, L = Vec<String>> {
    pub name: S,
    /// The token itself, shown only once.
    pub raw: S,
    /// What is stored of it.
    pub hash: S,
    pub scopes: L,
    pub expires_at: Option<Timestamp>,
}

impl DeepView for NewApiToken {
    type V = NewApiToken<Seq<char>, Seq<Seq<char>>>;

    open spec fn deep_view(&self) -> NewApiToken<Seq<char>, Seq<Seq<char>>> {
        NewApiToken {
            name: self.name@,
            raw: self.raw@,
            hash: self.hash@,
            scopes: self.scopes.deep_view(),
            expires_at: self.expires_at,
        }
    }
}

/// What is stored of an API token: the hexadecimal SHA-256 digest of its text.
pub open spec fn token_hash(raw: Seq<char>) -> Seq<char> {
    ids::hex_text(ids::sha256(vstd::utf8::encode_utf8(raw)))
}

/// Hashes a raw API token for storage and lookup. This is the only place where
/// this hashing happens: both token creation and request validation call it, or
/// stored hashes and lookup hashes would diverge.
pub fn hash_api_token(raw: &str) -> (res: String)
    ensures
        res@ == token_hash(raw@),
        res@.len() == 64,
{
    ids::hex_encode(&ids::sha256_digest(raw.as_bytes()))
}

/// The token that `bytes` make: their hexadecimal text; by default it may
/// scrobble and does not expire.
pub open spec fn issued(
    body: CreateTokenRequest<Seq<char>, Seq<Seq<char>>>,
    bytes: Seq<u8>,
    now: Timestamp,
) -> Result<NewApiToken<Seq<char>, Seq<Seq<char>>>, AppError<Seq<char>>> {
    let expires_at = match body.expires_days {
        Some(days) => time::shifted(now, days * time::MILLIS_PER_DAY),
        None => None,
    };
    if body.expires_days is Some && expires_at is None {
        Err(AppError::Internal("expiry is out of range"@))
    } else {
        Ok(
            NewApiToken {
                name: body.name,
                raw: ids::hex_text(bytes),
                hash: token_hash(ids::hex_text(bytes)),
                scopes: match body.scopes {
                    Some(scopes) => scopes,
                    None => seq!["scrobble"@],
                },
                expires_at,
            },
        )
    }
}

/// Makes the token of given random bytes when the clock shows `now`.
pub fn issue_api_token_at(body: CreateTokenRequest, bytes: &Vec<u8>, now: &Timestamp) -> (res:
    Result<NewApiToken, AppError>)
    requires
        now.wf(),
        now.plain(),
    ensures
        text::result_view(res) == issued(body.deep_view(), bytes@, *now),
{
    let expires_at: Option<Timestamp> = match body.expires_days {
        Some(days) => match time::shift_units(now, days, time::MILLIS_PER_DAY) {
            Some(at) => Some(at),
            None => return Err(AppError::Internal("expiry is out of range".to_owned())),
        },
        None => None,
    };
    // Only the SHA-256 hash is stored; the raw token appears once in the
    // response and can never be recovered afterwards.
    let raw = ids::hex_encode(bytes);
    let hash = hash_api_token(raw.as_str());
    let scopes: Vec<String> = match body.scopes {
        Some(scopes) => scopes,
        None => {
            let scopes: Vec<String> = vec!["scrobble".to_owned()];
            proof {
                assert(scopes.deep_view() =~= seq!["scrobble"@]);
            }
            scopes
        },
    };
    Ok(NewApiToken { name: body.name, raw, hash, scopes, expires_at })
}

/// `POST /v1/auth/tokens`: makes a new token of random bytes.
pub fn create_api_token(body: CreateTokenRequest) -> (res: Result<NewApiToken, AppError>)
    ensures
        exists|bytes: Seq<u8>, now: Timestamp|
            bytes.len() == TOKEN_BYTES && now.wf() && now.plain() && now.secs >= 0
                && text::result_view(res) == #[trigger] issued(body.deep_view(), bytes, now),
{
    let bytes = ids::random_bytes(TOKEN_BYTES);
    let now = time::now();
    issue_api_token_at(body, &bytes, &now)
}

/// What is stored of an issued token is the hash of the token that was shown,
/// a text of 64 hexadecimal digits: longer than any notation of a UUID, so it
/// is never taken for a session.
pub proof fn law_stored_hash_is_that_of_the_shown_token(
    body: CreateTokenRequest<Seq<char>, Seq<Seq<char>>>,
    bytes: Seq<u8>,
    now: Timestamp,
)
    requires
        bytes.len() == TOKEN_BYTES,
    ensures
        issued(body, bytes, now) matches Ok(token) ==> {
            &&& token.hash == token_hash(token.raw)
            &&& token.raw.len() == 64
            &&& !ids::uuid_length(token.raw)
        },
{
}

/// Two issued tokens are the same only if they were made of the same bytes.
pub proof fn law_tokens_are_as_distinct_as_their_bytes(
    body: CreateTokenRequest<Seq<char>, Seq<Seq<char>>>,
    a: Seq<u8>,
    b: Seq<u8>,
    now: Timestamp,
)
    requires
        issued(body, a, now) is Ok,
        issued(body, a, now)->Ok_0.raw == issued(body, b, now)->Ok_0.raw,
    ensures
        a == b,
{
    ids::law_hex_text_injective(a, b);
}

/// The answer to a request for a token.
#[derive(Debug, PartialEq, Eq)]
pub struct CreateTokenResponse {
    pub id: Uuid,
    pub name: String,
    /// The token itself; this is the only time it is shown.
    pub token: String,
    pub scopes: Vec<String>,
    pub expires_at: Option<Timestamp>,
    pub created_at: Timestamp,
}

/// The answer (201) to a request for a token, once it is stored.
pub fn create_token_response(row: ApiToken, raw: String) -> (res: CreateTokenResponse)
    ensures
        res == (CreateTokenResponse {
            id: row.id,
            name: row.name,
            token: raw,
            scopes: row.scopes,
            expires_at: row.expires_at,
            created_at: row.created_at,
        }),
{
    CreateTokenResponse {
        id: row.id,
        name: row.name,
        token: raw,
        scopes: row.scopes,
        expires_at: row.expires_at,
        created_at: row.created_at,
    }
}

/// The answer (204) to a request by `user_id` to revoke a token, given whose it
/// is: only its owner may. Whoever else asks is answered as if it did not
/// exist.
pub fn delete_api_token(owner: Option<i64>, user_id: i64) -> (res: Result<(), AppError>)
    ensures
        res == (if owner == Some(user_id) {
            Ok::<(), AppError>(())
        } else {
            Err(AppError::NotFound)
        }),
{
    match owner {
        Some(id) => if id == user_id {
            Ok(())
        } else {
            Err(AppError::NotFound)
        },
        None => Err(AppError::NotFound),
    }
}

/// A token counts until it expires; one without an expiry always does.
pub open spec fn token_active(expires_at: Option<Timestamp>, now: Timestamp) -> bool {
    expires_at matches Some(at) ==> at.later_than(now)
}

fn is_token_active(expires_at: &Option<Timestamp>, now: &Timestamp) -> (res: bool)
    ensures
        res == token_active(*expires_at, *now),
{
    match expires_at {
        Some(at) => at.is_later_than(now),
        None => true,
    }
}

/// What a request with an API token may go by: the row that has the token's
/// hash, if there is one and it is active.
pub fn find_api_token_by_hash_at(row: Option<ApiToken>, now: &Timestamp) -> (res: Option<TokenRow>)
    ensures
        res == (match row {
            Some(row) => if token_active(row.expires_at, *now) {
                Some(TokenRow { id: row.id, user_id: row.user_id, scopes: row.scopes })
            } else {
                None
            },
            None => None,
        }),
{
    match row {
        Some(row) => if is_token_active(&row.expires_at, now) {
            Some(TokenRow { id: row.id, user_id: row.user_id, scopes: row.scopes })
        } else {
            None
        },
        None => None,
    }
}

/// [`find_api_token_by_hash_at`] by the clock.
pub fn find_api_token_by_hash(row: Option<ApiToken>) -> (res: Option<TokenRow>)
    ensures
        exists|now: Timestamp|
            #![trigger now.plain()]
            now.wf() && now.plain() && now.secs >= 0 && (res == (match row {
                Some(row) => if token_active(row.expires_at, now) {
                    Some(TokenRow { id: row.id, user_id: row.user_id, scopes: row.scopes })
                } else {
                    None
                },
                None => None,
            })),
{
    let now = time::now();
    assert(now.plain());
    find_api_token_by_hash_at(row, &now)
}

/// The active API tokens among those of a user, in order.
pub fn list_api_tokens_at(tokens: Vec<ApiToken>, now: &Timestamp) -> (res: Vec<ApiToken>)
    ensures
        res@ == tokens@.filter(|t: ApiToken| token_active(t.expires_at, *now)),
{
    let ghost active = |t: ApiToken| token_active(t.expires_at, *now);
    let mut listed: Vec<ApiToken> = Vec::new();
    for token in it: tokens
        invariant
            it.seq() == tokens@,
            active == (|t: ApiToken| token_active(t.expires_at, *now)),
            listed@ == tokens@.take(it.index() as int).filter(active),
    {
        proof {
            let n = it.index() as int;
            assert(tokens@.take(n + 1) =~= tokens@.take(n).push(tokens@[n]));
            reveal(Seq::filter);
            assert(tokens@.take(n + 1).drop_last() =~= tokens@.take(n));
        }
        if is_token_active(&token.expires_at, now) {
            listed.push(token);
        }
    }
    proof {
        assert(tokens@.take(tokens@.len() as int) =~= tokens@);
    }
    listed
}

/// [`list_api_tokens_at`] by the clock.
pub fn list_api_tokens(tokens: Vec<ApiToken>) -> (res: Vec<ApiToken>)
    ensures
        exists|now: Timestamp|
            #![trigger now.plain()]
            now.wf() && now.plain() && now.secs >= 0 && res@ == tokens@.filter(
                |t: ApiToken| token_active(t.expires_at, now),
            ),
{
    let now = time::now();
    assert(now.plain());
    list_api_tokens_at(tokens, &now)
}

/// A token of the user is listed exactly when a request can be made with it:
/// listing and lookup agree on which tokens count.
pub proof fn law_listed_tokens_are_the_working_ones(
    tokens: Seq<ApiToken>,
    token: ApiToken,
    now: Timestamp,
)
    ensures
        tokens.filter(|t: ApiToken| token_active(t.expires_at, now)).contains(token) <==> (
        tokens.contains(token) && token_active(token.expires_at, now)),
{
    broadcast use vstd::seq_lib::group_filter_ensures;

    let active = |t: ApiToken| token_active(t.expires_at, now);
    if tokens.filter(active).contains(token) {
        tokens.lemma_filter_contains_rev(active, token);
        let i = choose|i: int|
            0 <= i < tokens.filter(active).len() && tokens.filter(active)[i] == token;
        assert(active(tokens.filter(active)[i]));
    }
    if tokens.contains(token) && active(token) {
        let i = choose|i: int| 0 <= i < tokens.len() && tokens[i] == token;
        tokens.lemma_filter_contains(active, i);
    }
}

// ---------------------------------------------------------------------------
// Bearer tokens
// ---------------------------------------------------------------------------

/// The token in an `Authorization` header.
pub open spec fn bearer_token(header: Option<Seq<char>>) -> Option<Seq<char>> {
    match header {
        Some(value) => if text::occurs_at(value, "Bearer "@, 0) {
            Some(value.skip("Bearer "@.len() as int))
        } else {
            None
        },
        None => None,
    }
}

/// The token in an `Authorization: Bearer <token>` header. `header` is the
/// value of the header where it is text.
pub fn extract_bearer_token(header: Option<&str>) -> (res: Result<String, AppError>)
    ensures
        match bearer_token(header.deep_view()) {
            Some(token) => res matches Ok(t) && t@ == token,
            None => res == Err::<String, AppError>(AppError::Unauthorized),
        },
{
    match header {
        Some(value) => match text::strip_prefix(value, "Bearer ") {
            Some(token) => {
                proof {
                    let prefix = "Bearer "@;
                    assert(value@.subrange(0, prefix.len() as int) =~= prefix);
                    assert(value@.skip(prefix.len() as int) =~= token@);
                }
                Ok(token)
            },
            None => Err(AppError::Unauthorized),
        },
        None => Err(AppError::Unauthorized),
    }
}

/// A token that is presented in a header is the token that is read.
pub proof fn law_presented_token_is_read(token: Seq<char>)
    ensures
        bearer_token(Some("Bearer "@ + token)) == Some(token),
{
    let value = "Bearer "@ + token;
    assert(value.subrange(0, "Bearer "@.len() as int) =~= "Bearer "@);
    assert(value.skip("Bearer "@.len() as int) =~= token);
}

// ---------------------------------------------------------------------------
// The session cache
// ---------------------------------------------------------------------------

/// The Redis key of a session.
pub open spec fn session_cache_key(id: Uuid) -> Seq<char> {
    "session:"@ + ids::hyphenated(id)
}

/// The Redis key of a session.
pub fn session_key(id: Uuid) -> (res: String)
    ensures
        res@ == session_cache_key(id),
{
    text::join2("session:", ids::uuid_text(id).as_str())
}

/// `POST /v1/auth/logout`: the cache entries that go with the user's `sessions`,
/// which are ended on all devices. It takes a session to log out; an API token
/// is refused, and then no session ends.
pub fn logout(credential: Credential, sessions: &Vec<Uuid>) -> (res: Result<Vec<String>, AppError>)
    ensures
        text::result_view(res) == (match credential {
            Credential::Session(_) => Ok::<Seq<Seq<char>>, AppError<Seq<char>>>(
                sessions@.map_values(|id: Uuid| session_cache_key(id)),
            ),
            Credential::ApiToken(_) => Err(AppError::Unauthorized),
        }),
{
    if let Credential::ApiToken(_) = credential {
        return Err(AppError::Unauthorized);
    }
    let mut keys: Vec<String> = Vec::new();
    for id in it: sessions.iter()
        invariant
            it.seq().len() == sessions@.len(),
            forall|i: int| 0 <= i < sessions@.len() ==> *(#[trigger] it.seq()[i]) == sessions@[i],
            keys@.len() == it.index(),
            forall|i: int|
                0 <= i < it.index() ==> (#[trigger] keys@[i])@ == session_cache_key(sessions@[i]),
    {
        keys.push(session_key(*id));
    }
    proof {
        assert(keys.deep_view() =~= sessions@.map_values(|id: Uuid| session_cache_key(id)));
    }
    Ok(keys)
}

/// Logging out leaves no deleted session in the cache: the entry of each is
/// among those that go.
pub proof fn law_logout_clears_every_cache_entry(sessions: Seq<Uuid>, id: Uuid)
    requires
        sessions.contains(id),
    ensures
        sessions.map_values(|s: Uuid| session_cache_key(s)).contains(session_cache_key(id)),
{
    let keys = sessions.map_values(|s: Uuid| session_cache_key(s));
    let i = choose|i: int| 0 <= i < sessions.len() && sessions[i] == id;
    assert(keys[i] == session_cache_key(id));
}

/// The text by which a client presents a session.
pub fn session_token(id: Uuid) -> (res: String)
    ensures
        res@ == ids::hyphenated(id),
        ids::parsed_uuid(res@) == Some(id),
{
    ids::uuid_text(id)
}

/// How long a session may be cached: the whole seconds that it has left. One
/// that has less than a second left is not cached, so that no entry outlives
/// its session.
pub open spec fn cache_ttl(expires_at: Timestamp, now: Timestamp) -> Option<i64> {
    let left = time::seconds_between(expires_at, now);
    if left >= 1 {
        Some(left as i64)
    } else {
        None
    }
}

/// A cache entry never outlives the underlying row.
pub proof fn law_cache_entry_never_outlives_session(expires_at: Timestamp, now: Timestamp)
    requires
        expires_at.plain(),
        now.plain(),
    ensures
        cache_ttl(expires_at, now) matches Some(ttl) ==> now.total_nanos() + ttl * 1_000_000_000
            <= expires_at.total_nanos(),
{
}

/// A session as the database has it.
#[derive(Debug, Clone, Copy, PartialEq, Eq, Structural)]
pub struct SessionRow {
    pub user_id: i64,
    pub expires_at: Timestamp,
}

impl DeepView for SessionRow {
    type V = SessionRow;

    open spec fn deep_view(&self) -> SessionRow {
        *self
    }
}

/// Where the resolution of a session stands.
#[derive(Debug, PartialEq, Eq)]
pub enum SessionStep<S = String> {
    /// Read the cache.
    CacheGet { key: S },
    /// Read the session, unless it has expired.
    Load,
    /// Store the user's id in the cache.
    CacheSet { key: S, value: S, ttl_secs: i64, user_id: i64 },
    /// The user, or why there is none.
    Done { result: Result<i64, AppError<S>> },
}

#[derive(Debug, PartialEq, Eq)]
pub enum SessionReply<S = String> {
    /// What the cache holds, if it could be read.
    Cached(Option<S>),
    Loaded(Result<Option<SessionRow>, S>),
    /// The cache was written to, or could not be.
    Stored,
}

impl DeepView for SessionStep {
    type V = SessionStep<Seq<char>>;

    open spec fn deep_view(&self) -> SessionStep<Seq<char>> {
        match *self {
            SessionStep::CacheGet { key } => SessionStep::CacheGet { key: key@ },
            SessionStep::Load => SessionStep::Load,
            SessionStep::CacheSet { key, value, ttl_secs, user_id } => SessionStep::CacheSet {
                key: key@,
                value: value@,
                ttl_secs,
                user_id,
            },
            SessionStep::Done { result } => SessionStep::Done { result: text::result_view(result) },
        }
    }
}

impl DeepView for SessionReply {
    type V = SessionReply<Seq<char>>;

    open spec fn deep_view(&self) -> SessionReply<Seq<char>> {
        match *self {
            SessionReply::Cached(r) => SessionReply::Cached(r.deep_view()),
            SessionReply::Loaded(r) => SessionReply::Loaded(text::result_view(r)),
            SessionReply::Stored => SessionReply::Stored,
        }
    }
}

impl SessionReply {
    /// The session that came back expires at an existing instant.
    pub open spec fn wf(self) -> bool {
        self matches SessionReply::Loaded(Ok(Some(row))) ==> row.expires_at.wf()
    }
}

/// One step of the resolution of a session, when the clock shows `now`. The
/// cache is read through: what it does not hold, or what is no user id, is
/// looked up and stored.
pub open spec fn session_next(
    id: Uuid,
    step: SessionStep<Seq<char>>,
    reply: SessionReply<Seq<char>>,
    now: Timestamp,
) -> SessionStep<Seq<char>> {
    match (step, reply) {
        (SessionStep::CacheGet { .. }, SessionReply::Cached(r)) => match r {
            Some(value) => match text::parsed_i64(value) {
                Some(user_id) => SessionStep::Done { result: Ok(user_id) },
                None => SessionStep::Load,
            },
            None => SessionStep::Load,
        },
        (SessionStep::Load, SessionReply::Loaded(r)) => match r {
            Ok(Some(row)) => if !row.expires_at.later_than(now) {
                SessionStep::Done { result: Err(AppError::Unauthorized) }
            } else {
                match cache_ttl(row.expires_at, now) {
                    Some(ttl_secs) => SessionStep::CacheSet {
                        key: session_cache_key(id),
                        value: text::decimal(row.user_id as int),
                        ttl_secs,
                        user_id: row.user_id,
                    },
                    None => SessionStep::Done { result: Ok(row.user_id) },
                }
            },
            Ok(None) => SessionStep::Done { result: Err(AppError::Unauthorized) },
            Err(error) => SessionStep::Done { result: Err(AppError::Database(error)) },
        },
        (SessionStep::CacheSet { user_id, .. }, SessionReply::Stored) => SessionStep::Done {
            result: Ok(user_id),
        },
        _ => step,
    }
}

/// How the resolution of a session begins.
pub open spec fn session_begin(id: Uuid) -> SessionStep<Seq<char>> {
    SessionStep::CacheGet { key: session_cache_key(id) }
}

/// Begins to resolve a session to its user, using Redis as a read-through
/// cache. [`advance_session_at`] carries it on.
pub fn resolve_session_cached(id: Uuid) -> (res: SessionStep)
    ensures
        res.deep_view() == session_begin(id),
{
    SessionStep::CacheGet { key: session_key(id) }
}

/// Takes the answer to the open question when the clock shows `now`.
pub fn advance_session_at(id: Uuid, step: SessionStep, reply: SessionReply, now: &Timestamp) -> (res:
    SessionStep)
    requires
        reply.wf(),
        now.wf(),
    ensures
        res.deep_view() == session_next(id, step.deep_view(), reply.deep_view(), *now),
{
    match (step, reply) {
        (SessionStep::CacheGet { .. }, SessionReply::Cached(r)) => match r {
            Some(value) => match text::parse_i64(value.as_str()) {
                Some(user_id) => SessionStep::Done { result: Ok(user_id) },
                None => SessionStep::Load,
            },
            None => SessionStep::Load,
        },
        (SessionStep::Load, SessionReply::Loaded(r)) => match r {
            Ok(Some(row)) => {
                if !row.expires_at.is_later_than(now) {
                    return SessionStep::Done { result: Err(AppError::Unauthorized) };
                }
                let ttl_secs: i64 = time::num_seconds_between(row.expires_at, *now);
                if ttl_secs >= 1 {
                    SessionStep::CacheSet {
                        key: session_key(id),
                        value: text::i64_to_text(row.user_id),
                        ttl_secs,
                        user_id: row.user_id,
                    }
                } else {
                    SessionStep::Done { result: Ok(row.user_id) }
                }
            },
            Ok(None) => SessionStep::Done { result: Err(AppError::Unauthorized) },
            Err(error) => SessionStep::Done { result: Err(AppError::Database(error)) },
        },
        (SessionStep::CacheSet { user_id, .. }, SessionReply::Stored) => SessionStep::Done {
            result: Ok(user_id),
        },
        (step, _) => step,
    }
}

/// What the resolution stores is what it later reads: a cached session
/// resolves to the user that it was stored for.
pub proof fn law_cache_gives_back_the_user(
    id: Uuid,
    row: SessionRow,
    now: Timestamp,
    later: Timestamp,
)
    ensures
        session_next(id, SessionStep::Load, SessionReply::Loaded(Ok(Some(row))), now) matches
            SessionStep::CacheSet { key, value, .. } ==> {
            &&& session_begin(id) == (SessionStep::<Seq<char>>::CacheGet { key })
            &&& session_next(id, session_begin(id), SessionReply::Cached(Some(value)), later) == (
            SessionStep::<Seq<char>>::Done { result: Ok(row.user_id) })
        },
{
    text::law_decimal_reads_back(row.user_id);
}

// ---------------------------------------------------------------------------
// Authentication
// ---------------------------------------------------------------------------

/// Authenticated user injected into the request.
#[derive(Debug, PartialEq, Eq)]
pub struct AuthUser<S = String, L = Vec<String>> {
    pub id: i64,
    pub username: S,
    pub scopes: L,
}

impl DeepView for AuthUser {
    type V = AuthUser<Seq<char>, Seq<Seq<char>>>;

    open spec fn deep_view(&self) -> AuthUser<Seq<char>, Seq<Seq<char>>> {
        AuthUser {
            id: self.id,
            username: self.username@,
            scopes: self.scopes.deep_view(),
        }
    }
}

/// What a request authenticated itself by; its last use is noted in the
/// background, so that it does not block the request.
#[derive(Debug, Clone, Copy, PartialEq, Eq, Structural)]
pub enum Credential {
    Session(Uuid),
    ApiToken(Uuid),
}

/// A stored API token that has not expired.
#[derive(Debug, PartialEq, Eq)]
pub struct TokenRow<L = Vec<String>> {
    pub id: Uuid,
    pub user_id: i64,
    pub scopes: L,
}

impl DeepView for TokenRow {
    type V = TokenRow<Seq<Seq<char>>>;

    open spec fn deep_view(&self) -> TokenRow<Seq<Seq<char>>> {
        TokenRow { id: self.id, user_id: self.user_id, scopes: self.scopes.deep_view() }
    }
}

/// Where the authentication of a request stands.
#[derive(Debug, PartialEq, Eq)]
#[allow(inconsistent_fields)]
pub enum AuthStep<S = String, L = Vec<String>> {
    /// Resolve the session.
    Session { id: Uuid, step: SessionStep<S> },
    /// Find an API token by its hash.
    FindToken { hash: S },
    /// Find the user.
    FindUser { credential: Credential, user_id: i64, scopes: L },
    /// Who made the request and by what, or why it is refused.
    Done { result: Result<(AuthUser<S, L>, Credential), AppError<S>> },
}

#[derive(Debug, PartialEq, Eq)]
pub enum AuthReply<S = String, L = Vec<String>> {
    Session(SessionReply<S>),
    Token(Result<Option<TokenRow<L>>, S>),
    /// The id and name of the user.
    User(Result<Option<(i64, S)>, S>),
}

pub type AuthStepView = AuthStep<Seq<char>, Seq<Seq<char>>>;

pub type AuthReplyView = AuthReply<Seq<char>, Seq<Seq<char>>>;

impl DeepView for Credential {
    type V = Credential;

    open spec fn deep_view(&self) -> Credential {
        *self
    }
}

impl DeepView for AuthStep {
    type V = AuthStep<Seq<char>, Seq<Seq<char>>>;

    open spec fn deep_view(&self) -> AuthStep<Seq<char>, Seq<Seq<char>>> {
        match *self {
            AuthStep::Session { id, step } => AuthStep::Session { id, step: step.deep_view() },
            AuthStep::FindToken { hash } => AuthStep::FindToken { hash: hash@ },
            AuthStep::FindUser { credential, user_id, scopes } => AuthStep::FindUser {
                credential,
                user_id,
                scopes: scopes.deep_view(),
            },
            AuthStep::Done { result } => AuthStep::Done { result: text::result_view(result) },
        }
    }
}

impl DeepView for AuthReply {
    type V = AuthReply<Seq<char>, Seq<Seq<char>>>;

    open spec fn deep_view(&self) -> AuthReply<Seq<char>, Seq<Seq<char>>> {
        match *self {
            AuthReply::Session(r) => AuthReply::Session(r.deep_view()),
            AuthReply::Token(r) => AuthReply::Token(text::result_view(r)),
            AuthReply::User(r) => AuthReply::User(text::result_view(r)),
        }
    }
}

impl AuthReply {
    pub open spec fn wf(self) -> bool {
        self matches AuthReply::Session(r) ==> r.wf()
    }
}

/// What a session may do: everything.
pub open spec fn session_scopes() -> Seq<Seq<char>> {
    seq!["scrobble"@, "read"@, "write"@]
}

/// How the authentication of a request begins: a token that denotes a UUID is
/// a session, any other an API token.
pub open spec fn auth_begin(header: Option<Seq<char>>) -> AuthStepView {
    match bearer_token(header) {
        None => AuthStep::Done { result: Err(AppError::Unauthorized) },
        Some(token) => match ids::parsed_uuid(token) {
            Some(id) => AuthStep::Session { id, step: session_begin(id) },
            None => AuthStep::FindToken { hash: token_hash(token) },
        },
    }
}

/// One step of the authentication of a request, when the clock shows `now`.
pub open spec fn auth_next(step: AuthStepView, reply: AuthReplyView, now: Timestamp) -> AuthStepView {
    match (step, reply) {
        (AuthStep::Session { id, step: session }, AuthReply::Session(r)) => match session_next(
            id,
            session,
            r,
            now,
        ) {
            SessionStep::Done { result: Ok(user_id) } => AuthStep::FindUser {
                credential: Credential::Session(id),
                user_id,
                scopes: session_scopes(),
            },
            SessionStep::Done { result: Err(e) } => AuthStep::Done { result: Err(e) },
            other => AuthStep::Session { id, step: other },
        },
        (AuthStep::FindToken { .. }, AuthReply::Token(r)) => match r {
            Ok(Some(token)) => AuthStep::FindUser {
                credential: Credential::ApiToken(token.id),
                user_id: token.user_id,
                scopes: token.scopes,
            },
            Ok(None) => AuthStep::Done { result: Err(AppError::Unauthorized) },
            Err(error) => AuthStep::Done { result: Err(AppError::Database(error)) },
        },
        (AuthStep::FindUser { credential, scopes, .. }, AuthReply::User(r)) => match r {
            Ok(Some((id, username))) => AuthStep::Done {
                result: Ok((AuthUser { id, username, scopes }, credential)),
            },
            Ok(None) => AuthStep::Done { result: Err(AppError::Unauthorized) },
            Err(error) => AuthStep::Done { result: Err(AppError::Database(error)) },
        },
        _ => step,
    }
}

fn all_scopes() -> (res: Vec<String>)
    ensures
        res.deep_view() == session_scopes(),
{
    let scopes: Vec<String> = vec!["scrobble".to_owned(), "read".to_owned(), "write".to_owned()];
    proof {
        assert(scopes.deep_view() =~= session_scopes());
    }
    scopes
}

/// Begins to validate the `Authorization: Bearer <token>` header of a request.
/// [`advance_auth`] carries it on.
///
/// Accepts two token formats:
/// - Session UUID, validated against the sessions (cached in Redis).
/// - API token, SHA-256 hashed, validated against the stored hashes. Every
///   token that is not as long as some notation of a UUID is one of these.
pub fn require_auth(header: Option<&str>) -> (res: AuthStep)
    ensures
        res.deep_view() == auth_begin(header.deep_view()),
        bearer_token(header.deep_view()) matches Some(token) ==> (!ids::uuid_length(token)
            ==> res.deep_view() == (AuthStepView::FindToken { hash: token_hash(token) })),
{
    match extract_bearer_token(header) {
        Ok(token) => match ids::parse_uuid(token.as_str()) {
            Some(id) => AuthStep::Session { id, step: resolve_session_cached(id) },
            None => AuthStep::FindToken { hash: hash_api_token(token.as_str()) },
        },
        Err(e) => AuthStep::Done { result: Err(e) },
    }
}

/// Begins to identify the viewer of a public page. Unlike [`require_auth`], a
/// missing, malformed or invalid token is no error: the request simply
/// proceeds with no user. Only session tokens are accepted here, not API
/// tokens.
pub fn optional_auth(header: Option<&str>) -> (res: Option<AuthStep>)
    ensures
        match auth_begin(header.deep_view()) {
            AuthStep::Session { id, step } => res.deep_view() == Some(
                AuthStepView::Session { id, step },
            ),
            _ => res is None,
        },
{
    match extract_bearer_token(header) {
        Ok(token) => match ids::parse_uuid(token.as_str()) {
            Some(id) => Some(AuthStep::Session { id, step: resolve_session_cached(id) }),
            None => None,
        },
        Err(_) => None,
    }
}

/// The viewer of a public page: whoever was authenticated, and nobody on any
/// failure.
pub fn viewer(result: Result<(AuthUser, Credential), AppError>) -> (res: Option<AuthUser>)
    ensures
        res == (match result {
            Ok((user, _)) => Some(user),
            Err(_) => None,
        }),
{
    match result {
        Ok((user, _)) => Some(user),
        Err(_) => None,
    }
}

/// Takes the answer to the open question when the clock shows `now`.
pub fn advance_auth_at(step: AuthStep, reply: AuthReply, now: &Timestamp) -> (res: AuthStep)
    requires
        reply.wf(),
        now.wf(),
    ensures
        res.deep_view() == auth_next(step.deep_view(), reply.deep_view(), *now),
{
    match (step, reply) {
        (AuthStep::Session { id, step: session }, AuthReply::Session(r)) => {
            match advance_session_at(id, session, r, now) {
                SessionStep::Done { result: Ok(user_id) } => AuthStep::FindUser {
                    credential: Credential::Session(id),
                    user_id,
                    scopes: all_scopes(),
                },
                SessionStep::Done { result: Err(e) } => AuthStep::Done { result: Err(e) },
                other => AuthStep::Session { id, step: other },
            }
        },
        (AuthStep::FindToken { .. }, AuthReply::Token(r)) => match r {
            Ok(Some(token)) => AuthStep::FindUser {
                credential: Credential::ApiToken(token.id),
                user_id: token.user_id,
                scopes: token.scopes,
            },
            Ok(None) => AuthStep::Done { result: Err(AppError::Unauthorized) },
            Err(error) => AuthStep::Done { result: Err(AppError::Database(error)) },
        },
        (AuthStep::FindUser { credential, scopes, .. }, AuthReply::User(r)) => match r {
            Ok(Some((id, username))) => AuthStep::Done {
                result: Ok((AuthUser { id, username, scopes }, credential)),
            },
            Ok(None) => AuthStep::Done { result: Err(AppError::Unauthorized) },
            Err(error) => AuthStep::Done { result: Err(AppError::Database(error)) },
        },
        (step, _) => step,
    }
}

/// Takes the answer to the open question of an authentication.
pub fn advance_auth(step: AuthStep, reply: AuthReply) -> (res: AuthStep)
    requires
        reply.wf(),
    ensures
        exists|now: Timestamp|
            now.wf() && now.plain() && now.secs >= 0 && res.deep_view() == #[trigger] auth_next(
                step.deep_view(),
                reply.deep_view(),
                now,
            ),
{
    let now = time::now();
    advance_auth_at(step, reply, &now)
}

/// What would answer each question of an authentication.
pub struct AuthAnswers {
    pub cached: Option<Seq<char>>,
    pub session: Result<Option<SessionRow>, Seq<char>>,
    pub token: Result<Option<TokenRow<Seq<Seq<char>>>>, Seq<char>>,
    pub user: Result<Option<(i64, Seq<char>)>, Seq<char>>,
}

/// The answer to the question that is open in `step`.
pub open spec fn auth_reply(step: AuthStepView, a: AuthAnswers) -> AuthReplyView {
    match step {
        AuthStep::Session { step: SessionStep::CacheGet { .. }, .. } => AuthReply::Session(
            SessionReply::Cached(a.cached),
        ),
        AuthStep::Session { step: SessionStep::Load, .. } => AuthReply::Session(
            SessionReply::Loaded(a.session),
        ),
        AuthStep::Session { .. } => AuthReply::Session(SessionReply::Stored),
        AuthStep::FindToken { .. } => AuthReply::Token(a.token),
        _ => AuthReply::User(a.user),
    }
}

/// The user that a session belongs to: whom the cache names, else whom the
/// database does, unless the session has expired.
pub open spec fn session_owner(a: AuthAnswers, now: Timestamp) -> Result<
    i64,
    AppError<Seq<char>>,
> {
    let cached = match a.cached {
        Some(value) => text::parsed_i64(value),
        None => None,
    };
    match (cached, a.session) {
        (Some(user_id), _) => Ok(user_id),
        (None, Ok(Some(row))) => if row.expires_at.later_than(now) {
            Ok(row.user_id)
        } else {
            Err(AppError::Unauthorized)
        },
        (None, Ok(None)) => Err(AppError::Unauthorized),
        (None, Err(error)) => Err(AppError::Database(error)),
    }
}

/// What comes of the authentication of a request. The clock shows `now` when the
/// session comes in.
pub open spec fn auth_outcome(header: Option<Seq<char>>, a: AuthAnswers, now: Timestamp) -> Result<
    (AuthUser<Seq<char>, Seq<Seq<char>>>, Credential),
    AppError<Seq<char>>,
> {
    let identified: Result<(Credential, Seq<Seq<char>>), AppError<Seq<char>>> = match bearer_token(
        header,
    ) {
        None => Err(AppError::Unauthorized),
        Some(token) => match ids::parsed_uuid(token) {
            Some(id) => match session_owner(a, now) {
                Ok(_) => Ok((Credential::Session(id), session_scopes())),
                Err(e) => Err(e),
            },
            None => match a.token {
                Ok(Some(row)) => Ok((Credential::ApiToken(row.id), row.scopes)),
                Ok(None) => Err(AppError::Unauthorized),
                Err(error) => Err(AppError::Database(error)),
            },
        },
    };
    match (identified, a.user) {
        (Err(e), _) => Err(e),
        (Ok(_), Err(error)) => Err(AppError::Database(error)),
        (Ok(_), Ok(None)) => Err(AppError::Unauthorized),
        (Ok((credential, scopes)), Ok(Some((id, username)))) => Ok(
            (AuthUser { id, username, scopes }, credential),
        ),
    }
}

/// The state after `n` questions were answered. `now(i)` is what the clock shows
/// at answer number `i`; the first of these answers is number `k`.
pub open spec fn auth_run(
    step: AuthStepView,
    a: AuthAnswers,
    now: spec_fn(nat) -> Timestamp,
    k: nat,
    n: nat,
) -> AuthStepView
    decreases n,
{
    if n == 0 {
        step
    } else {
        auth_run(auth_next(step, auth_reply(step, a), now(k)), a, now, k + 1, (n - 1) as nat)
    }
}

proof fn lemma_auth_settled(
    step: AuthStepView,
    a: AuthAnswers,
    now: spec_fn(nat) -> Timestamp,
    k: nat,
    n: nat,
)
    requires
        step is Done,
    ensures
        auth_run(step, a, now, k, n) == step,
    decreases n,
{
    if n > 0 {
        lemma_auth_settled(step, a, now, k + 1, (n - 1) as nat);
    }
}

/// Four answers bring every authentication to the outcome that they determine,
/// however the clock goes: what counts is what it shows at the second answer, by
/// which a session that is not cached comes in.
pub proof fn law_authentication(
    header: Option<Seq<char>>,
    a: AuthAnswers,
    now: spec_fn(nat) -> Timestamp,
    n: nat,
)
    requires
        n >= 4,
    ensures
        auth_run(auth_begin(header), a, now, 0, n) == (AuthStepView::Done {
            result: auth_outcome(header, a, now(1)),
        }),
{
    reveal_with_fuel(auth_run, 5);
    let s0 = auth_begin(header);
    let s1 = auth_next(s0, auth_reply(s0, a), now(0));
    let s2 = auth_next(s1, auth_reply(s1, a), now(1));
    let s3 = auth_next(s2, auth_reply(s2, a), now(2));
    let s4 = auth_next(s3, auth_reply(s3, a), now(3));
    assert(s4 == (AuthStepView::Done { result: auth_outcome(header, a, now(1)) }));
    lemma_auth_settled(s4, a, now, 4, (n - 4) as nat);
}

/// A session that is presented by its token is the session that is resolved.
pub proof fn law_presented_session_is_resolved(id: Uuid, token: Seq<char>)
    requires
        ids::parsed_uuid(token) == Some(id),
    ensures
        auth_begin(Some("Bearer "@ + token)) == (AuthStepView::Session {
            id,
            step: session_begin(id),
        }),
{
    law_presented_token_is_read(token);
}

/// Without a bearer token nobody is authenticated.
pub proof fn law_no_token_no_user(header: Option<Seq<char>>, a: AuthAnswers, now: Timestamp)
    requires
        bearer_token(header) is None,
    ensures
        auth_outcome(header, a, now) == Err::<
            (AuthUser<Seq<char>, Seq<Seq<char>>>, Credential),
            AppError<Seq<char>>,
        >(AppError::Unauthorized),
{
}

/// A session that has expired authenticates nobody, once the cache no longer
/// has it.
pub proof fn law_expired_sessions_are_refused(
    header: Option<Seq<char>>,
    a: AuthAnswers,
    row: SessionRow,
    now: Timestamp,
)
    requires
        bearer_token(header) matches Some(token) && ids::parsed_uuid(token) is Some,
        a.cached is None,
        a.session == Ok::<Option<SessionRow>, Seq<char>>(Some(row)),
        !row.expires_at.later_than(now),
    ensures
        auth_outcome(header, a, now) == Err::<
            (AuthUser<Seq<char>, Seq<Seq<char>>>, Credential),
            AppError<Seq<char>>,
        >(AppError::Unauthorized),
{
}

// ---------------------------------------------------------------------------
// The request limit
// ---------------------------------------------------------------------------

/// Requests per window and address.
pub const MAX_REQUESTS: i64 = 60;

/// Length of the window (s).
pub const WINDOW_SECS: i64 = 60;

/// The address that a request is counted under: the first hop of
/// `X-Forwarded-For` when behind a reverse proxy, else the connection's.
pub open spec fn client_address(
    forwarded: Option<Seq<char>>,
    peer: Option<Seq<char>>,
) -> Seq<char> {
    match (forwarded, peer) {
        (Some(hops), _) => text::trimmed(text::before(hops, ","@)),
        (None, Some(ip)) => ip,
        (None, None) => "unknown"@,
    }
}

/// Extracts the client IP from `X-Forwarded-For` (first hop) when behind a
/// reverse proxy, falling back to the raw connection address otherwise.
pub fn extract_ip(forwarded: Option<&str>, peer: Option<String>) -> (res: String)
    ensures
        res@ == client_address(forwarded.deep_view(), peer.deep_view()),
{
    match forwarded {
        Some(hops) => {
            let first = text::text_before(hops, ",");
            first.as_str().trim().to_owned()
        },
        None => match peer {
            Some(ip) => ip,
            None => "unknown".to_owned(),
        },
    }
}

/// The Redis key of an address's recent requests.
pub fn rate_limit_key(ip: &str) -> (res: String)
    ensures
        res@ == "rl:"@ + ip@,
{
    text::join2("rl:", ip)
}

/// Where the window that ends at `now_ms` begins: requests up to there no
/// longer count.
pub open spec fn window_start(now_ms: int) -> int {
    now_ms - WINDOW_SECS * 1000
}

/// The time (ms) up to which the requests of an address are to be forgotten
/// before the one at `now_ms` is added and counted.
pub fn window_cutoff(now_ms: i64) -> (res: i64)
    ensures
        window_start(now_ms as int) >= i64::MIN ==> res == window_start(now_ms as int),
        window_start(now_ms as int) < i64::MIN ==> res == i64::MIN,
{
    let length_ms: i64 = WINDOW_SECS * 1000;
    if now_ms < i64::MIN + length_ms {
        i64::MIN
    } else {
        now_ms - length_ms
    }
}

/// Sliding-window rate limiter: decides on a request by the number of requests
/// from its address in the window that ends with it, this one included. A
/// request goes ahead when the number could not be had.
pub fn rate_limit(count: Option<i64>) -> (res: Result<(), AppError>)
    ensures
        res == (if count is Some && count->Some_0 > MAX_REQUESTS {
            Err::<(), AppError>(AppError::RateLimited)
        } else {
            Ok(())
        }),
{
    match count {
        Some(n) => if n > MAX_REQUESTS {
            Err(AppError::RateLimited)
        } else {
            Ok(())
        },
        None => Ok(()),
    }
}

/// How many of the first `n` requests, which came in at `times` (ms), came in
/// after `cutoff`.
pub open spec fn requests_after(times: Seq<int>, n: nat, cutoff: int) -> nat
    decreases n,
{
    if n == 0 {
        0
    } else {
        requests_after(times, (n - 1) as nat, cutoff) + if times[n - 1] > cutoff {
            1nat
        } else {
            0nat
        }
    }
}

/// Request `i` of an address goes ahead: there are not too many in the window
/// that ends with it.
pub open spec fn goes_ahead(times: Seq<int>, i: int) -> bool {
    requests_after(times, (i + 1) as nat, window_start(times[i])) <= MAX_REQUESTS
}

/// How many of the first `n` requests came in after `cutoff` and went ahead.
pub open spec fn served_after(times: Seq<int>, n: nat, cutoff: int) -> nat
    decreases n,
{
    if n == 0 {
        0
    } else {
        served_after(times, (n - 1) as nat, cutoff) + if times[n - 1] > cutoff && goes_ahead(
            times,
            n - 1,
        ) {
            1nat
        } else {
            0nat
        }
    }
}

proof fn lemma_served_are_requests(times: Seq<int>, n: nat, cutoff: int, earlier: int)
    requires
        earlier <= cutoff,
    ensures
        served_after(times, n, cutoff) <= requests_after(times, n, earlier),
    decreases n,
{
    if n > 0 {
        lemma_served_are_requests(times, (n - 1) as nat, cutoff, earlier);
    }
}

/// Whatever the times of an address's requests are, no window holds more than
/// [`MAX_REQUESTS`] that went ahead: of the first `n` requests, at most so many
/// that came in after `cutoff` did, where the last came in no later than one
/// window length after `cutoff`.
pub proof fn law_no_window_is_overrun(times: Seq<int>, n: nat, cutoff: int)
    requires
        n <= times.len(),
        forall|i: int, j: int| 0 <= i <= j < times.len() ==> times[i] <= times[j],
        n > 0 ==> window_start(times[n - 1]) <= cutoff,
    ensures
        served_after(times, n, cutoff) <= MAX_REQUESTS,
    decreases n,
{
    if n > 0 {
        if times[n - 1] > cutoff && goes_ahead(times, n - 1) {
            lemma_served_are_requests(times, n, cutoff, window_start(times[n - 1]));
        } else {
            if n > 1 {
                assert(times[n - 2] <= times[n - 1]);
            }
            law_no_window_is_overrun(times, (n - 1) as nat, cutoff);
        }
    }
}

// ---------------------------------------------------------------------------
// Laws
// ---------------------------------------------------------------------------

/// A new token has the name, the scopes and the lifetime that were asked for. By
/// default it may scrobble and nothing else, and it never expires; a lifetime
/// counts in days of 24 hours from now.
pub proof fn law_issued_tokens_are_as_asked_for(
    body: CreateTokenRequest<Seq<char>, Seq<Seq<char>>>,
    bytes: Seq<u8>,
    now: Timestamp,
)
    ensures
        issued(body, bytes, now) matches Ok(token) ==> {
            &&& token.name == body.name
            &&& token.raw == ids::hex_text(bytes)
            &&& token.hash == ids::hex_text(ids::sha256(vstd::utf8::encode_utf8(token.raw)))
            &&& body.scopes matches Some(scopes) ==> token.scopes == scopes
            &&& body.scopes is None ==> token.scopes == seq!["scrobble"@]
            &&& body.expires_days is None ==> token.expires_at is None
            &&& body.expires_days matches Some(days) ==> (token.expires_at matches Some(at)
                && at.total_nanos() == now.total_nanos() + days * 86_400_000_000_000)
        },
        body.expires_days is None ==> issued(body, bytes, now) is Ok,
        body.expires_days matches Some(days) ==> (issued(body, bytes, now) is Ok
            <==> time::MIN_SECS * 1_000_000_000 <= now.total_nanos() + days * 86_400_000_000_000 < (
        time::MAX_SECS + 1) * 1_000_000_000),
        issued(body, bytes, now) matches Err(e) ==> e == AppError::<Seq<char>>::Internal(
            "expiry is out of range"@,
        ),
        TOKEN_BYTES == 32,
{
    if let Some(days) = body.expires_days {
        time::law_shifts_are_exact(now, days * time::MILLIS_PER_DAY);
        assert(days * 86_400_000 * 1_000_000 == days * 86_400_000_000_000);
    }
}

/// A token counts exactly until the instant at which it expires, and always where
/// it has none.
pub proof fn law_tokens_count_until_they_expire(at: Timestamp, now: Timestamp)
    ensures
        token_active(None, now),
        token_active(Some(at), now) <==> at.secs > now.secs || (at.secs == now.secs && at.nanos
            > now.nanos),
{
}

/// A header holds a token exactly when it is the word `Bearer`, a space and the
/// token.
pub proof fn law_bearer_headers(value: Seq<char>, token: Seq<char>)
    ensures
        bearer_token(None) is None,
        bearer_token(Some(value)) == Some(token) <==> value == "Bearer "@ + token,
{
    law_presented_token_is_read(token);
    if bearer_token(Some(value)) == Some(token) {
        let prefix = "Bearer "@;
        assert(value.subrange(0, prefix.len() as int) == prefix);
        assert(value =~= prefix + value.skip(prefix.len() as int));
    }
}

/// The cache holds the user of a session under the session's own key, as a decimal
/// number, for as many whole seconds as the session has left.
pub proof fn law_cache_entries(id: Uuid, row: SessionRow, now: Timestamp)
    requires
        row.expires_at.wf(),
        now.wf(),
        row.expires_at.plain(),
        now.plain(),
    ensures
        ({
            let left = row.expires_at.total_nanos() - now.total_nanos();
            let next = session_next(
                id,
                SessionStep::Load,
                SessionReply::Loaded(Ok(Some(row))),
                now,
            );
            &&& left >= 1_000_000_000 ==> next == (SessionStep::<Seq<char>>::CacheSet {
                key: "session:"@ + ids::hyphenated(id),
                value: text::decimal(row.user_id as int),
                ttl_secs: (left / 1_000_000_000) as i64,
                user_id: row.user_id,
            })
            &&& 0 < left < 1_000_000_000 ==> next == (SessionStep::<Seq<char>>::Done {
                result: Ok(row.user_id),
            })
            &&& left <= 0 ==> next == (SessionStep::<Seq<char>>::Done {
                result: Err(AppError::Unauthorized),
            })
        }),
{
}

/// A session is looked up under its own key; what the cache holds there is
/// believed where it is a number, and else the database is asked. A session that
/// is not there is refused, and one that was stored in the cache counts.
pub proof fn law_session_steps(
    id: Uuid,
    user_id: i64,
    junk: Seq<char>,
    error: Seq<char>,
    key: Seq<char>,
    value: Seq<char>,
    ttl_secs: i64,
    now: Timestamp,
)
    requires
        text::parsed_i64(junk) is None,
    ensures
        session_begin(id) == (SessionStep::<Seq<char>>::CacheGet {
            key: "session:"@ + ids::hyphenated(id),
        }),
        session_next(
            id,
            session_begin(id),
            SessionReply::Cached(Some(text::decimal(user_id as int))),
            now,
        ) == (SessionStep::<Seq<char>>::Done { result: Ok(user_id) }),
        session_next(id, session_begin(id), SessionReply::Cached(Some(junk)), now) == (SessionStep::<
            Seq<char>,
        >::Load),
        session_next(id, session_begin(id), SessionReply::Cached(None), now) == (SessionStep::<
            Seq<char>,
        >::Load),
        session_next(id, SessionStep::Load, SessionReply::Loaded(Ok(None)), now) == (SessionStep::<
            Seq<char>,
        >::Done { result: Err(AppError::Unauthorized) }),
        session_next(id, SessionStep::Load, SessionReply::Loaded(Err(error)), now) == (
        SessionStep::<Seq<char>>::Done { result: Err(AppError::Database(error)) }),
        session_next(
            id,
            SessionStep::CacheSet { key, value, ttl_secs, user_id },
            SessionReply::Stored,
            now,
        ) == (SessionStep::<Seq<char>>::Done { result: Ok(user_id) }),
{
    text::law_decimal_reads_back(user_id);
}

/// The user who is looked up for a request is the one that its session or its API
/// token belongs to. A session may do everything; a token, what its scopes say.
pub proof fn law_requests_are_made_by_the_owner(
    id: Uuid,
    user_id: i64,
    row: TokenRow<Seq<Seq<char>>>,
    hash: Seq<char>,
    error: Seq<char>,
    now: Timestamp,
)
    ensures
        auth_next(
            AuthStep::Session { id, step: session_begin(id) },
            AuthReply::Session(SessionReply::Cached(Some(text::decimal(user_id as int)))),
            now,
        ) == (AuthStepView::FindUser {
            credential: Credential::Session(id),
            user_id,
            scopes: seq!["scrobble"@, "read"@, "write"@],
        }),
        auth_next(AuthStep::FindToken { hash }, AuthReply::Token(Ok(Some(row))), now) == (
        AuthStepView::FindUser {
            credential: Credential::ApiToken(row.id),
            user_id: row.user_id,
            scopes: row.scopes,
        }),
        auth_next(AuthStep::FindToken { hash }, AuthReply::Token(Ok(None)), now) == (
        AuthStepView::Done { result: Err(AppError::Unauthorized) }),
        auth_next(AuthStep::FindToken { hash }, AuthReply::Token(Err(error)), now) == (
        AuthStepView::Done { result: Err(AppError::Database(error)) }),
{
    text::law_decimal_reads_back(user_id);
}

/// Whenever the resolution of a session comes to its user, it is that user who is
/// looked up, as the bearer of that session; whenever it fails, so does the
/// request.
pub proof fn law_resolved_sessions_are_looked_up(
    id: Uuid,
    session: SessionStep<Seq<char>>,
    reply: SessionReply<Seq<char>>,
    now: Timestamp,
)
    ensures
        session_next(id, session, reply, now) matches SessionStep::Done { result } ==> match result {
            Ok(user_id) => auth_next(
                AuthStep::Session { id, step: session },
                AuthReply::Session(reply),
                now,
            ) == (AuthStepView::FindUser {
                credential: Credential::Session(id),
                user_id,
                scopes: seq!["scrobble"@, "read"@, "write"@],
            }),
            Err(e) => auth_next(
                AuthStep::Session { id, step: session },
                AuthReply::Session(reply),
                now,
            ) == (AuthStepView::Done { result: Err(e) }),
        },
{
}

/// A token that is no UUID is looked up by its hash, and one that is as a session.
pub proof fn law_tokens_are_told_apart(token: Seq<char>)
    ensures
        match ids::parsed_uuid(token) {
            Some(id) => auth_begin(Some("Bearer "@ + token)) == (AuthStepView::Session {
                id,
                step: session_begin(id),
            }),
            None => auth_begin(Some("Bearer "@ + token)) == (AuthStepView::FindToken {
                hash: ids::hex_text(ids::sha256(vstd::utf8::encode_utf8(token))),
            }),
        },
{
    law_presented_token_is_read(token);
}

/// A session belongs to the user whom the cache names; where the cache names none,
/// to the one that the database does, as long as it has not expired.
pub proof fn law_session_owners(a: AuthAnswers, now: Timestamp)
    ensures
        (a.cached matches Some(value) && text::parsed_i64(value) is Some) ==> session_owner(a, now)
            == Ok::<i64, AppError<Seq<char>>>(text::parsed_i64(a.cached->0)->0),
        !(a.cached matches Some(value) && text::parsed_i64(value) is Some) ==> match a.session {
            Ok(Some(row)) => session_owner(a, now) == if row.expires_at.later_than(now) {
                Ok::<i64, AppError<Seq<char>>>(row.user_id)
            } else {
                Err(AppError::Unauthorized)
            },
            Ok(None) => session_owner(a, now) == Err::<i64, AppError<Seq<char>>>(
                AppError::Unauthorized,
            ),
            Err(error) => session_owner(a, now) == Err::<i64, AppError<Seq<char>>>(
                AppError::Database(error),
            ),
        },
{
}

/// A request is let in exactly when it presents a session or an API token that
/// stands for somebody who is still there. It is made in that user's name, by that
/// session or token, with the scopes that go with it.
pub proof fn law_who_is_let_in(token: Seq<char>, a: AuthAnswers, now: Timestamp)
    ensures
        ({
            let outcome = auth_outcome(Some("Bearer "@ + token), a, now);
            let known = if ids::parsed_uuid(token) is Some {
                session_owner(a, now) is Ok
            } else {
                a.token matches Ok(Some(_))
            };
            &&& outcome is Ok <==> known && (a.user matches Ok(Some(_)))
            &&& outcome matches Ok((user, credential)) ==> {
                &&& a.user == Ok::<Option<(i64, Seq<char>)>, Seq<char>>(
                    Some((user.id, user.username)),
                )
                &&& match ids::parsed_uuid(token) {
                    Some(id) => credential == Credential::Session(id) && user.scopes
                        == seq!["scrobble"@, "read"@, "write"@],
                    None => credential == Credential::ApiToken(a.token->Ok_0->0.id) && user.scopes
                        == a.token->Ok_0->0.scopes,
                }
            }
            &&& outcome matches Err(e) ==> e is Unauthorized || e is Database
            &&& known && a.user == Ok::<Option<(i64, Seq<char>)>, Seq<char>>(None) ==> outcome
                == Err::<(AuthUser<Seq<char>, Seq<Seq<char>>>, Credential), AppError<Seq<char>>>(
                AppError::Unauthorized,
            )
        }),
{
    law_presented_token_is_read(token);
}

/// A request is counted under the first address of `X-Forwarded-For`, without the
/// white space around it; without that header under the address it came from; and
/// under `unknown` where there is none.
pub proof fn law_client_addresses(
    first: Seq<char>,
    rest: Seq<char>,
    peer: Seq<char>,
    other: Option<Seq<char>>,
)
    requires
        !first.contains(','),
    ensures
        client_address(Some(first + seq![','] + rest), other) == text::trimmed(first),
        client_address(Some(first), other) == text::trimmed(first),
        client_address(None, Some(peer)) == peer,
        client_address(None, None) == "unknown"@,
{
    reveal_strlit(",");
    let comma = ","@;
    assert(comma =~= seq![',']);
    let hops = first + seq![','] + rest;
    let at = first.len() as int;
    assert(hops.subrange(at, at + 1) =~= comma);
    assert forall|i: int| 0 <= i < at implies !text::occurs_at(hops, comma, i) by {
        if text::occurs_at(hops, comma, i) {
            assert(hops.subrange(i, i + 1)[0] == ',');
            assert(first[i] == ',');
        }
    }
    assert(text::first_occurs_at(hops, comma, at));
    let chosen = choose|k: int| text::first_occurs_at(hops, comma, k);
    text::lemma_first_occurrence_unique(hops, comma, at, chosen);
    assert(hops.take(at) =~= first);
    assert forall|i: int| !text::first_occurs_at(first, comma, i) by {
        if text::occurs_at(first, comma, i) {
            assert(first.subrange(i, i + 1)[0] == ',');
            assert(first[i] == ',');
        }
    }
}

/// The window is one minute long, and holds 60 requests of an address.
pub proof fn law_request_limit(now_ms: int)
    ensures
        window_start(now_ms) == now_ms - 60_000,
        MAX_REQUESTS == 60,
{
}

/// Whatever is decided on a request, it is turned away exactly when more than 60
/// requests of its address are known of in the window, itself among them.
pub proof fn law_the_sixty_first_request_is_turned_away(
    count: Option<i64>,
    res: Result<(), AppError>,
)
    requires
        call_ensures(rate_limit, (count,), res),
    ensures
        count matches Some(n) && n > 60 ==> res == Err::<(), AppError>(AppError::RateLimited),
        !(count matches Some(n) && n > 60) ==> res == Ok::<(), AppError>(()),
{
}

/// A new token is answered with what is stored of it, and with the token itself.
pub proof fn law_token_responses(row: ApiToken, raw: String, res: CreateTokenResponse)
    requires
        call_ensures(create_token_response, (row, raw), res),
    ensures
        res.id == row.id,
        res.name == row.name,
        res.token == raw,
        res.scopes == row.scopes,
        res.expires_at == row.expires_at,
        res.created_at == row.created_at,
{
}

/// A token is revoked by its owner and by nobody else; to anybody else it is not
/// there.
pub proof fn law_only_the_owner_revokes_a_token(
    owner: Option<i64>,
    user_id: i64,
    res: Result<(), AppError>,
)
    requires
        call_ensures(delete_api_token, (owner, user_id), res),
    ensures
        res is Ok <==> owner == Some(user_id),
        res is Err ==> res == Err::<(), AppError>(AppError::NotFound),
{
}

/// A request goes by the token that was found, with its owner and its scopes, as
/// long as the token has not expired.
pub proof fn law_found_tokens_count(row: ApiToken, now: &Timestamp, res: Option<TokenRow>)
    requires
        call_ensures(find_api_token_by_hash_at, (Some(row), now), res),
    ensures
        res is Some <==> (row.expires_at matches Some(at) ==> at.later_than(*now)),
        res matches Some(found) ==> found.id == row.id && found.user_id == row.user_id
            && found.scopes == row.scopes,
{
}

/// The tokens that are listed are those that have not expired, each once and in
/// their order.
pub proof fn law_listed_tokens_keep_their_order(
    tokens: Vec<ApiToken>,
    now: &Timestamp,
    res: Vec<ApiToken>,
)
    requires
        call_ensures(list_api_tokens_at, (tokens, now), res),
    ensures
        res@ == tokens@.filter(
            |t: ApiToken| t.expires_at matches Some(at) ==> at.later_than(*now),
        ),
{
    let active = |t: ApiToken| token_active(t.expires_at, *now);
    let unexpired = |t: ApiToken| t.expires_at matches Some(at) ==> at.later_than(*now);
    assert(active =~= unexpired);
}

/// A request without a readable token is unauthorized.
pub proof fn law_unreadable_tokens(header: Option<&str>, res: Result<String, AppError>)
    requires
        call_ensures(extract_bearer_token, (header,), res),
    ensures
        header is None ==> res == Err::<String, AppError>(AppError::Unauthorized),
        header matches Some(value) ==> match res {
            Ok(token) => value@ == "Bearer "@ + token@,
            Err(e) => e == AppError::<String>::Unauthorized && !text::occurs_at(
                value@,
                "Bearer "@,
                0,
            ),
        },
{
    if let Some(value) = header {
        if let Some(token) = bearer_token(Some(value@)) {
            law_bearer_headers(value@, token);
        }
    }
}

/// Logging out takes a session. It drops the cache entries of all the user's
/// sessions, in order; an API token is refused.
pub proof fn law_logging_out(
    id: Uuid,
    sessions: &Vec<Uuid>,
    by_session: Result<Vec<String>, AppError>,
    by_token: Result<Vec<String>, AppError>,
)
    requires
        call_ensures(logout, (Credential::Session(id), sessions), by_session),
        call_ensures(logout, (Credential::ApiToken(id), sessions), by_token),
    ensures
        by_session matches Ok(keys) && keys@.len() == sessions@.len() && forall|i: int|
            0 <= i < sessions@.len() ==> (#[trigger] keys@[i])@ == "session:"@ + ids::hyphenated(
                sessions@[i],
            ),
        by_token matches Err(e) && e.deep_view() == AppError::<Seq<char>>::Unauthorized,
{
    let keys = by_session->Ok_0;
    let wanted = sessions@.map_values(|s: Uuid| session_cache_key(s));
    assert(keys.deep_view() == wanted);
    assert(keys.deep_view().len() == keys@.len());
    assert forall|i: int| 0 <= i < sessions@.len() implies (#[trigger] keys@[i])@ == "session:"@
        + ids::hyphenated(sessions@[i]) by {
        assert(keys.deep_view()[i] == keys@[i]@);
        assert(wanted[i] == session_cache_key(sessions@[i]));
    }
}

/// A public page looks at sessions only. Its viewer is whoever was authenticated;
/// an API token, no token or any failure leaves it without one.
pub proof fn law_public_pages(
    header: Option<&str>,
    step: Option<AuthStep>,
    result: Result<(AuthUser, Credential), AppError>,
    seen: Option<AuthUser>,
)
    requires
        call_ensures(optional_auth, (header,), step),
        call_ensures(viewer, (result,), seen),
    ensures
        header is None ==> step is None,
        header matches Some(value) ==> (bearer_token(Some(value@)) is None ==> step is None),
        header matches Some(value) ==> (bearer_token(Some(value@)) matches Some(token)
            ==> match ids::parsed_uuid(token) {
            Some(id) => step.deep_view() == Some(
                AuthStepView::Session { id, step: session_begin(id) },
            ),
            None => step is None,
        }),
        result matches Ok((user, _)) ==> seen == Some(user),
        result is Err ==> seen is None,
{
}

/// Requests are counted by address, and those forgotten that are a minute old.
pub proof fn law_request_windows(ip: &str, now_ms: i64, key: String, cutoff: i64)
    requires
        call_ensures(rate_limit_key, (ip,), key),
        call_ensures(window_cutoff, (now_ms,), cutoff),
    ensures
        key@ == "rl:"@ + ip@,
        now_ms - 60_000 >= i64::MIN ==> cutoff == now_ms - 60_000,
        now_ms - 60_000 < i64::MIN ==> cutoff == i64::MIN,
{
}

/// A token is issued with the name that was asked for, and only its hash, that of
/// the token itself, is there to be stored.
pub proof fn law_issuing_tokens(
    body: CreateTokenRequest,
    bytes: &Vec<u8>,
    now: &Timestamp,
    res: Result<NewApiToken, AppError>,
)
    requires
        call_ensures(issue_api_token_at, (body, bytes, now), res),
    ensures
        body.expires_days is None ==> res is Ok,
        res matches Ok(token) ==> {
            &&& token.name@ == body.name@
            &&& token.raw@ == ids::hex_text(bytes@)
            &&& token.hash@ == token_hash(token.raw@)
            &&& body.expires_days is None <==> token.expires_at is None
            &&& body.expires_days matches Some(days) ==> token.expires_at->0.total_nanos()
                == now.total_nanos() + days * 86_400_000_000_000
            &&& body.scopes matches Some(scopes) ==> token.scopes.deep_view()
                == scopes.deep_view()
            &&& body.scopes is None ==> token.scopes.deep_view() == seq!["scrobble"@]
        },
{
    law_issued_tokens_are_as_asked_for(body.deep_view(), bytes@, *now);
    if let Ok(token) = res {
        assert(issued(body.deep_view(), bytes@, *now) == Ok::<
            NewApiToken<Seq<char>, Seq<Seq<char>>>,
            AppError<Seq<char>>,
        >(token.deep_view()));
        assert(body.deep_view().scopes is None <==> body.scopes is None);
    }
}

} // verus!
