//! Linking a Spotify account: the OAuth flow as the API runs it.

use crate::accounts::UpsertConnectedAccount;
use crate::errors::AppError;
use crate::ids;
use crate::spotify;
use crate::spotify::{SpotifyError, SpotifyTokens};
use crate::text;
use crate::time;
use crate::time::Timestamp;
use vstd::prelude::*;
use vstd::string::*;

verus! {

/// How long a CSRF `state` value is valid for (s). The user completes Spotify's
/// consent screen well within this window in practice.
pub const OAUTH_STATE_TTL_SECS: i64 = 600;

/// Random bytes in a CSRF `state` value.
pub const STATE_BYTES: usize = 16;

/// The Spotify credentials that are configured.
#[derive(Debug, PartialEq, Eq)]
pub struct SpotifyConfig<S = String> {
    pub client_id: Option<S>,
    pub client_secret: Option<S>,
    pub redirect_uri: Option<S>,
}

impl DeepView for SpotifyConfig {
    type V = SpotifyConfig<Seq<char>>;

    open spec fn deep_view(&self) -> SpotifyConfig<Seq<char>> {
        SpotifyConfig {
            client_id: self.client_id.deep_view(),
            client_secret: self.client_secret.deep_view(),
            redirect_uri: self.redirect_uri.deep_view(),
        }
    }
}

/// A setting that has to be configured.
pub open spec fn configured(value: Option<Seq<char>>, missing: Seq<char>) -> Result<
    Seq<char>,
    AppError<Seq<char>>,
> {
    match value {
        Some(value) => Ok(value),
        None => Err(AppError::Internal(missing)),
    }
}

fn require_setting(value: &Option<String>, missing: &str) -> (res: Result<String, AppError>)
    ensures
        text::result_view(res) == configured(value.deep_view(), missing@),
{
    match value {
        Some(value) => Ok(value.clone()),
        None => Err(AppError::Internal(missing.to_owned())),
    }
}

/// Whether a provider can be linked.
pub open spec fn provider_check(provider: Seq<char>) -> Result<(), AppError<Seq<char>>> {
    if provider == "spotify"@ {
        Ok(())
    } else {
        Err(AppError::BadRequest("unsupported provider: "@ + provider))
    }
}

/// Only "spotify" is supported today: Deezer's public API has no authenticated
/// now-playing or recently-played endpoint, so there is nothing for a poller
/// to call.
pub fn ensure_supported_provider(provider: &str) -> (res: Result<(), AppError>)
    ensures
        text::result_view(res) == provider_check(provider@),
{
    if provider.eq("spotify") {
        Ok(())
    } else {
        Err(AppError::BadRequest(text::join2("unsupported provider: ", provider)))
    }
}

// ---------------------------------------------------------------------------
// GET /v1/connect/{provider}
// ---------------------------------------------------------------------------

#[derive(Debug, PartialEq, Eq)]
pub struct AuthorizeResponse<S = String> {
    pub authorize_url: S,
}

/// An OAuth flow that begins: the Redis entry that remembers who started it,
/// and where the user is sent.
#[derive(Debug, PartialEq, Eq)]
pub struct OauthStart<S = String> {
    pub redis_key: S,
    pub redis_value: S,
    pub ttl_secs: i64,
    pub response: AuthorizeResponse<S>,
}

impl DeepView for AuthorizeResponse {
    type V = AuthorizeResponse<Seq<char>>;

    open spec fn deep_view(&self) -> AuthorizeResponse<Seq<char>> {
        AuthorizeResponse { authorize_url: self.authorize_url@ }
    }
}

impl DeepView for OauthStart {
    type V = OauthStart<Seq<char>>;

    open spec fn deep_view(&self) -> OauthStart<Seq<char>> {
        OauthStart {
            redis_key: self.redis_key@,
            redis_value: self.redis_value@,
            ttl_secs: self.ttl_secs,
            response: self.response.deep_view(),
        }
    }
}

/// The Redis key of a CSRF `state` value.
pub open spec fn state_key(csrf_state: Seq<char>) -> Seq<char> {
    "oauth_state:spotify:"@ + csrf_state
}

/// The flow that begins with a given CSRF `state` value.
pub open spec fn oauth_start(
    user_id: i64,
    provider: Seq<char>,
    config: SpotifyConfig<Seq<char>>,
    csrf_state: Seq<char>,
) -> Result<OauthStart<Seq<char>>, AppError<Seq<char>>> {
    match (
        provider_check(provider),
        configured(config.client_id, "SPOTIFY_CLIENT_ID is not configured"@),
        configured(config.redirect_uri, "SPOTIFY_REDIRECT_URI is not configured"@),
    ) {
        (Err(e), _, _) => Err(e),
        (Ok(()), Err(e), _) => Err(e),
        (Ok(()), Ok(_), Err(e)) => Err(e),
        (Ok(()), Ok(client_id), Ok(redirect_uri)) => Ok(
            OauthStart {
                redis_key: state_key(csrf_state),
                redis_value: text::decimal(user_id as int),
                ttl_secs: OAUTH_STATE_TTL_SECS,
                response: AuthorizeResponse {
                    authorize_url: "https://accounts.spotify.com/authorize"@ + "?"@
                        + spotify::form_query(
                        spotify::authorize_params(client_id, redirect_uri, csrf_state),
                    ),
                },
            },
        ),
    }
}

/// Begins the flow with a CSRF `state` value made of the given random bytes.
pub fn connect_provider_with(
    user_id: i64,
    provider: &str,
    config: &SpotifyConfig,
    bytes: &Vec<u8>,
) -> (res: Result<OauthStart, AppError>)
    ensures
        text::result_view(res) == oauth_start(
            user_id,
            provider@,
            config.deep_view(),
            ids::hex_text(bytes@),
        ),
{
    if let Err(e) = ensure_supported_provider(provider) {
        return Err(e);
    }
    let client_id = match require_setting(
        &config.client_id,
        "SPOTIFY_CLIENT_ID is not configured",
    ) {
        Ok(value) => value,
        Err(e) => return Err(e),
    };
    let redirect_uri = match require_setting(
        &config.redirect_uri,
        "SPOTIFY_REDIRECT_URI is not configured",
    ) {
        Ok(value) => value,
        Err(e) => return Err(e),
    };
    // Random single-use CSRF token, mapped to this user so the callback (which
    // Spotify calls with no session) knows who to link the account to.
    let csrf_state = ids::hex_encode(bytes);
    let authorize_url = spotify::build_authorize_url(
        client_id.as_str(),
        redirect_uri.as_str(),
        csrf_state.as_str(),
    );
    Ok(
        OauthStart {
            redis_key: text::join2("oauth_state:spotify:", csrf_state.as_str()),
            redis_value: text::i64_to_text(user_id),
            ttl_secs: OAUTH_STATE_TTL_SECS,
            response: AuthorizeResponse { authorize_url },
        },
    )
}

/// `GET /v1/connect/{provider}`: begins the flow with a random CSRF `state`
/// value.
pub fn connect_provider(user_id: i64, provider: &str, config: &SpotifyConfig) -> (res: Result<
    OauthStart,
    AppError,
>)
    ensures
        exists|bytes: Seq<u8>|
            bytes.len() == STATE_BYTES && text::result_view(res) == oauth_start(
                user_id,
                provider@,
                config.deep_view(),
                #[trigger] ids::hex_text(bytes),
            ),
{
    let bytes = ids::random_bytes(STATE_BYTES);
    connect_provider_with(user_id, provider, config, &bytes)
}

// ---------------------------------------------------------------------------
// GET /v1/connect/spotify/callback
// ---------------------------------------------------------------------------

#[derive(Debug, PartialEq, Eq)]
pub struct SpotifyCallbackQuery<S = String> {
    pub code: Option<S>,
    pub state: Option<S>,
    pub error: Option<S>,
}

impl DeepView for SpotifyCallbackQuery {
    type V = SpotifyCallbackQuery<Seq<char>>;

    open spec fn deep_view(&self) -> SpotifyCallbackQuery<Seq<char>> {
        SpotifyCallbackQuery {
            code: self.code.deep_view(),
            state: self.state.deep_view(),
            error: self.error.deep_view(),
        }
    }
}

#[derive(Debug, PartialEq, Eq)]
pub struct ConnectResult<S = String> {
    pub provider: S,
    pub connected: bool,
}

impl DeepView for ConnectResult {
    type V = ConnectResult<Seq<char>>;

    open spec fn deep_view(&self) -> ConnectResult<Seq<char>> {
        ConnectResult { provider: self.provider@, connected: self.connected }
    }
}

/// Where the answer to the callback stands.
#[derive(Debug, PartialEq, Eq)]
#[allow(inconsistent_fields)]
pub enum CallbackStep<S = String> {
    /// Read who started the flow.
    GetState { key: S, code: S },
    /// Remove the entry, so that the same state can't be replayed.
    DeleteState { key: S, code: S, user_id: i64 },
    /// Exchange the code for tokens.
    Exchange { user_id: i64, code: S, client_id: S, client_secret: S, redirect_uri: S },
    /// Ask whose account it is.
    Identify { user_id: i64, tokens: SpotifyTokens<S> },
    /// Link the account.
    Upsert { account: UpsertConnectedAccount<S> },
    /// The response (200), or why not.
    Done { result: Result<ConnectResult<S>, AppError<S>> },
}

#[derive(Debug, PartialEq, Eq)]
pub enum CallbackReply<S = String> {
    State(Result<Option<S>, S>),
    Deleted(Result<(), S>),
    Tokens(Result<SpotifyTokens<S>, SpotifyError<S>>),
    Identity(Result<S, SpotifyError<S>>),
    Linked(Result<(), S>),
}

impl DeepView for CallbackStep {
    type V = CallbackStep<Seq<char>>;

    open spec fn deep_view(&self) -> CallbackStep<Seq<char>> {
        match *self {
            CallbackStep::GetState { key, code } => CallbackStep::GetState {
                key: key@,
                code: code@,
            },
            CallbackStep::DeleteState { key, code, user_id } => CallbackStep::DeleteState {
                key: key@,
                code: code@,
                user_id,
            },
            CallbackStep::Exchange { user_id, code, client_id, client_secret, redirect_uri } => {
                CallbackStep::Exchange {
                    user_id,
                    code: code@,
                    client_id: client_id@,
                    client_secret: client_secret@,
                    redirect_uri: redirect_uri@,
                }
            },
            CallbackStep::Identify { user_id, tokens } => CallbackStep::Identify {
                user_id,
                tokens: tokens.deep_view(),
            },
            CallbackStep::Upsert { account } => CallbackStep::Upsert {
                account: account.deep_view(),
            },
            CallbackStep::Done { result } => CallbackStep::Done {
                result: text::result_view(result),
            },
        }
    }
}

impl DeepView for CallbackReply {
    type V = CallbackReply<Seq<char>>;

    open spec fn deep_view(&self) -> CallbackReply<Seq<char>> {
        match *self {
            CallbackReply::State(r) => CallbackReply::State(text::result_view(r)),
            CallbackReply::Deleted(r) => CallbackReply::Deleted(text::result_view(r)),
            CallbackReply::Tokens(r) => CallbackReply::Tokens(text::result_view(r)),
            CallbackReply::Identity(r) => CallbackReply::Identity(text::result_view(r)),
            CallbackReply::Linked(r) => CallbackReply::Linked(text::result_view(r)),
        }
    }
}

/// How the answer to the callback begins.
pub open spec fn callback_begin(q: SpotifyCallbackQuery<Seq<char>>) -> CallbackStep<Seq<char>> {
    match (q.error, q.code, q.state) {
        (Some(error), _, _) => CallbackStep::Done {
            result: Err(AppError::BadRequest("spotify authorization denied: "@ + error)),
        },
        (None, None, _) => CallbackStep::Done { result: Err(AppError::BadRequest("missing code"@)) },
        (None, Some(_), None) => CallbackStep::Done {
            result: Err(AppError::BadRequest("missing state"@)),
        },
        (None, Some(code), Some(state)) => CallbackStep::GetState { key: state_key(state), code },
    }
}

/// Who started the flow, by the Redis entry.
pub open spec fn started_by(entry: Option<Seq<char>>) -> Result<i64, AppError<Seq<char>>> {
    match entry {
        None => Err(AppError::BadRequest("invalid or expired oauth state"@)),
        Some(value) => match text::parsed_i64(value) {
            Some(user_id) => Ok(user_id),
            None => Err(AppError::Internal("corrupt oauth state value in redis"@)),
        },
    }
}

/// The exchange of the code, if everything it takes is configured.
pub open spec fn exchange_step(
    config: SpotifyConfig<Seq<char>>,
    user_id: i64,
    code: Seq<char>,
) -> CallbackStep<Seq<char>> {
    match (
        configured(config.client_id, "SPOTIFY_CLIENT_ID is not configured"@),
        configured(config.client_secret, "SPOTIFY_CLIENT_SECRET is not configured"@),
        configured(config.redirect_uri, "SPOTIFY_REDIRECT_URI is not configured"@),
    ) {
        (Err(e), _, _) => CallbackStep::Done { result: Err(e) },
        (Ok(_), Err(e), _) => CallbackStep::Done { result: Err(e) },
        (Ok(_), Ok(_), Err(e)) => CallbackStep::Done { result: Err(e) },
        (Ok(client_id), Ok(client_secret), Ok(redirect_uri)) => CallbackStep::Exchange {
            user_id,
            code,
            client_id,
            client_secret,
            redirect_uri,
        },
    }
}

/// The API error for a failed exchange of the code.
pub open spec fn exchange_error(e: SpotifyError<Seq<char>>) -> AppError<Seq<char>> {
    match e {
        SpotifyError::Http(error) => AppError::Internal(error),
        _ => AppError::BadRequest(
            "spotify token exchange failed: "@ + spotify::spotify_message(e),
        ),
    }
}

/// The account that is linked.
pub open spec fn linked_account(
    user_id: i64,
    provider_user_id: Seq<char>,
    tokens: SpotifyTokens<Seq<char>>,
    expires_at: Timestamp,
) -> UpsertConnectedAccount<Seq<char>> {
    UpsertConnectedAccount {
        user_id,
        provider: "spotify"@,
        provider_user_id,
        access_token: tokens.access_token,
        refresh_token: tokens.refresh_token,
        token_type: tokens.token_type,
        scope: Some(tokens.scope),
        expires_at: Some(expires_at),
    }
}

/// One step of the answer to the callback, when the clock shows `now`.
pub open spec fn callback_next(
    config: SpotifyConfig<Seq<char>>,
    step: CallbackStep<Seq<char>>,
    reply: CallbackReply<Seq<char>>,
    now: Timestamp,
) -> CallbackStep<Seq<char>> {
    match (step, reply) {
        (CallbackStep::GetState { key, code }, CallbackReply::State(r)) => match r {
            Ok(entry) => match started_by(entry) {
                Ok(user_id) => CallbackStep::DeleteState { key, code, user_id },
                Err(e) => CallbackStep::Done { result: Err(e) },
            },
            Err(error) => CallbackStep::Done { result: Err(AppError::Redis(error)) },
        },
        (CallbackStep::DeleteState { code, user_id, .. }, CallbackReply::Deleted(r)) => match r {
            Ok(()) => exchange_step(config, user_id, code),
            Err(error) => CallbackStep::Done { result: Err(AppError::Redis(error)) },
        },
        (CallbackStep::Exchange { user_id, .. }, CallbackReply::Tokens(r)) => match r {
            Ok(tokens) => CallbackStep::Identify { user_id, tokens },
            Err(e) => CallbackStep::Done { result: Err(exchange_error(e)) },
        },
        (CallbackStep::Identify { user_id, tokens }, CallbackReply::Identity(r)) => match r {
            Ok(provider_user_id) => match time::shifted(now, tokens.expires_in * 1000) {
                Some(expires_at) => CallbackStep::Upsert {
                    account: linked_account(user_id, provider_user_id, tokens, expires_at),
                },
                None => CallbackStep::Done {
                    result: Err(AppError::Internal("expiry is out of range"@)),
                },
            },
            Err(e) => CallbackStep::Done {
                result: Err(AppError::Internal(spotify::spotify_message(e))),
            },
        },
        (CallbackStep::Upsert { .. }, CallbackReply::Linked(r)) => match r {
            Ok(()) => CallbackStep::Done {
                result: Ok(ConnectResult { provider: "spotify"@, connected: true }),
            },
            Err(error) => CallbackStep::Done { result: Err(AppError::Database(error)) },
        },
        _ => step,
    }
}

/// Begins to answer `GET /v1/connect/spotify/callback`. [`advance_callback`]
/// carries it on.
///
/// Public route: Spotify redirects the user's browser here with no session
/// attached, so the `state` CSRF token (stored by [`connect_provider`], keyed
/// to the user who started the flow) is what identifies which account to link.
pub fn spotify_callback(q: SpotifyCallbackQuery) -> (res: CallbackStep)
    ensures
        res.deep_view() == callback_begin(q.deep_view()),
{
    if let Some(error) = q.error {
        return CallbackStep::Done {
            result: Err(
                AppError::BadRequest(
                    text::join2("spotify authorization denied: ", error.as_str()),
                ),
            ),
        };
    }
    let code = match q.code {
        Some(code) => code,
        None => return CallbackStep::Done {
            result: Err(AppError::BadRequest("missing code".to_owned())),
        },
    };
    let state = match q.state {
        Some(state) => state,
        None => return CallbackStep::Done {
            result: Err(AppError::BadRequest("missing state".to_owned())),
        },
    };
    CallbackStep::GetState { key: text::join2("oauth_state:spotify:", state.as_str()), code }
}

fn read_starter(entry: &Option<String>) -> (res: Result<i64, AppError>)
    ensures
        text::result_view(res) == started_by(entry.deep_view()),
{
    match entry {
        None => Err(AppError::BadRequest("invalid or expired oauth state".to_owned())),
        Some(value) => match text::parse_i64(value.as_str()) {
            Some(user_id) => Ok(user_id),
            None => Err(AppError::Internal("corrupt oauth state value in redis".to_owned())),
        },
    }
}

fn begin_exchange(config: &SpotifyConfig, user_id: i64, code: String) -> (res: CallbackStep)
    ensures
        res.deep_view() == exchange_step(config.deep_view(), user_id, code@),
{
    let client_id = match require_setting(
        &config.client_id,
        "SPOTIFY_CLIENT_ID is not configured",
    ) {
        Ok(value) => value,
        Err(e) => return CallbackStep::Done { result: Err(e) },
    };
    let client_secret = match require_setting(
        &config.client_secret,
        "SPOTIFY_CLIENT_SECRET is not configured",
    ) {
        Ok(value) => value,
        Err(e) => return CallbackStep::Done { result: Err(e) },
    };
    let redirect_uri = match require_setting(
        &config.redirect_uri,
        "SPOTIFY_REDIRECT_URI is not configured",
    ) {
        Ok(value) => value,
        Err(e) => return CallbackStep::Done { result: Err(e) },
    };
    CallbackStep::Exchange { user_id, code, client_id, client_secret, redirect_uri }
}

fn describe_exchange_error(e: SpotifyError) -> (res: AppError)
    ensures
        res.deep_view() == exchange_error(e.deep_view()),
{
    match e {
        SpotifyError::Http(error) => AppError::Internal(error),
        other => AppError::BadRequest(
            text::join2("spotify token exchange failed: ", other.message().as_str()),
        ),
    }
}

/// Takes the answer to the open question when the clock shows `now`.
pub fn advance_callback_at(
    config: &SpotifyConfig,
    step: CallbackStep,
    reply: CallbackReply,
    now: &Timestamp,
) -> (res: CallbackStep)
    requires
        now.wf(),
        now.plain(),
    ensures
        res.deep_view() == callback_next(
            config.deep_view(),
            step.deep_view(),
            reply.deep_view(),
            *now,
        ),
{
    match (step, reply) {
        (CallbackStep::GetState { key, code }, CallbackReply::State(r)) => match r {
            Ok(entry) => match read_starter(&entry) {
                Ok(user_id) => CallbackStep::DeleteState { key, code, user_id },
                Err(e) => CallbackStep::Done { result: Err(e) },
            },
            Err(error) => CallbackStep::Done { result: Err(AppError::Redis(error)) },
        },
        (CallbackStep::DeleteState { code, user_id, .. }, CallbackReply::Deleted(r)) => match r {
            Ok(()) => begin_exchange(config, user_id, code),
            Err(error) => CallbackStep::Done { result: Err(AppError::Redis(error)) },
        },
        (CallbackStep::Exchange { user_id, .. }, CallbackReply::Tokens(r)) => match r {
            Ok(tokens) => CallbackStep::Identify { user_id, tokens },
            Err(e) => CallbackStep::Done { result: Err(describe_exchange_error(e)) },
        },
        (CallbackStep::Identify { user_id, tokens }, CallbackReply::Identity(r)) => match r {
            Ok(provider_user_id) => match time::shift_units(now, tokens.expires_in, 1000) {
                Some(expires_at) => CallbackStep::Upsert {
                    account: UpsertConnectedAccount {
                        user_id,
                        provider: "spotify".to_owned(),
                        provider_user_id,
                        access_token: tokens.access_token,
                        refresh_token: tokens.refresh_token,
                        token_type: tokens.token_type,
                        scope: Some(tokens.scope),
                        expires_at: Some(expires_at),
                    },
                },
                None => CallbackStep::Done {
                    result: Err(AppError::Internal("expiry is out of range".to_owned())),
                },
            },
            Err(e) => CallbackStep::Done { result: Err(AppError::Internal(e.message())) },
        },
        (CallbackStep::Upsert { .. }, CallbackReply::Linked(r)) => match r {
            Ok(()) => CallbackStep::Done {
                result: Ok(ConnectResult { provider: "spotify".to_owned(), connected: true }),
            },
            Err(error) => CallbackStep::Done { result: Err(AppError::Database(error)) },
        },
        (step, _) => step,
    }
}

/// Takes the answer to the open question of the callback.
pub fn advance_callback(config: &SpotifyConfig, step: CallbackStep, reply: CallbackReply) -> (res:
    CallbackStep)
    ensures
        exists|now: Timestamp|
            now.wf() && now.plain() && now.secs >= 0 && res.deep_view()
                == #[trigger] callback_next(
                config.deep_view(),
                step.deep_view(),
                reply.deep_view(),
                now,
            ),
{
    let now = time::now();
    advance_callback_at(config, step, reply, &now)
}

/// The request that answers the question which is open in `step`, where it is one
/// for Spotify.
pub open spec fn callback_asks(step: CallbackStep<Seq<char>>) -> Option<
    spotify::SpotifyRequestView,
> {
    match step {
        CallbackStep::Exchange { code, client_id, client_secret, redirect_uri, .. } => Some(
            spotify::SpotifyRequest::Tokens {
                post: spotify::code_exchange(client_id, client_secret, code, redirect_uri),
            },
        ),
        CallbackStep::Identify { tokens, .. } => Some(
            spotify::SpotifyRequest::Api {
                get: spotify::current_user_get(),
                access_token: tokens.access_token,
            },
        ),
        _ => None,
    }
}

/// The request that answers the open question of the callback: the exchange of
/// the code, or whose account the tokens are for.
pub fn callback_request(step: &CallbackStep) -> (res: Option<spotify::SpotifyRequest>)
    ensures
        res.deep_view() == callback_asks(step.deep_view()),
{
    match step {
        CallbackStep::Exchange { code, client_id, client_secret, redirect_uri, .. } => Some(
            spotify::SpotifyRequest::Tokens {
                post: spotify::exchange_code(
                    client_id.as_str(),
                    client_secret.as_str(),
                    code.as_str(),
                    redirect_uri.as_str(),
                ),
            },
        ),
        CallbackStep::Identify { tokens, .. } => Some(
            spotify::SpotifyRequest::Api {
                get: spotify::current_user_request(),
                access_token: tokens.access_token.clone(),
            },
        ),
        _ => None,
    }
}

/// What would answer each question of the callback.
pub struct CallbackAnswers {
    pub state: Result<Option<Seq<char>>, Seq<char>>,
    pub deleted: Result<(), Seq<char>>,
    pub tokens: Result<SpotifyTokens<Seq<char>>, SpotifyError<Seq<char>>>,
    pub identity: Result<Seq<char>, SpotifyError<Seq<char>>>,
    pub linked: Result<(), Seq<char>>,
}

/// The answer to the question that is open in `step`.
pub open spec fn callback_reply(step: CallbackStep<Seq<char>>, a: CallbackAnswers) -> CallbackReply<
    Seq<char>,
> {
    match step {
        CallbackStep::GetState { .. } => CallbackReply::State(a.state),
        CallbackStep::DeleteState { .. } => CallbackReply::Deleted(a.deleted),
        CallbackStep::Exchange { .. } => CallbackReply::Tokens(a.tokens),
        CallbackStep::Identify { .. } => CallbackReply::Identity(a.identity),
        _ => CallbackReply::Linked(a.linked),
    }
}

/// What comes of the callback once the code is to be exchanged. The clock shows
/// `now` when it is known whose account it is.
pub open spec fn exchange_outcome(a: CallbackAnswers, now: Timestamp) -> Result<
    ConnectResult<Seq<char>>,
    AppError<Seq<char>>,
> {
    match (a.tokens, a.identity) {
        (Err(e), _) => Err(exchange_error(e)),
        (Ok(_), Err(e)) => Err(AppError::Internal(spotify::spotify_message(e))),
        (Ok(tokens), Ok(_)) => if time::shifted(now, tokens.expires_in * 1000) is None {
            Err(AppError::Internal("expiry is out of range"@))
        } else {
            match a.linked {
                Ok(()) => Ok(ConnectResult { provider: "spotify"@, connected: true }),
                Err(error) => Err(AppError::Database(error)),
            }
        },
    }
}

/// What comes of the callback, with `now` as for [`exchange_outcome`].
pub open spec fn callback_outcome(
    config: SpotifyConfig<Seq<char>>,
    q: SpotifyCallbackQuery<Seq<char>>,
    a: CallbackAnswers,
    now: Timestamp,
) -> Result<ConnectResult<Seq<char>>, AppError<Seq<char>>> {
    match callback_begin(q) {
        CallbackStep::Done { result } => result,
        _ => match a.state {
            Err(error) => Err(AppError::Redis(error)),
            Ok(entry) => match started_by(entry) {
                Err(e) => Err(e),
                Ok(user_id) => match a.deleted {
                    Err(error) => Err(AppError::Redis(error)),
                    Ok(()) => match exchange_step(config, user_id, q.code.unwrap()) {
                        CallbackStep::Done { result } => result,
                        _ => exchange_outcome(a, now),
                    },
                },
            },
        },
    }
}

/// The state after `n` questions were answered. `now(i)` is what the clock shows
/// at answer number `i`; the first of these answers is number `k`.
pub open spec fn callback_run(
    config: SpotifyConfig<Seq<char>>,
    step: CallbackStep<Seq<char>>,
    a: CallbackAnswers,
    now: spec_fn(nat) -> Timestamp,
    k: nat,
    n: nat,
) -> CallbackStep<Seq<char>>
    decreases n,
{
    if n == 0 {
        step
    } else {
        callback_run(
            config,
            callback_next(config, step, callback_reply(step, a), now(k)),
            a,
            now,
            k + 1,
            (n - 1) as nat,
        )
    }
}

proof fn lemma_callback_settled(
    config: SpotifyConfig<Seq<char>>,
    step: CallbackStep<Seq<char>>,
    a: CallbackAnswers,
    now: spec_fn(nat) -> Timestamp,
    k: nat,
    n: nat,
)
    requires
        step is Done,
    ensures
        callback_run(config, step, a, now, k, n) == step,
    decreases n,
{
    if n > 0 {
        lemma_callback_settled(config, step, a, now, k + 1, (n - 1) as nat);
    }
}

/// Five answers bring every callback to the outcome that they determine, however
/// the clock goes: what counts is what it shows at the answer that says whose
/// account it is.
pub proof fn law_callback(
    config: SpotifyConfig<Seq<char>>,
    q: SpotifyCallbackQuery<Seq<char>>,
    a: CallbackAnswers,
    now: spec_fn(nat) -> Timestamp,
    n: nat,
)
    requires
        n >= 5,
    ensures
        callback_run(config, callback_begin(q), a, now, 0, n) == (CallbackStep::<Seq<char>>::Done {
            result: callback_outcome(config, q, a, now(3)),
        }),
{
    reveal_with_fuel(callback_run, 6);
    let s0 = callback_begin(q);
    let s1 = callback_next(config, s0, callback_reply(s0, a), now(0));
    let s2 = callback_next(config, s1, callback_reply(s1, a), now(1));
    let s3 = callback_next(config, s2, callback_reply(s2, a), now(2));
    let s4 = callback_next(config, s3, callback_reply(s3, a), now(3));
    let s5 = callback_next(config, s4, callback_reply(s4, a), now(4));
    assert(s5 == (CallbackStep::<Seq<char>>::Done {
        result: callback_outcome(config, q, a, now(3)),
    }));
    lemma_callback_settled(config, s5, a, now, 5, (n - 5) as nat);
}

/// The callback finds out who started the flow: the entry that
/// [`connect_provider`] stores is the one that the callback reads, and it names
/// the user.
pub proof fn law_callback_finds_the_user(
    user_id: i64,
    provider: Seq<char>,
    config: SpotifyConfig<Seq<char>>,
    csrf_state: Seq<char>,
    code: Seq<char>,
)
    ensures
        oauth_start(user_id, provider, config, csrf_state) matches Ok(start) ==> {
            &&& callback_begin(
                SpotifyCallbackQuery { code: Some(code), state: Some(csrf_state), error: None },
            ) == (CallbackStep::<Seq<char>>::GetState { key: start.redis_key, code })
            &&& started_by(Some(start.redis_value)) == Ok::<i64, AppError<Seq<char>>>(user_id)
        },
{
    text::law_decimal_reads_back(user_id);
}

/// A state is used once: the code is exchanged only after the entry of its state
/// was removed.
pub proof fn law_state_is_removed_before_the_exchange(
    config: SpotifyConfig<Seq<char>>,
    step: CallbackStep<Seq<char>>,
    reply: CallbackReply<Seq<char>>,
    now: Timestamp,
)
    ensures
        !(step is Exchange) && callback_next(config, step, reply, now) is Exchange ==> {
            &&& step is DeleteState
            &&& (reply matches CallbackReply::Deleted(r) && r is Ok)
        },
{
}

// ---------------------------------------------------------------------------
// DELETE /v1/connect/{provider}
// ---------------------------------------------------------------------------

/// The answer (204) to a request to disconnect the account of a provider that
/// is linked or not. An unsupported provider is refused first.
pub fn disconnect(provider: &str, linked: bool) -> (res: Result<(), AppError>)
    ensures
        text::result_view(res) == (match provider_check(provider@) {
            Err(e) => Err(e),
            Ok(()) => if linked {
                Ok(())
            } else {
                Err(AppError::NotFound)
            },
        }),
{
    match ensure_supported_provider(provider) {
        Err(e) => Err(e),
        Ok(()) => if linked {
            Ok(())
        } else {
            Err(AppError::NotFound)
        },
    }
}

// ---------------------------------------------------------------------------
// Laws
// ---------------------------------------------------------------------------

/// A flow begins exactly when the provider is Spotify and both the client and the
/// address to come back to are configured; what is missing first is told.
pub proof fn law_flows_begin_when_configured(
    user_id: i64,
    provider: Seq<char>,
    config: SpotifyConfig<Seq<char>>,
    csrf_state: Seq<char>,
)
    ensures
        ({
            let start = oauth_start(user_id, provider, config, csrf_state);
            let refused = |e: AppError<Seq<char>>|
                start == Err::<OauthStart<Seq<char>>, AppError<Seq<char>>>(e);
            &&& start is Ok <==> provider == "spotify"@ && config.client_id is Some
                && config.redirect_uri is Some
            &&& provider != "spotify"@ ==> refused(
                AppError::BadRequest("unsupported provider: "@ + provider),
            )
            &&& provider == "spotify"@ && config.client_id is None ==> refused(
                AppError::Internal("SPOTIFY_CLIENT_ID is not configured"@),
            )
            &&& provider == "spotify"@ && config.client_id is Some && config.redirect_uri is None
                ==> refused(AppError::Internal("SPOTIFY_REDIRECT_URI is not configured"@))
        }),
{
}

/// A flow that begins is remembered for ten minutes, under its state, with the
/// user who began it; and the user is sent to Spotify with our client, that state
/// and the address to come back to, to grant that plays may be read.
pub proof fn law_a_flow_is_remembered_and_sent_off(
    user_id: i64,
    provider: Seq<char>,
    config: SpotifyConfig<Seq<char>>,
    csrf_state: Seq<char>,
    client_id: Seq<char>,
    redirect_uri: Seq<char>,
)
    requires
        config.client_id == Some(client_id),
        config.redirect_uri == Some(redirect_uri),
    ensures
        oauth_start(user_id, provider, config, csrf_state) matches Ok(start) ==> {
            &&& start.redis_key == "oauth_state:spotify:"@ + csrf_state
            &&& start.redis_value == text::decimal(user_id as int)
            &&& start.ttl_secs == 600
            &&& start.response.authorize_url == "https://accounts.spotify.com/authorize"@ + "?"@
                + spotify::form_query(
                seq![
                    ("client_id"@, client_id),
                    ("response_type"@, "code"@),
                    ("redirect_uri"@, redirect_uri),
                    ("scope"@, "user-read-recently-played user-read-currently-playing"@),
                    ("state"@, csrf_state),
                ],
            )
        },
        STATE_BYTES == 16,
{
}

/// The callback goes on exactly when the user agreed and both the code and the
/// state came back; else it is told what went wrong.
pub proof fn law_callbacks_need_a_code_and_a_state(q: SpotifyCallbackQuery<Seq<char>>)
    ensures
        ({
            let refused = |fault: Seq<char>|
                callback_begin(q) == (CallbackStep::<Seq<char>>::Done {
                    result: Err(AppError::BadRequest(fault)),
                });
            &&& q.error matches Some(error) ==> refused("spotify authorization denied: "@ + error)
            &&& q.error is None && q.code is None ==> refused("missing code"@)
            &&& q.error is None && q.code is Some && q.state is None ==> refused("missing state"@)
            &&& q.error is None && q.code is Some && q.state is Some ==> callback_begin(q) == (
            CallbackStep::<Seq<char>>::GetState {
                key: "oauth_state:spotify:"@ + q.state->0,
                code: q.code->0,
            })
        }),
{
}

/// A state that nobody began with, or that ran out, is refused.
pub proof fn law_unknown_states_are_refused(value: Seq<char>)
    ensures
        started_by(None) == Err::<i64, AppError<Seq<char>>>(
            AppError::BadRequest("invalid or expired oauth state"@),
        ),
        text::parsed_i64(value) is None ==> started_by(Some(value)) == Err::<
            i64,
            AppError<Seq<char>>,
        >(AppError::Internal("corrupt oauth state value in redis"@)),
        text::parsed_i64(value) matches Some(user_id) ==> started_by(Some(value)) == Ok::<
            i64,
            AppError<Seq<char>>,
        >(user_id),
{
}

/// The code that came back is the one that is exchanged, for the user who began
/// the flow and with the client that is configured.
pub proof fn law_the_code_is_exchanged_for_its_user(
    config: SpotifyConfig<Seq<char>>,
    key: Seq<char>,
    code: Seq<char>,
    user_id: i64,
    client_id: Seq<char>,
    client_secret: Seq<char>,
    redirect_uri: Seq<char>,
    error: Seq<char>,
    now: Timestamp,
)
    requires
        config.client_id == Some(client_id),
        config.client_secret == Some(client_secret),
        config.redirect_uri == Some(redirect_uri),
    ensures
        callback_next(
            config,
            CallbackStep::GetState { key, code },
            CallbackReply::State(Ok(Some(text::decimal(user_id as int)))),
            now,
        ) == (CallbackStep::<Seq<char>>::DeleteState { key, code, user_id }),
        callback_next(
            config,
            CallbackStep::DeleteState { key, code, user_id },
            CallbackReply::Deleted(Ok(())),
            now,
        ) == (CallbackStep::<Seq<char>>::Exchange {
            user_id,
            code,
            client_id,
            client_secret,
            redirect_uri,
        }),
        callback_next(
            config,
            CallbackStep::GetState { key, code },
            CallbackReply::State(Err(error)),
            now,
        ) == (CallbackStep::<Seq<char>>::Done { result: Err(AppError::Redis(error)) }),
        callback_next(
            config,
            CallbackStep::DeleteState { key, code, user_id },
            CallbackReply::Deleted(Err(error)),
            now,
        ) == (CallbackStep::<Seq<char>>::Done { result: Err(AppError::Redis(error)) }),
{
    text::law_decimal_reads_back(user_id);
}

/// What the exchange lacks is told: first the client, then its secret, then the
/// address to come back to.
pub proof fn law_missing_settings_are_told(
    config: SpotifyConfig<Seq<char>>,
    user_id: i64,
    code: Seq<char>,
)
    ensures
        ({
            let refused = |what: Seq<char>|
                exchange_step(config, user_id, code) == (CallbackStep::<Seq<char>>::Done {
                    result: Err(AppError::Internal(what)),
                });
            &&& config.client_id is None ==> refused("SPOTIFY_CLIENT_ID is not configured"@)
            &&& config.client_id is Some && config.client_secret is None ==> refused(
                "SPOTIFY_CLIENT_SECRET is not configured"@,
            )
            &&& config.client_id is Some && config.client_secret is Some
                && config.redirect_uri is None ==> refused(
                "SPOTIFY_REDIRECT_URI is not configured"@,
            )
        }),
{
}

/// What is linked is the account that Spotify says the tokens are for, to the user
/// who began the flow, with those tokens and an expiry as many seconds from now as
/// was granted.
pub proof fn law_the_identified_account_is_linked(
    config: SpotifyConfig<Seq<char>>,
    user_id: i64,
    tokens: SpotifyTokens<Seq<char>>,
    provider_user_id: Seq<char>,
    now: Timestamp,
)
    ensures
        ({
            let expiry = now.total_nanos() + tokens.expires_in * 1_000_000_000;
            let next = callback_next(
                config,
                CallbackStep::Identify { user_id, tokens },
                CallbackReply::Identity(Ok(provider_user_id)),
                now,
            );
            &&& next is Upsert <==> time::MIN_SECS * 1_000_000_000 <= expiry < (time::MAX_SECS + 1)
                * 1_000_000_000
            &&& next matches CallbackStep::Upsert { account } ==> {
                &&& account.user_id == user_id
                &&& account.provider == "spotify"@
                &&& account.provider_user_id == provider_user_id
                &&& account.access_token == tokens.access_token
                &&& account.refresh_token == tokens.refresh_token
                &&& account.token_type == tokens.token_type
                &&& account.scope == Some(tokens.scope)
                &&& account.expires_at matches Some(at) && at.total_nanos() == expiry
            }
        }),
{
    time::law_shifts_are_exact(now, tokens.expires_in * 1000);
}

/// The tokens of the exchange are the ones whose account is asked for; an account
/// that was linked is reported as connected. A failure on the way is reported as
/// what it is.
pub proof fn law_the_rest_of_the_callback(
    config: SpotifyConfig<Seq<char>>,
    exchange: CallbackStep<Seq<char>>,
    user_id: i64,
    tokens: SpotifyTokens<Seq<char>>,
    account: UpsertConnectedAccount<Seq<char>>,
    e: SpotifyError<Seq<char>>,
    error: Seq<char>,
    now: Timestamp,
)
    requires
        exchange is Exchange,
        exchange->Exchange_user_id == user_id,
    ensures
        callback_next(config, exchange, CallbackReply::Tokens(Ok(tokens)), now) == (CallbackStep::<
            Seq<char>,
        >::Identify { user_id, tokens }),
        callback_next(config, exchange, CallbackReply::Tokens(Err(e)), now) == (CallbackStep::<
            Seq<char>,
        >::Done {
            result: Err(
                match e {
                    SpotifyError::Http(message) => AppError::Internal(message),
                    _ => AppError::BadRequest(
                        "spotify token exchange failed: "@ + spotify::spotify_message(e),
                    ),
                },
            ),
        }),
        callback_next(
            config,
            CallbackStep::Identify { user_id, tokens },
            CallbackReply::Identity(Err(e)),
            now,
        ) == (CallbackStep::<Seq<char>>::Done {
            result: Err(AppError::Internal(spotify::spotify_message(e))),
        }),
        callback_next(
            config,
            CallbackStep::Upsert { account },
            CallbackReply::Linked(Ok(())),
            now,
        ) == (CallbackStep::<Seq<char>>::Done {
            result: Ok(ConnectResult { provider: "spotify"@, connected: true }),
        }),
        callback_next(
            config,
            CallbackStep::Upsert { account },
            CallbackReply::Linked(Err(error)),
            now,
        ) == (CallbackStep::<Seq<char>>::Done { result: Err(AppError::Database(error)) }),
{
}

/// The code is exchanged as the client that is configured, and whose account the
/// tokens are for is asked under their access token; nothing else is asked of
/// Spotify.
pub proof fn law_what_the_callback_asks_of_spotify(
    user_id: i64,
    code: Seq<char>,
    client_id: Seq<char>,
    client_secret: Seq<char>,
    redirect_uri: Seq<char>,
    tokens: SpotifyTokens<Seq<char>>,
    step: CallbackStep<Seq<char>>,
)
    ensures
        callback_asks(
            CallbackStep::Exchange { user_id, code, client_id, client_secret, redirect_uri },
        ) == Some(
            spotify::SpotifyRequestView::Tokens {
                post: spotify::FormPost {
                    url: "https://accounts.spotify.com/api/token"@,
                    user: client_id,
                    password: client_secret,
                    form: seq![
                        ("grant_type"@, "authorization_code"@),
                        ("code"@, code),
                        ("redirect_uri"@, redirect_uri),
                    ],
                },
            },
        ),
        callback_asks(CallbackStep::Identify { user_id, tokens }) == Some(
            spotify::SpotifyRequestView::Api {
                get: crate::providers::HttpGet {
                    url: "https://api.spotify.com/v1/me"@,
                    query: Seq::empty(),
                },
                access_token: tokens.access_token,
            },
        ),
        !(step is Exchange) && !(step is Identify) ==> callback_asks(step) is None,
{
}

/// An account is disconnected where it is of Spotify and was linked.
pub proof fn law_disconnecting(provider: &str, linked: bool, res: Result<(), AppError>)
    requires
        call_ensures(disconnect, (provider, linked), res),
    ensures
        res is Ok <==> provider@ == "spotify"@ && linked,
        provider@ != "spotify"@ ==> (res matches Err(e) && e.deep_view() == AppError::<
            Seq<char>,
        >::BadRequest("unsupported provider: "@ + provider@)),
        provider@ == "spotify"@ && !linked ==> (res matches Err(e) && e is NotFound),
{
}

/// A callback whose state is not ours, or whose tokens do not expire within time,
/// ends there.
pub proof fn law_callbacks_that_end_early(
    config: SpotifyConfig<Seq<char>>,
    key: Seq<char>,
    code: Seq<char>,
    user_id: i64,
    tokens: SpotifyTokens<Seq<char>>,
    provider_user_id: Seq<char>,
    now: Timestamp,
)
    ensures
        callback_next(
            config,
            CallbackStep::GetState { key, code },
            CallbackReply::State(Ok(None)),
            now,
        ) == (CallbackStep::<Seq<char>>::Done {
            result: Err(AppError::BadRequest("invalid or expired oauth state"@)),
        }),
        ({
            let next = callback_next(
                config,
                CallbackStep::Identify { user_id, tokens },
                CallbackReply::Identity(Ok(provider_user_id)),
                now,
            );
            next is Upsert || next == (CallbackStep::<Seq<char>>::Done {
                result: Err(AppError::Internal("expiry is out of range"@)),
            })
        }),
{
}

} // verus!
