//! Connected third-party accounts: their rows, and refreshing their tokens.

use crate::spotify;
use crate::spotify::{SpotifyError, SpotifyTokens};
use crate::text;
use crate::time;
use crate::time::Timestamp;
use vstd::prelude::*;
use vstd::string::*;

verus! {

/// A third-party account that a user has linked.
#[derive(Debug, PartialEq, Eq)]
pub struct ConnectedAccount<S = String> {
    pub id: i64,
    pub user_id: i64,
    pub provider: S,
    pub provider_user_id: S,
    pub access_token: S,
    pub refresh_token: Option<S>,
    pub token_type: S,
    pub scope: Option<S>,
    pub expires_at: Option<Timestamp>,
    pub last_polled_at: Option<Timestamp>,
    pub last_error: Option<S>,
    pub is_active: bool,
    pub created_at: Timestamp,
    pub updated_at: Timestamp,
}

impl DeepView for ConnectedAccount {
    type V = ConnectedAccount<Seq<char>>;

    open spec fn deep_view(&self) -> ConnectedAccount<Seq<char>> {
        ConnectedAccount {
            id: self.id,
            user_id: self.user_id,
            provider: self.provider@,
            provider_user_id: self.provider_user_id@,
            access_token: self.access_token@,
            refresh_token: self.refresh_token.deep_view(),
            token_type: self.token_type@,
            scope: self.scope.deep_view(),
            expires_at: self.expires_at,
            last_polled_at: self.last_polled_at,
            last_error: self.last_error.deep_view(),
            is_active: self.is_active,
            created_at: self.created_at,
            updated_at: self.updated_at,
        }
    }
}

/// A linked account as its user is shown it: everything but its tokens.
#[derive(Debug, PartialEq, Eq)]
pub struct AccountListing<S = String> {
    pub id: i64,
    pub user_id: i64,
    pub provider: S,
    pub provider_user_id: S,
    pub token_type: S,
    pub scope: Option<S>,
    pub expires_at: Option<Timestamp>,
    pub last_polled_at: Option<Timestamp>,
    pub last_error: Option<S>,
    pub is_active: bool,
    pub created_at: Timestamp,
    pub updated_at: Timestamp,
}

impl DeepView for AccountListing {
    type V = AccountListing<Seq<char>>;

    open spec fn deep_view(&self) -> AccountListing<Seq<char>> {
        AccountListing {
            id: self.id,
            user_id: self.user_id,
            provider: self.provider@,
            provider_user_id: self.provider_user_id@,
            token_type: self.token_type@,
            scope: self.scope.deep_view(),
            expires_at: self.expires_at,
            last_polled_at: self.last_polled_at,
            last_error: self.last_error.deep_view(),
            is_active: self.is_active,
            created_at: self.created_at,
            updated_at: self.updated_at,
        }
    }
}

/// What a user is shown of an account that they have linked.
pub open spec fn listing(row: ConnectedAccount<Seq<char>>) -> AccountListing<Seq<char>> {
    AccountListing {
        id: row.id,
        user_id: row.user_id,
        provider: row.provider,
        provider_user_id: row.provider_user_id,
        token_type: row.token_type,
        scope: row.scope,
        expires_at: row.expires_at,
        last_polled_at: row.last_polled_at,
        last_error: row.last_error,
        is_active: row.is_active,
        created_at: row.created_at,
        updated_at: row.updated_at,
    }
}

fn to_listing(row: ConnectedAccount) -> (res: AccountListing)
    ensures
        res.deep_view() == listing(row.deep_view()),
{
    AccountListing {
        id: row.id,
        user_id: row.user_id,
        provider: row.provider,
        provider_user_id: row.provider_user_id,
        token_type: row.token_type,
        scope: row.scope,
        expires_at: row.expires_at,
        last_polled_at: row.last_polled_at,
        last_error: row.last_error,
        is_active: row.is_active,
        created_at: row.created_at,
        updated_at: row.updated_at,
    }
}

/// Lists a user's linked accounts, whose rows are given, never including their
/// tokens.
pub fn list_connected_accounts(rows: Vec<ConnectedAccount>) -> (res: Vec<AccountListing>)
    ensures
        res.deep_view() == rows.deep_view().map_values(
            |row: ConnectedAccount<Seq<char>>| listing(row),
        ),
{
    let mut listed: Vec<AccountListing> = Vec::new();
    for row in it: rows
        invariant
            it.seq() == rows@,
            listed@.len() == it.index(),
            forall|i: int|
                0 <= i < it.index() ==> (#[trigger] listed@[i]).deep_view() == listing(
                    rows@[i].deep_view(),
                ),
    {
        listed.push(to_listing(row));
    }
    listed
}

/// What a user is shown of an account is the same whatever its tokens are.
pub proof fn law_listings_hold_no_token(
    row: ConnectedAccount<Seq<char>>,
    access_token: Seq<char>,
    refresh_token: Option<Seq<char>>,
)
    ensures
        listing(ConnectedAccount { access_token, refresh_token, ..row }) == listing(row),
{
}

/// What linking an account stores.
#[derive(Debug, PartialEq, Eq)]
pub struct UpsertConnectedAccount<S = String> {
    pub user_id: i64,
    pub provider: S,
    pub provider_user_id: S,
    pub access_token: S,
    pub refresh_token: Option<S>,
    pub token_type: S,
    pub scope: Option<S>,
    pub expires_at: Option<Timestamp>,
}

impl DeepView for UpsertConnectedAccount {
    type V = UpsertConnectedAccount<Seq<char>>;

    open spec fn deep_view(&self) -> UpsertConnectedAccount<Seq<char>> {
        UpsertConnectedAccount {
            user_id: self.user_id,
            provider: self.provider@,
            provider_user_id: self.provider_user_id@,
            access_token: self.access_token@,
            refresh_token: self.refresh_token.deep_view(),
            token_type: self.token_type@,
            scope: self.scope.deep_view(),
            expires_at: self.expires_at,
        }
    }
}

/// An account after it was linked again: the tokens are overwritten, the row is
/// active and free of errors.
pub open spec fn relinked(
    row: ConnectedAccount<Seq<char>>,
    input: UpsertConnectedAccount<Seq<char>>,
) -> ConnectedAccount<Seq<char>> {
    ConnectedAccount {
        provider_user_id: input.provider_user_id,
        access_token: input.access_token,
        refresh_token: input.refresh_token,
        token_type: input.token_type,
        scope: input.scope,
        expires_at: input.expires_at,
        is_active: true,
        last_error: None,
        ..row
    }
}

/// An account with refreshed tokens. Where no new refresh token was issued, the
/// old one is kept.
pub open spec fn with_tokens(
    row: ConnectedAccount<Seq<char>>,
    access_token: Seq<char>,
    refresh_token: Option<Seq<char>>,
    expires_at: Option<Timestamp>,
) -> ConnectedAccount<Seq<char>> {
    ConnectedAccount {
        access_token,
        refresh_token: match refresh_token {
            Some(token) => Some(token),
            None => row.refresh_token,
        },
        expires_at,
        ..row
    }
}

/// The row of an account that is linked for the first time: it has what was
/// given, is active, and has met no error and no poll yet. The database gives it
/// its `id` and the time `now`.
pub open spec fn linked(
    id: i64,
    now: Timestamp,
    input: UpsertConnectedAccount<Seq<char>>,
) -> ConnectedAccount<Seq<char>> {
    ConnectedAccount {
        id,
        user_id: input.user_id,
        provider: input.provider,
        provider_user_id: input.provider_user_id,
        access_token: input.access_token,
        refresh_token: input.refresh_token,
        token_type: input.token_type,
        scope: input.scope,
        expires_at: input.expires_at,
        last_polled_at: None,
        last_error: None,
        is_active: true,
        created_at: now,
        updated_at: now,
    }
}

/// Creates the row of an account that is linked for the first time.
pub fn create_connected_account(id: i64, now: Timestamp, input: UpsertConnectedAccount) -> (res:
    ConnectedAccount)
    ensures
        res.deep_view() == linked(id, now, input.deep_view()),
{
    ConnectedAccount {
        id,
        user_id: input.user_id,
        provider: input.provider,
        provider_user_id: input.provider_user_id,
        access_token: input.access_token,
        refresh_token: input.refresh_token,
        token_type: input.token_type,
        scope: input.scope,
        expires_at: input.expires_at,
        last_polled_at: None,
        last_error: None,
        is_active: true,
        created_at: now,
        updated_at: now,
    }
}

/// Re-links an account. Re-authorizing (such as after a revoked refresh token
/// made it inactive) overwrites the stored tokens and reactivates the row.
pub fn upsert_connected_account(row: ConnectedAccount, input: UpsertConnectedAccount) -> (res:
    ConnectedAccount)
    ensures
        res.deep_view() == relinked(row.deep_view(), input.deep_view()),
{
    let mut row = row;
    row.provider_user_id = input.provider_user_id;
    row.access_token = input.access_token;
    row.refresh_token = input.refresh_token;
    row.token_type = input.token_type;
    row.scope = input.scope;
    row.expires_at = input.expires_at;
    row.is_active = true;
    row.last_error = None;
    row
}

/// Stores a refreshed access (and, if issued, refresh) token.
pub fn update_tokens(
    row: ConnectedAccount,
    access_token: String,
    refresh_token: Option<String>,
    expires_at: Option<Timestamp>,
) -> (res: ConnectedAccount)
    ensures
        res.deep_view() == with_tokens(
            row.deep_view(),
            access_token@,
            refresh_token.deep_view(),
            expires_at,
        ),
{
    let mut row = row;
    row.access_token = access_token;
    row.refresh_token = match refresh_token {
        Some(token) => Some(token),
        None => row.refresh_token,
    };
    row.expires_at = expires_at;
    row
}

/// Notes that an account was polled, and how it went.
pub fn mark_polled(row: ConnectedAccount, polled_at: Timestamp, error: Option<String>) -> (res:
    ConnectedAccount)
    ensures
        res.deep_view() == (ConnectedAccount {
            last_polled_at: Some(polled_at),
            last_error: error.deep_view(),
            ..row.deep_view()
        }),
{
    let mut row = row;
    row.last_polled_at = Some(polled_at);
    row.last_error = error;
    row
}

/// Deactivates a connection (the refresh token was permanently rejected; the
/// user must re-authorize). Distinct from deletion: the row and its error stay,
/// so that a settings UI can show a "reconnect" prompt.
pub fn deactivate(row: ConnectedAccount, reason: String) -> (res: ConnectedAccount)
    ensures
        res.deep_view() == (ConnectedAccount {
            is_active: false,
            last_error: Some(reason@),
            ..row.deep_view()
        }),
{
    let mut row = row;
    row.is_active = false;
    row.last_error = Some(reason);
    row
}

/// Linking an account again makes an inactive one active and forgets why it was
/// not, and it stays with its user.
pub proof fn law_relinking_reactivates(
    row: ConnectedAccount<Seq<char>>,
    input: UpsertConnectedAccount<Seq<char>>,
)
    ensures
        relinked(row, input).is_active,
        relinked(row, input).last_error is None,
        relinked(row, input).user_id == row.user_id,
{
}

/// However an account comes to be linked, it is active, free of errors, and has
/// the tokens that were given.
pub proof fn law_linked_accounts_have_the_given_tokens(
    id: i64,
    now: Timestamp,
    row: ConnectedAccount<Seq<char>>,
    input: UpsertConnectedAccount<Seq<char>>,
)
    ensures
        forall|account: ConnectedAccount<Seq<char>>|
            account == linked(id, now, input) || account == relinked(row, input) ==> {
                &&& account.is_active
                &&& account.last_error is None
                &&& #[trigger] account.access_token == input.access_token
                &&& account.refresh_token == input.refresh_token
                &&& account.provider_user_id == input.provider_user_id
            },
{
}

/// An account never loses its refresh token by a refresh.
pub proof fn law_refresh_keeps_a_refresh_token(
    row: ConnectedAccount<Seq<char>>,
    access_token: Seq<char>,
    refresh_token: Option<Seq<char>>,
    expires_at: Option<Timestamp>,
)
    requires
        row.refresh_token is Some,
    ensures
        with_tokens(row, access_token, refresh_token, expires_at).refresh_token is Some,
        refresh_token is None ==> with_tokens(
            row,
            access_token,
            refresh_token,
            expires_at,
        ).refresh_token == row.refresh_token,
{
}

// ---------------------------------------------------------------------------
// Refreshing
// ---------------------------------------------------------------------------

/// Where the refresh of an account's tokens stands.
#[derive(Debug, PartialEq, Eq)]
#[allow(inconsistent_fields)]
pub enum RefreshStep<S = String> {
    /// Ask Spotify for new tokens.
    Request { refresh_token: S },
    /// Store the tokens that were granted.
    Store { tokens: SpotifyTokens<S>, expires_at: Timestamp },
    /// Deactivate the account: the refresh token was rejected.
    Deactivate { reason: S },
    /// The new access token, or why there is none.
    Done { result: Result<S, S> },
}

#[derive(Debug, PartialEq, Eq)]
pub enum RefreshReply<S = String> {
    Tokens(Result<SpotifyTokens<S>, SpotifyError<S>>),
    Stored(Result<(), S>),
    Deactivated(Result<(), S>),
}

impl DeepView for RefreshStep {
    type V = RefreshStep<Seq<char>>;

    open spec fn deep_view(&self) -> RefreshStep<Seq<char>> {
        match *self {
            RefreshStep::Request { refresh_token } => RefreshStep::Request {
                refresh_token: refresh_token@,
            },
            RefreshStep::Store { tokens, expires_at } => RefreshStep::Store {
                tokens: tokens.deep_view(),
                expires_at,
            },
            RefreshStep::Deactivate { reason } => RefreshStep::Deactivate { reason: reason@ },
            RefreshStep::Done { result } => RefreshStep::Done { result: text::result_view(result) },
        }
    }
}

impl DeepView for RefreshReply {
    type V = RefreshReply<Seq<char>>;

    open spec fn deep_view(&self) -> RefreshReply<Seq<char>> {
        match *self {
            RefreshReply::Tokens(r) => RefreshReply::Tokens(text::result_view(r)),
            RefreshReply::Stored(r) => RefreshReply::Stored(text::result_view(r)),
            RefreshReply::Deactivated(r) => RefreshReply::Deactivated(text::result_view(r)),
        }
    }
}

/// How a refresh begins.
pub open spec fn refresh_begin(account_id: i64, refresh_token: Option<Seq<char>>) -> RefreshStep<
    Seq<char>,
> {
    match refresh_token {
        Some(refresh_token) => RefreshStep::Request { refresh_token },
        None => RefreshStep::Done {
            result: Err(
                "no refresh_token stored for account "@ + text::decimal(account_id as int),
            ),
        },
    }
}

/// One step of a refresh, when the clock shows `now`. Only a genuine revocation
/// deactivates the account. Any other failure (a network blip, a transient 5xx)
/// is not the account's fault: it stays active, and the next poll retries with
/// the same refresh token.
pub open spec fn refresh_next(
    step: RefreshStep<Seq<char>>,
    reply: RefreshReply<Seq<char>>,
    now: Timestamp,
) -> RefreshStep<Seq<char>> {
    match (step, reply) {
        (RefreshStep::Request { .. }, RefreshReply::Tokens(r)) => match r {
            Ok(tokens) => match time::shifted(now, tokens.expires_in * 1000) {
                Some(expires_at) => RefreshStep::Store { tokens, expires_at },
                None => RefreshStep::Done { result: Err("expiry is out of range"@) },
            },
            Err(SpotifyError::Unauthorized) => RefreshStep::Deactivate {
                reason: spotify::spotify_message(SpotifyError::Unauthorized),
            },
            Err(e) => RefreshStep::Done { result: Err(spotify::spotify_message(e)) },
        },
        (RefreshStep::Store { tokens, .. }, RefreshReply::Stored(r)) => match r {
            Ok(()) => RefreshStep::Done { result: Ok(tokens.access_token) },
            Err(error) => RefreshStep::Done { result: Err(error) },
        },
        (RefreshStep::Deactivate { reason }, RefreshReply::Deactivated(r)) => match r {
            Ok(()) => RefreshStep::Done { result: Err(reason) },
            Err(error) => RefreshStep::Done { result: Err(error) },
        },
        _ => step,
    }
}

/// Begins to refresh the tokens of an account. [`advance_refresh_at`] carries
/// it on.
pub fn refresh(account_id: i64, refresh_token: &Option<String>) -> (res: RefreshStep)
    ensures
        res.deep_view() == refresh_begin(account_id, refresh_token.deep_view()),
{
    match refresh_token {
        Some(token) => RefreshStep::Request { refresh_token: token.clone() },
        None => RefreshStep::Done {
            result: Err(
                text::join2(
                    "no refresh_token stored for account ",
                    text::i64_to_text(account_id).as_str(),
                ),
            ),
        },
    }
}

/// Takes the answer to the open question when the clock shows `now`.
pub fn advance_refresh_at(step: RefreshStep, reply: RefreshReply, now: &Timestamp) -> (res:
    RefreshStep)
    requires
        now.wf(),
        now.plain(),
    ensures
        res.deep_view() == refresh_next(step.deep_view(), reply.deep_view(), *now),
{
    match (step, reply) {
        (RefreshStep::Request { .. }, RefreshReply::Tokens(r)) => match r {
            Ok(tokens) => match time::shift_units(now, tokens.expires_in, 1000) {
                Some(expires_at) => RefreshStep::Store { tokens, expires_at },
                None => RefreshStep::Done { result: Err("expiry is out of range".to_owned()) },
            },
            Err(SpotifyError::Unauthorized) => RefreshStep::Deactivate {
                reason: SpotifyError::Unauthorized.message(),
            },
            Err(e) => RefreshStep::Done { result: Err(e.message()) },
        },
        (RefreshStep::Store { tokens, .. }, RefreshReply::Stored(r)) => match r {
            Ok(()) => RefreshStep::Done { result: Ok(tokens.access_token) },
            Err(error) => RefreshStep::Done { result: Err(error) },
        },
        (RefreshStep::Deactivate { reason }, RefreshReply::Deactivated(r)) => match r {
            Ok(()) => RefreshStep::Done { result: Err(reason) },
            Err(error) => RefreshStep::Done { result: Err(error) },
        },
        (step, _) => step,
    }
}

/// The request that answers the question which is open in `step`, where it is one
/// for Spotify.
pub open spec fn refresh_asks(
    step: RefreshStep<Seq<char>>,
    client_id: Seq<char>,
    client_secret: Seq<char>,
) -> Option<spotify::SpotifyRequestView> {
    match step {
        RefreshStep::Request { refresh_token } => Some(
            spotify::SpotifyRequest::Tokens {
                post: spotify::token_refresh(client_id, client_secret, refresh_token),
            },
        ),
        _ => None,
    }
}

/// The request that answers the open question of a refresh, as the given client.
pub fn refresh_request(step: &RefreshStep, client_id: &str, client_secret: &str) -> (res: Option<
    spotify::SpotifyRequest,
>)
    ensures
        res.deep_view() == refresh_asks(step.deep_view(), client_id@, client_secret@),
{
    match step {
        RefreshStep::Request { refresh_token } => Some(
            spotify::SpotifyRequest::Tokens {
                post: spotify::refresh_access_token(
                    client_id,
                    client_secret,
                    refresh_token.as_str(),
                ),
            },
        ),
        _ => None,
    }
}

/// What would answer each question of a refresh.
pub struct RefreshAnswers {
    pub tokens: Result<SpotifyTokens<Seq<char>>, SpotifyError<Seq<char>>>,
    pub stored: Result<(), Seq<char>>,
    pub deactivated: Result<(), Seq<char>>,
}

/// The answer to the question that is open in `step`.
pub open spec fn refresh_reply(step: RefreshStep<Seq<char>>, a: RefreshAnswers) -> RefreshReply<
    Seq<char>,
> {
    match step {
        RefreshStep::Request { .. } => RefreshReply::Tokens(a.tokens),
        RefreshStep::Store { .. } => RefreshReply::Stored(a.stored),
        _ => RefreshReply::Deactivated(a.deactivated),
    }
}

/// What comes of a refresh: the new access token, once it is stored. The clock
/// shows `now` when the tokens come in.
pub open spec fn refresh_outcome(
    account_id: i64,
    refresh_token: Option<Seq<char>>,
    a: RefreshAnswers,
    now: Timestamp,
) -> Result<Seq<char>, Seq<char>> {
    match (refresh_token, a.tokens) {
        (None, _) => Err(
            "no refresh_token stored for account "@ + text::decimal(account_id as int),
        ),
        (Some(_), Ok(tokens)) => if time::shifted(now, tokens.expires_in * 1000) is None {
            Err("expiry is out of range"@)
        } else {
            match a.stored {
                Ok(()) => Ok(tokens.access_token),
                Err(error) => Err(error),
            }
        },
        (Some(_), Err(SpotifyError::Unauthorized)) => match a.deactivated {
            Ok(()) => Err(spotify::spotify_message(SpotifyError::Unauthorized)),
            Err(error) => Err(error),
        },
        (Some(_), Err(e)) => Err(spotify::spotify_message(e)),
    }
}

/// Two answers bring every refresh to the outcome that they determine. `now(i)`
/// is what the clock shows at answer number `i`, and the refresh takes its first
/// at number `k`; it goes by the clock at that one, when the tokens come in.
pub proof fn law_refresh(
    account_id: i64,
    refresh_token: Option<Seq<char>>,
    a: RefreshAnswers,
    now: spec_fn(nat) -> Timestamp,
    k: nat,
)
    ensures
        ({
            let s0 = refresh_begin(account_id, refresh_token);
            let s1 = refresh_next(s0, refresh_reply(s0, a), now(k));
            let s2 = refresh_next(s1, refresh_reply(s1, a), now(k + 1));
            s2 == (RefreshStep::<Seq<char>>::Done {
                result: refresh_outcome(account_id, refresh_token, a, now(k)),
            })
        }),
{
}

/// An account is deactivated exactly when Spotify rejected its refresh token.
pub proof fn law_only_revocation_deactivates(
    refresh_token: Seq<char>,
    answer: Result<SpotifyTokens<Seq<char>>, SpotifyError<Seq<char>>>,
    now: Timestamp,
)
    ensures
        refresh_next(
            RefreshStep::Request { refresh_token },
            RefreshReply::Tokens(answer),
            now,
        ) is Deactivate <==> (answer matches Err(e) && e is Unauthorized),
{
}

// ---------------------------------------------------------------------------
// Laws
// ---------------------------------------------------------------------------

/// A user is shown all of a linked account but its tokens.
pub proof fn law_listings_show_the_rest(row: ConnectedAccount<Seq<char>>)
    ensures
        ({
            let shown = listing(row);
            &&& shown.id == row.id
            &&& shown.user_id == row.user_id
            &&& shown.provider == row.provider
            &&& shown.provider_user_id == row.provider_user_id
            &&& shown.token_type == row.token_type
            &&& shown.scope == row.scope
            &&& shown.expires_at == row.expires_at
            &&& shown.last_polled_at == row.last_polled_at
            &&& shown.last_error == row.last_error
            &&& shown.is_active == row.is_active
            &&& shown.created_at == row.created_at
            &&& shown.updated_at == row.updated_at
        }),
{
}

/// Linking stores everything that was given. A row that is new belongs to the user
/// who linked it and was never polled; one that is there keeps its identity, and
/// when it was last polled, so that no play is read twice.
pub proof fn law_linking_stores_what_was_given(
    id: i64,
    now: Timestamp,
    row: ConnectedAccount<Seq<char>>,
    input: UpsertConnectedAccount<Seq<char>>,
)
    ensures
        ({
            let new = linked(id, now, input);
            let again = relinked(row, input);
            &&& new.id == id
            &&& new.user_id == input.user_id
            &&& new.provider == input.provider
            &&& new.token_type == input.token_type
            &&& new.scope == input.scope
            &&& new.expires_at == input.expires_at
            &&& new.last_polled_at is None
            &&& new.created_at == now
            &&& new.updated_at == now
            &&& again.id == row.id
            &&& again.provider == row.provider
            &&& again.token_type == input.token_type
            &&& again.scope == input.scope
            &&& again.expires_at == input.expires_at
            &&& again.last_polled_at == row.last_polled_at
            &&& again.created_at == row.created_at
            &&& again.updated_at == row.updated_at
        }),
{
}

/// A refresh replaces the access token and its expiry, and the refresh token where
/// a new one was issued; the rest of the account stays.
pub proof fn law_refreshed_tokens_replace_the_old(
    row: ConnectedAccount<Seq<char>>,
    access_token: Seq<char>,
    new_token: Seq<char>,
    expires_at: Option<Timestamp>,
)
    ensures
        with_tokens(row, access_token, Some(new_token), expires_at) == (ConnectedAccount {
            access_token,
            refresh_token: Some(new_token),
            expires_at,
            ..row
        }),
        with_tokens(row, access_token, None, expires_at) == (ConnectedAccount {
            access_token,
            expires_at,
            ..row
        }),
{
}

/// A refresh presents the refresh token that is stored; without one it fails
/// before anything is asked.
pub proof fn law_refresh_presents_the_stored_token(account_id: i64, token: Seq<char>)
    ensures
        refresh_begin(account_id, Some(token)) == (RefreshStep::<Seq<char>>::Request {
            refresh_token: token,
        }),
        refresh_begin(account_id, None) == (RefreshStep::<Seq<char>>::Done {
            result: Err(
                "no refresh_token stored for account "@ + text::decimal(account_id as int),
            ),
        }),
{
}

/// The tokens that were granted are the ones that are stored, with an expiry as
/// many seconds from now as was granted.
pub proof fn law_granted_tokens_are_stored(
    refresh_token: Seq<char>,
    granted: SpotifyTokens<Seq<char>>,
    now: Timestamp,
)
    ensures
        ({
            let expiry = now.total_nanos() + granted.expires_in * 1_000_000_000;
            let next = refresh_next(
                RefreshStep::Request { refresh_token },
                RefreshReply::Tokens(Ok(granted)),
                now,
            );
            &&& next matches RefreshStep::Store { tokens, expires_at } ==> tokens == granted
                && expires_at.total_nanos() == expiry
            &&& next is Store <==> time::MIN_SECS * 1_000_000_000 <= expiry < (time::MAX_SECS + 1)
                * 1_000_000_000
            &&& next is Store || next == (RefreshStep::<Seq<char>>::Done {
                result: Err("expiry is out of range"@),
            })
        }),
{
    time::law_shifts_are_exact(now, granted.expires_in * 1000);
}

/// A refresh yields the access token that was granted, once it is stored, and
/// none in any other case: a failure is told as it came.
pub proof fn law_refresh_outcomes(
    account_id: i64,
    token: Seq<char>,
    a: RefreshAnswers,
    now: Timestamp,
)
    ensures
        ({
            let outcome = refresh_outcome(account_id, Some(token), a, now);
            &&& outcome matches Ok(access) ==> a.stored is Ok && (a.tokens matches Ok(granted)
                && granted.access_token == access)
            &&& a.tokens matches Ok(granted) ==> (time::shifted(
                now,
                granted.expires_in * 1000,
            ) is Some ==> match a.stored {
                Ok(()) => outcome == Ok::<Seq<char>, Seq<char>>(granted.access_token),
                Err(error) => outcome == Err::<Seq<char>, Seq<char>>(error),
            })
            &&& a.tokens matches Err(e) ==> (e !is Unauthorized || a.deactivated is Ok ==> outcome
                == Err::<Seq<char>, Seq<char>>(spotify::spotify_message(e)))
        }),
        refresh_outcome(account_id, None, a, now) is Err,
{
}

/// A poll is noted with its time and with what went wrong, if anything did; nothing
/// else of the account changes.
pub proof fn law_noted_polls(
    row: ConnectedAccount,
    polled_at: Timestamp,
    error: Option<String>,
    res: ConnectedAccount,
)
    requires
        call_ensures(mark_polled, (row, polled_at, error), res),
    ensures
        ({
            let after = res.deep_view();
            let before = row.deep_view();
            &&& after.last_polled_at == Some(polled_at)
            &&& after.last_error == error.deep_view()
            &&& after.is_active == before.is_active
            &&& after == (ConnectedAccount {
                last_polled_at: after.last_polled_at,
                last_error: after.last_error,
                ..before
            })
        }),
{
}

/// A deactivated account stays, with its tokens, and with why it is inactive.
pub proof fn law_deactivated_accounts(row: ConnectedAccount, reason: String, res: ConnectedAccount)
    requires
        call_ensures(deactivate, (row, reason), res),
    ensures
        ({
            let after = res.deep_view();
            let before = row.deep_view();
            &&& !after.is_active
            &&& after.last_error == Some(reason@)
            &&& after == (ConnectedAccount {
                is_active: after.is_active,
                last_error: after.last_error,
                ..before
            })
        }),
{
}

/// The accounts of a user are listed one by one and in order.
pub proof fn law_account_lists(rows: Vec<ConnectedAccount>, res: Vec<AccountListing>)
    requires
        call_ensures(list_connected_accounts, (rows,), res),
    ensures
        res@.len() == rows@.len(),
        forall|i: int|
            0 <= i < rows@.len() ==> (#[trigger] res@[i]).deep_view() == listing(
                rows@[i].deep_view(),
            ),
{
    assert(res.deep_view().len() == res@.len());
    assert forall|i: int| 0 <= i < rows@.len() implies (#[trigger] res@[i]).deep_view() == listing(
        rows@[i].deep_view(),
    ) by {
        assert(res.deep_view()[i] == res@[i].deep_view());
        assert(rows.deep_view()[i] == rows@[i].deep_view());
    }
}

/// The tokens of an account that was just linked, and of one that was refreshed,
/// are those that came in.
pub proof fn law_stored_tokens(
    id: i64,
    now: Timestamp,
    input: UpsertConnectedAccount,
    new: ConnectedAccount,
    row: ConnectedAccount,
    access_token: String,
    refresh_token: Option<String>,
    expires_at: Option<Timestamp>,
    refreshed: ConnectedAccount,
)
    requires
        call_ensures(create_connected_account, (id, now, input), new),
        call_ensures(update_tokens, (row, access_token, refresh_token, expires_at), refreshed),
    ensures
        new.user_id == input.user_id,
        new.access_token@ == input.access_token@,
        new.is_active,
        refreshed.user_id == row.user_id,
        refreshed.access_token@ == access_token@,
        refreshed.expires_at == expires_at,
        refreshed.is_active == row.is_active,
        refresh_token matches Some(token) ==> (refreshed.refresh_token matches Some(kept)
            && kept@ == token@),
        refresh_token is None ==> (refreshed.refresh_token is Some <==> row.refresh_token is Some),
{
    assert(new.deep_view() == linked(id, now, input.deep_view()));
    let before = row.deep_view();
    let after = refreshed.deep_view();
    assert(after == with_tokens(before, access_token@, refresh_token.deep_view(), expires_at));
    assert(after.refresh_token is Some <==> refreshed.refresh_token is Some);
    assert(before.refresh_token is Some <==> row.refresh_token is Some);
}

/// A refresh whose token was rejected deactivates the account and fails with that,
/// or with what kept it from being deactivated; tokens that could not be stored are
/// not given out.
pub proof fn law_the_rest_of_a_refresh(
    tokens: SpotifyTokens<Seq<char>>,
    expires_at: Timestamp,
    reason: Seq<char>,
    error: Seq<char>,
    refresh_token: Seq<char>,
    e: SpotifyError<Seq<char>>,
    now: Timestamp,
)
    ensures
        refresh_next(
            RefreshStep::Store { tokens, expires_at },
            RefreshReply::Stored(Ok(())),
            now,
        ) == (RefreshStep::<Seq<char>>::Done { result: Ok(tokens.access_token) }),
        refresh_next(
            RefreshStep::Store { tokens, expires_at },
            RefreshReply::Stored(Err(error)),
            now,
        ) == (RefreshStep::<Seq<char>>::Done { result: Err(error) }),
        refresh_next(
            RefreshStep::Deactivate { reason },
            RefreshReply::Deactivated(Ok(())),
            now,
        ) == (RefreshStep::<Seq<char>>::Done { result: Err(reason) }),
        refresh_next(
            RefreshStep::Deactivate { reason },
            RefreshReply::Deactivated(Err(error)),
            now,
        ) == (RefreshStep::<Seq<char>>::Done { result: Err(error) }),
        refresh_next(
            RefreshStep::Request { refresh_token },
            RefreshReply::Tokens(Err(e)),
            now,
        ) == if e is Unauthorized {
            RefreshStep::<Seq<char>>::Deactivate {
                reason: "spotify access token is invalid or expired"@,
            }
        } else {
            RefreshStep::<Seq<char>>::Done { result: Err(spotify::spotify_message(e)) }
        },
{
}

/// A refresh asks the token endpoint, as our client, with the refresh token; and
/// nothing else of Spotify.
pub proof fn law_what_a_refresh_asks(
    refresh_token: Seq<char>,
    client_id: Seq<char>,
    client_secret: Seq<char>,
    step: RefreshStep<Seq<char>>,
)
    ensures
        refresh_asks(RefreshStep::Request { refresh_token }, client_id, client_secret) == Some(
            spotify::SpotifyRequestView::Tokens {
                post: spotify::FormPost {
                    url: "https://accounts.spotify.com/api/token"@,
                    user: client_id,
                    password: client_secret,
                    form: seq![
                        ("grant_type"@, "refresh_token"@),
                        ("refresh_token"@, refresh_token),
                    ],
                },
            },
        ),
        !(step is Request) ==> refresh_asks(step, client_id, client_secret) is None,
{
}

} // verus!
