//! Polling connected Spotify accounts: their listening history becomes
//! scrobbles, and what they are playing becomes the live now-playing state.

use crate::accounts;
use crate::accounts::{ConnectedAccount, RefreshAnswers, RefreshReply, RefreshStep};
use crate::ingest;
use crate::ingest::{CatalogAnswers, CatalogReply, CatalogStep, IngestError, Listen};
use crate::live;
use crate::live::{LiveAnswers, LiveError, LiveReply, LiveStep, UpsertNowPlaying};
use crate::scrobble;
use crate::scrobble::ScrobbleInput;
use crate::spotify;
use crate::spotify::{CurrentlyPlaying, RecentlyPlayedItem, SpotifyError};
use crate::text;
use crate::time;
use crate::time::Timestamp;
use vstd::prelude::*;
use vstd::string::*;

verus! {

/// How many accounts one round polls at most.
pub const BATCH_SIZE: i64 = 25;

/// The time between two rounds (s).
pub const POLL_INTERVAL_SECS: u64 = 45;

/// Whether accounts are polled at all: only where the Spotify OAuth credentials
/// are configured.
pub fn is_enabled(client_id: &Option<String>, client_secret: &Option<String>) -> (res: bool)
    ensures
        res == (client_id is Some && client_secret is Some),
{
    client_id.is_some() && client_secret.is_some()
}

// ---------------------------------------------------------------------------
// The listening history
// ---------------------------------------------------------------------------

/// The listen that a play on Spotify is reported as. Spotify itself already
/// decided that the play was significant enough to record, so it counts as
/// listened to from beginning to end.
pub open spec fn listen_of(item: RecentlyPlayedItem<Seq<char>>) -> ScrobbleInput<Seq<char>> {
    ScrobbleInput {
        track_title: item.track_title,
        artist_name: item.artist_name,
        album_title: item.album_title,
        played_at: item.played_at,
        duration_ms: Some(item.duration_ms),
        listened_ms: Some(item.duration_ms),
        source: "spotify"@,
    }
}

/// The listens that a list of plays is reported as, in order.
pub open spec fn listens_of(items: Seq<RecentlyPlayedItem<Seq<char>>>) -> Seq<
    ScrobbleInput<Seq<char>>,
> {
    items.map_values(|item: RecentlyPlayedItem<Seq<char>>| listen_of(item))
}

fn listens(items: Vec<RecentlyPlayedItem>) -> (res: Vec<ScrobbleInput>)
    ensures
        res.deep_view() == listens_of(items.deep_view()),
{
    let mut out: Vec<ScrobbleInput> = Vec::new();
    for item in it: items
        invariant
            it.seq() == items@,
            out@.len() == it.index(),
            forall|i: int|
                0 <= i < it.index() ==> (#[trigger] out@[i]).deep_view() == listen_of(
                    items@[i].deep_view(),
                ),
    {
        out.push(
            ScrobbleInput {
                track_title: item.track_title,
                artist_name: item.artist_name,
                album_title: item.album_title,
                played_at: item.played_at,
                duration_ms: Some(item.duration_ms),
                listened_ms: Some(item.duration_ms),
                source: "spotify".to_owned(),
            },
        );
    }
    proof {
        assert(out.deep_view() =~= listens_of(items.deep_view()));
    }
    out
}

/// Where the poll of an account stands.
#[derive(Debug, PartialEq, Eq)]
#[allow(inconsistent_fields)]
pub enum PollStep<S = String, L = Vec<ScrobbleInput>> {
    /// Fetch what was played after `after_ms`.
    Fetch { access_token: S, after_ms: Option<i64> },
    /// The access token was refused: refresh it.
    Refresh { step: RefreshStep<S> },
    /// Fetch again with the new access token.
    Retry { access_token: S, after_ms: Option<i64> },
    /// Note that the account was polled at that instant, and that the token could
    /// not be refreshed or was refused again.
    MarkRefused { error: S, at: Timestamp },
    /// Note that the account was polled at that instant, and that the fetch
    /// failed.
    MarkFailed { error: S, at: Timestamp },
    /// Ingest the listen at `next`.
    Ingest { inputs: L, next: usize },
    /// Note that the account was polled at that instant and that it went well.
    MarkPolled { at: Timestamp },
    /// Poll what is playing right now.
    NowPlaying,
    Done { result: Result<(), S> },
}

#[derive(Debug, PartialEq, Eq)]
pub enum PollReply<S = String, L = Vec<RecentlyPlayedItem>> {
    Items(Result<L, SpotifyError<S>>),
    Refresh(RefreshReply<S>),
    Marked(Result<(), S>),
    /// The id of the scrobble, or why there is none.
    Ingested(Result<i64, IngestError<S>>),
    NowPlaying(Result<(), S>),
}

impl DeepView for PollStep {
    type V = PollStep<Seq<char>, Seq<ScrobbleInput<Seq<char>>>>;

    open spec fn deep_view(&self) -> PollStep<Seq<char>, Seq<ScrobbleInput<Seq<char>>>> {
        match *self {
            PollStep::Fetch { access_token, after_ms } => PollStep::Fetch {
                access_token: access_token@,
                after_ms,
            },
            PollStep::Refresh { step } => PollStep::Refresh { step: step.deep_view() },
            PollStep::Retry { access_token, after_ms } => PollStep::Retry {
                access_token: access_token@,
                after_ms,
            },
            PollStep::MarkRefused { error, at } => PollStep::MarkRefused { error: error@, at },
            PollStep::MarkFailed { error, at } => PollStep::MarkFailed { error: error@, at },
            PollStep::Ingest { inputs, next } => PollStep::Ingest {
                inputs: inputs.deep_view(),
                next,
            },
            PollStep::MarkPolled { at } => PollStep::MarkPolled { at },
            PollStep::NowPlaying => PollStep::NowPlaying,
            PollStep::Done { result } => PollStep::Done { result: text::result_view(result) },
        }
    }
}

impl DeepView for PollReply {
    type V = PollReply<Seq<char>, Seq<RecentlyPlayedItem<Seq<char>>>>;

    open spec fn deep_view(&self) -> PollReply<Seq<char>, Seq<RecentlyPlayedItem<Seq<char>>>> {
        match *self {
            PollReply::Items(r) => PollReply::Items(text::result_view(r)),
            PollReply::Refresh(r) => PollReply::Refresh(r.deep_view()),
            PollReply::Marked(r) => PollReply::Marked(text::result_view(r)),
            PollReply::Ingested(r) => PollReply::Ingested(text::result_view(r)),
            PollReply::NowPlaying(r) => PollReply::NowPlaying(text::result_view(r)),
        }
    }
}

/// The state of a poll, as contracts speak of it.
pub type PollState = PollStep<Seq<char>, Seq<ScrobbleInput<Seq<char>>>>;

/// An answer, as contracts speak of it.
pub type PollAnswer = PollReply<Seq<char>, Seq<RecentlyPlayedItem<Seq<char>>>>;

/// The cursor of an account: when it was last polled, in unix milliseconds.
pub open spec fn cursor(account: ConnectedAccount<Seq<char>>) -> Option<i64> {
    match account.last_polled_at {
        Some(at) => Some(at.millis() as i64),
        None => None,
    }
}

/// The time an account was last polled at exists.
pub open spec fn has_cursor(account: ConnectedAccount<Seq<char>>) -> bool {
    account.last_polled_at matches Some(at) ==> at.wf()
}

/// How the poll of an account begins.
pub open spec fn poll_begin(account: ConnectedAccount<Seq<char>>) -> PollState {
    PollStep::Fetch { access_token: account.access_token, after_ms: cursor(account) }
}

/// What follows once a refresh has come so far, when the clock shows `now`.
pub open spec fn poll_refreshed(
    account: ConnectedAccount<Seq<char>>,
    step: RefreshStep<Seq<char>>,
    now: Timestamp,
) -> PollState {
    match step {
        RefreshStep::Done { result: Ok(access_token) } => PollStep::Retry {
            access_token,
            after_ms: cursor(account),
        },
        RefreshStep::Done { result: Err(error) } => PollStep::MarkRefused { error, at: now },
        other => PollStep::Refresh { step: other },
    }
}

/// What follows once the listens up to `next` are ingested, when the clock shows
/// `now`.
pub open spec fn poll_ingest(
    inputs: Seq<ScrobbleInput<Seq<char>>>,
    next: int,
    now: Timestamp,
) -> PollState {
    if 0 <= next < inputs.len() {
        PollStep::Ingest { inputs, next: next as usize }
    } else {
        PollStep::MarkPolled { at: now }
    }
}

/// One step of a poll, when the clock shows `now`.
pub open spec fn poll_next(
    account: ConnectedAccount<Seq<char>>,
    step: PollState,
    reply: PollAnswer,
    now: Timestamp,
) -> PollState {
    match (step, reply) {
        (PollStep::Fetch { .. }, PollReply::Items(r)) => match r {
            Ok(items) => poll_ingest(listens_of(items), 0, now),
            Err(SpotifyError::Unauthorized) => poll_refreshed(
                account,
                accounts::refresh_begin(account.id, account.refresh_token),
                now,
            ),
            Err(e) => PollStep::MarkFailed { error: spotify::spotify_message(e), at: now },
        },
        (PollStep::Refresh { step: refresh }, PollReply::Refresh(r)) => poll_refreshed(
            account,
            accounts::refresh_next(refresh, r, now),
            now,
        ),
        (PollStep::Retry { .. }, PollReply::Items(r)) => match r {
            Ok(items) => poll_ingest(listens_of(items), 0, now),
            Err(e) => PollStep::MarkRefused { error: spotify::spotify_message(e), at: now },
        },
        (PollStep::MarkRefused { error, .. }, PollReply::Marked(_)) => PollStep::Done {
            result: Err(error),
        },
        (PollStep::MarkFailed { error, .. }, PollReply::Marked(r)) => match r {
            Ok(()) => PollStep::Done { result: Err(error) },
            Err(db_error) => PollStep::Done { result: Err(db_error) },
        },
        (PollStep::Ingest { inputs, next }, PollReply::Ingested(_)) => poll_ingest(
            inputs,
            next + 1,
            now,
        ),
        (PollStep::MarkPolled { .. }, PollReply::Marked(r)) => match r {
            Ok(()) => PollStep::NowPlaying,
            Err(error) => PollStep::Done { result: Err(error) },
        },
        (PollStep::NowPlaying, PollReply::NowPlaying(_)) => PollStep::Done { result: Ok(()) },
        _ => step,
    }
}

fn cursor_of(account: &ConnectedAccount) -> (res: Option<i64>)
    requires
        has_cursor(account.deep_view()),
    ensures
        res == cursor(account.deep_view()),
{
    match &account.last_polled_at {
        Some(at) => Some(at.timestamp_millis()),
        None => None,
    }
}

/// Begins to poll an account. [`advance_poll_at`] carries it on.
///
/// `last_polled_at` doubles as Spotify's `after` cursor, so that a poll never
/// asks for a play that an earlier one has already seen.
pub fn poll_account(account: &ConnectedAccount) -> (res: PollStep)
    requires
        has_cursor(account.deep_view()),
    ensures
        res.deep_view() == poll_begin(account.deep_view()),
{
    PollStep::Fetch { access_token: account.access_token.clone(), after_ms: cursor_of(account) }
}

/// Retries the fetch with the refreshed token once there is one. Both failure
/// sources (a rejected refresh, or the retried fetch itself failing) are
/// reported in the same way.
fn retry_after_refresh(account: &ConnectedAccount, step: RefreshStep, now: &Timestamp) -> (res:
    PollStep)
    requires
        has_cursor(account.deep_view()),
    ensures
        res.deep_view() == poll_refreshed(account.deep_view(), step.deep_view(), *now),
{
    match step {
        RefreshStep::Done { result: Ok(access_token) } => PollStep::Retry {
            access_token,
            after_ms: cursor_of(account),
        },
        RefreshStep::Done { result: Err(error) } => PollStep::MarkRefused { error, at: *now },
        other => PollStep::Refresh { step: other },
    }
}

fn begin_ingest(items: Vec<RecentlyPlayedItem>, now: &Timestamp) -> (res: PollStep)
    ensures
        res.deep_view() == poll_ingest(listens_of(items.deep_view()), 0, *now),
{
    let inputs = listens(items);
    if inputs.len() > 0 {
        PollStep::Ingest { inputs, next: 0 }
    } else {
        PollStep::MarkPolled { at: *now }
    }
}

/// Takes the answer to the open question of a poll, when the clock shows `now`.
pub fn advance_poll_at(
    account: &ConnectedAccount,
    step: PollStep,
    reply: PollReply,
    now: &Timestamp,
) -> (res: PollStep)
    requires
        has_cursor(account.deep_view()),
        now.wf(),
        now.plain(),
    ensures
        res.deep_view() == poll_next(
            account.deep_view(),
            step.deep_view(),
            reply.deep_view(),
            *now,
        ),
{
    match (step, reply) {
        (PollStep::Fetch { .. }, PollReply::Items(r)) => match r {
            Ok(items) => begin_ingest(items, now),
            Err(SpotifyError::Unauthorized) => retry_after_refresh(
                account,
                accounts::refresh(account.id, &account.refresh_token),
                now,
            ),
            Err(e) => PollStep::MarkFailed { error: e.message(), at: *now },
        },
        (PollStep::Refresh { step: refresh }, PollReply::Refresh(r)) => retry_after_refresh(
            account,
            accounts::advance_refresh_at(refresh, r, now),
            now,
        ),
        (PollStep::Retry { .. }, PollReply::Items(r)) => match r {
            Ok(items) => begin_ingest(items, now),
            Err(e) => PollStep::MarkRefused { error: e.message(), at: *now },
        },
        (PollStep::MarkRefused { error, .. }, PollReply::Marked(_)) => PollStep::Done {
            result: Err(error),
        },
        (PollStep::MarkFailed { error, .. }, PollReply::Marked(r)) => match r {
            Ok(()) => PollStep::Done { result: Err(error) },
            Err(db_error) => PollStep::Done { result: Err(db_error) },
        },
        (PollStep::Ingest { inputs, next }, PollReply::Ingested(_)) => {
            if inputs.len() > 0 && next < inputs.len() - 1 {
                PollStep::Ingest { inputs, next: next + 1 }
            } else {
                PollStep::MarkPolled { at: *now }
            }
        },
        (PollStep::MarkPolled { .. }, PollReply::Marked(r)) => match r {
            Ok(()) => PollStep::NowPlaying,
            Err(error) => PollStep::Done { result: Err(error) },
        },
        (PollStep::NowPlaying, PollReply::NowPlaying(_)) => PollStep::Done { result: Ok(()) },
        (step, _) => step,
    }
}

/// Takes the answer to the open question of a poll.
pub fn advance_poll(account: &ConnectedAccount, step: PollStep, reply: PollReply) -> (res: PollStep)
    requires
        has_cursor(account.deep_view()),
    ensures
        exists|now: Timestamp|
            now.wf() && now.plain() && now.secs >= 0 && res.deep_view() == #[trigger] poll_next(
                account.deep_view(),
                step.deep_view(),
                reply.deep_view(),
                now,
            ),
{
    let now = time::now();
    advance_poll_at(account, step, reply, &now)
}

/// The request that answers the question which is open in `step`, where it is one
/// for the plays of the account.
pub open spec fn poll_asks(step: PollState) -> Option<spotify::SpotifyRequestView> {
    match step {
        PollStep::Fetch { access_token, after_ms }
        | PollStep::Retry { access_token, after_ms } => Some(
            spotify::SpotifyRequest::Api {
                get: spotify::recently_played_get(after_ms),
                access_token,
            },
        ),
        _ => None,
    }
}

/// The request that answers the open question of a poll: what was played after
/// the cursor. What a refresh asks for is another matter, see
/// [`accounts::refresh_request`].
pub fn poll_request(step: &PollStep) -> (res: Option<spotify::SpotifyRequest>)
    ensures
        res.deep_view() == poll_asks(step.deep_view()),
{
    match step {
        PollStep::Fetch { access_token, after_ms }
        | PollStep::Retry { access_token, after_ms } => Some(
            spotify::SpotifyRequest::Api {
                get: spotify::recently_played_request(*after_ms),
                access_token: access_token.clone(),
            },
        ),
        _ => None,
    }
}

/// What would answer each question of a poll.
pub struct PollAnswers {
    pub items: Result<Seq<RecentlyPlayedItem<Seq<char>>>, SpotifyError<Seq<char>>>,
    pub refresh: RefreshAnswers,
    pub retried: Result<Seq<RecentlyPlayedItem<Seq<char>>>, SpotifyError<Seq<char>>>,
    pub marked: Result<(), Seq<char>>,
    pub ingested: spec_fn(usize) -> Result<i64, IngestError<Seq<char>>>,
    pub now_playing: Result<(), Seq<char>>,
}

/// The answer to the question that is open in `step`.
pub open spec fn poll_reply(step: PollState, a: PollAnswers) -> PollAnswer {
    match step {
        PollStep::Fetch { .. } => PollReply::Items(a.items),
        PollStep::Refresh { step } => PollReply::Refresh(accounts::refresh_reply(step, a.refresh)),
        PollStep::Retry { .. } => PollReply::Items(a.retried),
        PollStep::Ingest { next, .. } => PollReply::Ingested((a.ingested)(next)),
        PollStep::NowPlaying => PollReply::NowPlaying(a.now_playing),
        _ => PollReply::Marked(a.marked),
    }
}

/// The plays that a poll gets to see, or the failure that ends it. The clock
/// shows `now` when refreshed tokens come in.
pub open spec fn poll_items(
    account: ConnectedAccount<Seq<char>>,
    a: PollAnswers,
    now: Timestamp,
) -> Result<Seq<RecentlyPlayedItem<Seq<char>>>, Seq<char>> {
    match a.items {
        Ok(items) => Ok(items),
        Err(SpotifyError::Unauthorized) => match (
            accounts::refresh_outcome(account.id, account.refresh_token, a.refresh, now),
            a.retried,
        ) {
            (Err(error), _) => Err(error),
            (Ok(_), Err(e)) => Err(spotify::spotify_message(e)),
            (Ok(_), Ok(items)) => Ok(items),
        },
        Err(e) => match a.marked {
            Ok(()) => Err(spotify::spotify_message(e)),
            Err(error) => Err(error),
        },
    }
}

/// What comes of a poll: it succeeds exactly when the plays could be fetched
/// and the account marked. Neither what becomes of a play nor the live state
/// plays a part.
pub open spec fn poll_outcome(
    account: ConnectedAccount<Seq<char>>,
    a: PollAnswers,
    now: Timestamp,
) -> Result<(), Seq<char>> {
    match poll_items(account, a, now) {
        Err(error) => Err(error),
        Ok(_) => a.marked,
    }
}

/// The state after `n` questions were answered. `now(i)` is what the clock shows
/// at answer number `i`; the first of these answers is number `k`.
pub open spec fn poll_run(
    account: ConnectedAccount<Seq<char>>,
    step: PollState,
    a: PollAnswers,
    now: spec_fn(nat) -> Timestamp,
    k: nat,
    n: nat,
) -> PollState
    decreases n,
{
    if n == 0 {
        step
    } else {
        poll_run(
            account,
            poll_next(account, step, poll_reply(step, a), now(k)),
            a,
            now,
            k + 1,
            (n - 1) as nat,
        )
    }
}

proof fn lemma_poll_settled(
    account: ConnectedAccount<Seq<char>>,
    step: PollState,
    a: PollAnswers,
    now: spec_fn(nat) -> Timestamp,
    k: nat,
    n: nat,
)
    requires
        step is Done,
    ensures
        poll_run(account, step, a, now, k, n) == step,
    decreases n,
{
    if n > 0 {
        lemma_poll_settled(account, step, a, now, k + 1, (n - 1) as nat);
    }
}

/// From the first listen that is still to be ingested on, each listen takes
/// one answer, and two more end the poll.
proof fn lemma_poll_from_ingest(
    account: ConnectedAccount<Seq<char>>,
    inputs: Seq<ScrobbleInput<Seq<char>>>,
    next: int,
    begun: Timestamp,
    a: PollAnswers,
    now: spec_fn(nat) -> Timestamp,
    k: nat,
    n: nat,
)
    requires
        0 <= next <= inputs.len() <= usize::MAX,
        n >= inputs.len() - next + 2,
    ensures
        poll_run(account, poll_ingest(inputs, next, begun), a, now, k, n) == (PollState::Done {
            result: a.marked,
        }),
    decreases inputs.len() - next,
{
    let s0 = poll_ingest(inputs, next, begun);
    let s1 = poll_next(account, s0, poll_reply(s0, a), now(k));
    assert(poll_run(account, s0, a, now, k, n) == poll_run(
        account,
        s1,
        a,
        now,
        k + 1,
        (n - 1) as nat,
    ));
    if next < inputs.len() {
        assert(s1 == poll_ingest(inputs, next + 1, now(k)));
        lemma_poll_from_ingest(account, inputs, next + 1, now(k), a, now, k + 1, (n - 1) as nat);
    } else if a.marked is Ok {
        assert(a.marked->Ok_0 == ());
        let s2 = poll_next(account, s1, poll_reply(s1, a), now(k + 1));
        assert(poll_run(account, s1, a, now, k + 1, (n - 1) as nat) == poll_run(
            account,
            s2,
            a,
            now,
            k + 2,
            (n - 2) as nat,
        ));
        lemma_poll_settled(account, s2, a, now, k + 2, (n - 2) as nat);
    } else {
        lemma_poll_settled(account, s1, a, now, k + 1, (n - 1) as nat);
    }
}

/// After the fetch, a refresh of two steps and a second fetch, the plays are
/// there or the poll has failed.
proof fn lemma_poll_from_refresh(
    account: ConnectedAccount<Seq<char>>,
    begun: Timestamp,
    a: PollAnswers,
    now: spec_fn(nat) -> Timestamp,
    k: nat,
    n: nat,
)
    requires
        a.items matches Err(e) && e is Unauthorized,
        a.retried matches Ok(items) ==> items.len() <= usize::MAX,
        n >= 5 + (if a.retried is Ok {
            a.retried->Ok_0.len()
        } else {
            0
        }),
    ensures
        poll_run(
            account,
            poll_refreshed(
                account,
                accounts::refresh_begin(account.id, account.refresh_token),
                begun,
            ),
            a,
            now,
            k,
            n,
        ) == (PollState::Done { result: poll_outcome(account, a, now(k)) }),
{
    reveal_with_fuel(poll_run, 5);
    let r0 = accounts::refresh_begin(account.id, account.refresh_token);
    let s0 = poll_refreshed(account, r0, begun);
    let s1 = poll_next(account, s0, poll_reply(s0, a), now(k));
    let s2 = poll_next(account, s1, poll_reply(s1, a), now(k + 1));
    let s3 = poll_next(account, s2, poll_reply(s2, a), now(k + 2));
    let s4 = poll_next(account, s3, poll_reply(s3, a), now(k + 3));
    accounts::law_refresh(account.id, account.refresh_token, a.refresh, now, k);
    match accounts::refresh_outcome(account.id, account.refresh_token, a.refresh, now(k)) {
        Ok(access_token) => {
            assert(s2 == (PollState::Retry { access_token, after_ms: cursor(account) }));
            match a.retried {
                Ok(items) => {
                    assert(s3 == poll_ingest(listens_of(items), 0, now(k + 2)));
                    lemma_poll_from_ingest(
                        account,
                        listens_of(items),
                        0,
                        now(k + 2),
                        a,
                        now,
                        k + 3,
                        (n - 3) as nat,
                    );
                },
                Err(e) => {
                    assert(s4 == (PollState::Done { result: Err(spotify::spotify_message(e)) }));
                    lemma_poll_settled(account, s4, a, now, k + 4, (n - 4) as nat);
                },
            }
        },
        Err(error) => {
            let done = PollState::Done { result: Err(error) };
            if s1 == done {
                lemma_poll_settled(account, s1, a, now, k + 1, (n - 1) as nat);
            } else if s2 == done {
                lemma_poll_settled(account, s2, a, now, k + 2, (n - 2) as nat);
            } else {
                assert(s3 == done);
                lemma_poll_settled(account, s3, a, now, k + 3, (n - 3) as nat);
            }
        },
    }
}

/// Six answers, and one more for each play, bring every poll to the outcome
/// that they determine, however the clock goes: what counts is what it shows at
/// the second answer, by which refreshed tokens come in.
pub proof fn law_poll(
    account: ConnectedAccount<Seq<char>>,
    a: PollAnswers,
    now: spec_fn(nat) -> Timestamp,
    n: nat,
)
    requires
        a.items matches Ok(items) ==> items.len() <= usize::MAX && n >= 6 + items.len(),
        a.retried matches Ok(items) ==> items.len() <= usize::MAX && n >= 6 + items.len(),
        n >= 6,
    ensures
        poll_run(account, poll_begin(account), a, now, 0, n) == (PollState::Done {
            result: poll_outcome(account, a, now(1)),
        }),
{
    let s0 = poll_begin(account);
    let s1 = poll_next(account, s0, poll_reply(s0, a), now(0));
    assert(poll_run(account, s0, a, now, 0, n) == poll_run(account, s1, a, now, 1, (n - 1) as nat));
    match a.items {
        Ok(items) => {
            lemma_poll_from_ingest(account, listens_of(items), 0, now(0), a, now, 1, (n - 1) as nat);
        },
        Err(SpotifyError::Unauthorized) => {
            lemma_poll_from_refresh(account, now(0), a, now, 1, (n - 1) as nat);
        },
        Err(e) => {
            let s2 = poll_next(account, s1, poll_reply(s1, a), now(1));
            assert(poll_run(account, s1, a, now, 1, (n - 1) as nat) == poll_run(
                account,
                s2,
                a,
                now,
                2,
                (n - 2) as nat,
            ));
            lemma_poll_settled(account, s2, a, now, 2, (n - 2) as nat);
        },
    }
}

/// A play that cannot be ingested does not keep the others from it, and a
/// failure of the live state is no failure of the poll.
pub proof fn law_poll_is_robust(
    account: ConnectedAccount<Seq<char>>,
    step: PollState,
    now: Timestamp,
    one: Result<i64, IngestError<Seq<char>>>,
    other: Result<i64, IngestError<Seq<char>>>,
    played: Result<(), Seq<char>>,
)
    ensures
        poll_next(account, step, PollReply::Ingested(one), now) == poll_next(
            account,
            step,
            PollReply::Ingested(other),
            now,
        ),
        step is NowPlaying ==> poll_next(account, step, PollReply::NowPlaying(played), now) == (
        PollState::Done { result: Ok(()) }),
{
}

/// Every play that was fetched is ingested, each once and in its order: the
/// machine asks for the one at `i` right after the one at `i - 1`.
pub proof fn law_every_play_is_ingested(
    account: ConnectedAccount<Seq<char>>,
    a: PollAnswers,
    now: spec_fn(nat) -> Timestamp,
    items: Seq<RecentlyPlayedItem<Seq<char>>>,
    i: nat,
)
    requires
        a.items == Ok::<Seq<RecentlyPlayedItem<Seq<char>>>, SpotifyError<Seq<char>>>(items),
        i < items.len() <= usize::MAX,
    ensures
        poll_run(account, poll_begin(account), a, now, 0, i + 1) == (PollState::Ingest {
            inputs: listens_of(items),
            next: i as usize,
        }),
    decreases i,
{
    lemma_poll_run_steps(account, poll_begin(account), a, now, 0, i);
    if i > 0 {
        law_every_play_is_ingested(account, a, now, items, (i - 1) as nat);
    } else {
        reveal_with_fuel(poll_run, 2);
    }
}

/// The last of `n + 1` answers is given to the state that the others led to.
proof fn lemma_poll_run_steps(
    account: ConnectedAccount<Seq<char>>,
    step: PollState,
    a: PollAnswers,
    now: spec_fn(nat) -> Timestamp,
    k: nat,
    n: nat,
)
    ensures
        poll_run(account, step, a, now, k, n + 1) == ({
            let before = poll_run(account, step, a, now, k, n);
            poll_next(account, before, poll_reply(before, a), now(k + n))
        }),
    decreases n,
{
    reveal_with_fuel(poll_run, 2);
    if n > 0 {
        let next = poll_next(account, step, poll_reply(step, a), now(k));
        lemma_poll_run_steps(account, next, a, now, k + 1, (n - 1) as nat);
    }
}

/// A poll asks for what was played after the time of the poll before it.
pub proof fn law_polls_follow_on(account: ConnectedAccount<Seq<char>>, polled_at: Timestamp)
    requires
        polled_at.wf(),
    ensures
        poll_begin(ConnectedAccount { last_polled_at: Some(polled_at), ..account }) matches
            PollStep::Fetch { after_ms: Some(after_ms), .. } && after_ms == polled_at.millis(),
{
}

/// An account is noted as polled at the instant that the clock shows when the
/// poll comes to its end, whether it went well or not.
pub proof fn law_polls_are_noted_by_the_clock(
    account: ConnectedAccount<Seq<char>>,
    step: PollState,
    reply: PollAnswer,
    now: Timestamp,
)
    ensures
        !(step is MarkPolled) ==> (poll_next(account, step, reply, now) matches
            PollStep::MarkPolled { at } ==> at == now),
        !(step is MarkFailed) ==> (poll_next(account, step, reply, now) matches
            PollStep::MarkFailed { at, .. } ==> at == now),
        !(step is MarkRefused) ==> (poll_next(account, step, reply, now) matches
            PollStep::MarkRefused { at, .. } ==> at == now),
{
}

/// A play of a track of positive duration is always taken as listened to long
/// enough.
pub proof fn law_polled_plays_are_long_enough(item: RecentlyPlayedItem<Seq<char>>)
    requires
        item.duration_ms > 0,
    ensures
        scrobble::listened_enough(listen_of(item).listened_ms, listen_of(item).duration_ms),
{
    scrobble::law_full_play_is_long_enough(item.duration_ms);
}

// ---------------------------------------------------------------------------
// What is playing
// ---------------------------------------------------------------------------

/// Where the poll of what is playing stands.
#[derive(Debug, PartialEq, Eq)]
#[allow(inconsistent_fields)]
pub enum WatchStep<S = String> {
    /// Ask what is playing.
    Current { access_token: S },
    /// The access token was refused: refresh it.
    Refresh { step: RefreshStep<S> },
    /// Ask again with the new access token.
    Retry { access_token: S },
    /// Read the track that is recorded as playing.
    Existing { current: CurrentlyPlaying<S> },
    /// Resolve the catalog entries.
    Catalog { current: CurrentlyPlaying<S>, step: CatalogStep<S> },
    /// Record and publish the state.
    Live { step: LiveStep<S> },
    Done { result: Result<(), S> },
}

#[derive(Debug, PartialEq, Eq)]
pub enum WatchReply<S = String> {
    Current(Result<Option<CurrentlyPlaying<S>>, SpotifyError<S>>),
    Refresh(RefreshReply<S>),
    /// The title and the artist that are recorded.
    Existing(Result<Option<(S, S)>, S>),
    Catalog(CatalogReply<S>),
    Live(LiveReply<S>),
}

impl DeepView for WatchStep {
    type V = WatchStep<Seq<char>>;

    open spec fn deep_view(&self) -> WatchStep<Seq<char>> {
        match *self {
            WatchStep::Current { access_token } => WatchStep::Current {
                access_token: access_token@,
            },
            WatchStep::Refresh { step } => WatchStep::Refresh { step: step.deep_view() },
            WatchStep::Retry { access_token } => WatchStep::Retry { access_token: access_token@ },
            WatchStep::Existing { current } => WatchStep::Existing {
                current: current.deep_view(),
            },
            WatchStep::Catalog { current, step } => WatchStep::Catalog {
                current: current.deep_view(),
                step: step.deep_view(),
            },
            WatchStep::Live { step } => WatchStep::Live { step: step.deep_view() },
            WatchStep::Done { result } => WatchStep::Done { result: text::result_view(result) },
        }
    }
}

impl DeepView for WatchReply {
    type V = WatchReply<Seq<char>>;

    open spec fn deep_view(&self) -> WatchReply<Seq<char>> {
        match *self {
            WatchReply::Current(r) => WatchReply::Current(text::result_view(r)),
            WatchReply::Refresh(r) => WatchReply::Refresh(r.deep_view()),
            WatchReply::Existing(r) => WatchReply::Existing(text::result_view(r)),
            WatchReply::Catalog(r) => WatchReply::Catalog(r.deep_view()),
            WatchReply::Live(r) => WatchReply::Live(r.deep_view()),
        }
    }
}

/// How the poll of what is playing begins.
pub open spec fn watch_begin(
    account: ConnectedAccount<Seq<char>>,
    has_channel: bool,
) -> WatchStep<Seq<char>> {
    if has_channel {
        WatchStep::Current { access_token: account.access_token }
    } else {
        WatchStep::Done { result: Ok(()) }
    }
}

/// What follows once Spotify said what is playing.
pub open spec fn watch_current(current: Option<CurrentlyPlaying<Seq<char>>>) -> WatchStep<
    Seq<char>,
> {
    match current {
        Some(current) => WatchStep::Existing { current },
        None => WatchStep::Done { result: Ok(()) },
    }
}

/// What follows once a refresh has come so far.
pub open spec fn watch_refreshed(step: RefreshStep<Seq<char>>) -> WatchStep<Seq<char>> {
    match step {
        RefreshStep::Done { result: Ok(access_token) } => WatchStep::Retry { access_token },
        RefreshStep::Done { result: Err(error) } => WatchStep::Done { result: Err(error) },
        other => WatchStep::Refresh { step: other },
    }
}

/// The recorded track is the one that is playing, as far as normalized names
/// tell.
pub open spec fn is_recorded(
    existing: Option<(Seq<char>, Seq<char>)>,
    current: CurrentlyPlaying<Seq<char>>,
) -> bool {
    match existing {
        Some((title, artist)) => {
            &&& scrobble::normalized(title) == scrobble::normalized(current.track_title)
            &&& scrobble::normalized(artist) == scrobble::normalized(current.artist_name)
        },
        None => false,
    }
}

/// What Spotify calls the artist, album and track that are playing.
pub open spec fn playing_listen(current: CurrentlyPlaying<Seq<char>>) -> Listen<Seq<char>> {
    Listen {
        artist: current.artist_name,
        album: current.album_title,
        track: current.track_title,
        duration_ms: Some(current.duration_ms),
    }
}

fn to_listen(current: &CurrentlyPlaying) -> (res: Listen<&str>)
    ensures
        res.deep_view() == playing_listen(current.deep_view()),
{
    Listen {
        artist: current.artist_name.as_str(),
        album: ingest::optional_str(&current.album_title),
        track: current.track_title.as_str(),
        duration_ms: Some(current.duration_ms),
    }
}

/// How much of the track is left to play (ms).
pub open spec fn remaining_ms(current: CurrentlyPlaying<Seq<char>>) -> int {
    if current.duration_ms > current.progress_ms {
        current.duration_ms - current.progress_ms
    } else {
        0
    }
}

/// What follows once the catalog entries are resolved: the state expires when
/// the track has played to its end.
pub open spec fn watch_resolved(
    user_id: i64,
    current: CurrentlyPlaying<Seq<char>>,
    ids: ingest::CatalogIds,
    now: Timestamp,
) -> WatchStep<Seq<char>> {
    match time::shifted(now, remaining_ms(current)) {
        Some(expires_at) => WatchStep::Live {
            step: LiveStep::Upsert {
                row: UpsertNowPlaying {
                    user_id,
                    track_id: ids.track_id,
                    artist_id: ids.artist_id,
                    album_id: ids.album_id,
                    source: "spotify"@,
                    expires_at,
                },
            },
        },
        None => WatchStep::Done { result: Err("expiry is out of range"@) },
    }
}

/// What a failure to record or publish says.
pub open spec fn live_error_text(e: LiveError<Seq<char>>) -> Seq<char> {
    match e {
        LiveError::Db(s) => s,
        LiveError::Encode(s) => s,
        LiveError::Redis(s) => s,
    }
}

/// One step of the poll of what is playing, when the clock shows `now`.
pub open spec fn watch_next(
    account: ConnectedAccount<Seq<char>>,
    step: WatchStep<Seq<char>>,
    reply: WatchReply<Seq<char>>,
    now: Timestamp,
) -> WatchStep<Seq<char>> {
    match (step, reply) {
        (WatchStep::Current { .. }, WatchReply::Current(r)) => match r {
            Ok(current) => watch_current(current),
            Err(SpotifyError::Unauthorized) => watch_refreshed(
                accounts::refresh_begin(account.id, account.refresh_token),
            ),
            Err(e) => WatchStep::Done { result: Err(spotify::spotify_message(e)) },
        },
        (WatchStep::Refresh { step: refresh }, WatchReply::Refresh(r)) => watch_refreshed(
            accounts::refresh_next(refresh, r, now),
        ),
        (WatchStep::Retry { .. }, WatchReply::Current(r)) => match r {
            Ok(current) => watch_current(current),
            Err(e) => WatchStep::Done { result: Err(spotify::spotify_message(e)) },
        },
        (WatchStep::Existing { current }, WatchReply::Existing(r)) => match r {
            Ok(existing) => if is_recorded(existing, current) {
                WatchStep::Done { result: Ok(()) }
            } else {
                WatchStep::Catalog { current, step: ingest::catalog_begin(playing_listen(current)) }
            },
            Err(error) => WatchStep::Done { result: Err(error) },
        },
        (WatchStep::Catalog { current, step: catalog }, WatchReply::Catalog(r)) => {
            match ingest::catalog_next(playing_listen(current), catalog, r) {
                CatalogStep::Resolved { ids } => watch_resolved(account.user_id, current, ids, now),
                CatalogStep::Failed { error } => WatchStep::Done { result: Err(error) },
                other => WatchStep::Catalog { current, step: other },
            }
        },
        (WatchStep::Live { step: live }, WatchReply::Live(r)) => match live::live_next(live, r) {
            LiveStep::Done { result: Ok(()) } => WatchStep::Done { result: Ok(()) },
            LiveStep::Done { result: Err(e) } => WatchStep::Done {
                result: Err(live_error_text(e)),
            },
            other => WatchStep::Live { step: other },
        },
        _ => step,
    }
}

/// Begins to poll what an account is playing. [`advance_watch_at`] carries it
/// on. Without a channel for live updates there is nothing to do.
///
/// If what is playing differs from the recorded state, that state is updated
/// and republished over the same channel that the now-playing report uses, so
/// that the live widget works for Spotify in the same way.
pub fn poll_now_playing(account: &ConnectedAccount, has_channel: bool) -> (res: WatchStep)
    ensures
        res.deep_view() == watch_begin(account.deep_view(), has_channel),
{
    if has_channel {
        WatchStep::Current { access_token: account.access_token.clone() }
    } else {
        WatchStep::Done { result: Ok(()) }
    }
}

fn take_current(current: Option<CurrentlyPlaying>) -> (res: WatchStep)
    ensures
        res.deep_view() == watch_current(current.deep_view()),
{
    match current {
        Some(current) => WatchStep::Existing { current },
        None => WatchStep::Done { result: Ok(()) },
    }
}

fn take_refreshed(step: RefreshStep) -> (res: WatchStep)
    ensures
        res.deep_view() == watch_refreshed(step.deep_view()),
{
    match step {
        RefreshStep::Done { result: Ok(access_token) } => WatchStep::Retry { access_token },
        RefreshStep::Done { result: Err(error) } => WatchStep::Done { result: Err(error) },
        other => WatchStep::Refresh { step: other },
    }
}

/// Whether the recorded track is the one that is playing.
pub fn is_same_track(existing: &Option<(String, String)>, current: &CurrentlyPlaying) -> (res: bool)
    ensures
        res == is_recorded(existing.deep_view(), current.deep_view()),
{
    match existing {
        Some((title, artist)) => {
            scrobble::same_name(title.as_str(), current.track_title.as_str())
                && scrobble::same_name(artist.as_str(), current.artist_name.as_str())
        },
        None => false,
    }
}

fn take_entries(
    user_id: i64,
    current: CurrentlyPlaying,
    ids: ingest::CatalogIds,
    now: &Timestamp,
) -> (res: WatchStep)
    requires
        now.wf(),
        now.plain(),
    ensures
        res.deep_view() == watch_resolved(user_id, current.deep_view(), ids, *now),
{
    let left: i64 = if current.duration_ms > current.progress_ms {
        current.duration_ms as i64 - current.progress_ms as i64
    } else {
        0
    };
    match time::shift(now, left) {
        Some(expires_at) => WatchStep::Live {
            step: LiveStep::Upsert {
                row: UpsertNowPlaying {
                    user_id,
                    track_id: ids.track_id,
                    artist_id: ids.artist_id,
                    album_id: ids.album_id,
                    source: "spotify".to_owned(),
                    expires_at,
                },
            },
        },
        None => WatchStep::Done { result: Err("expiry is out of range".to_owned()) },
    }
}

/// Takes the answer to the open question of the poll of what is playing, when
/// the clock shows `now`.
pub fn advance_watch_at(
    account: &ConnectedAccount,
    step: WatchStep,
    reply: WatchReply,
    now: &Timestamp,
) -> (res: WatchStep)
    requires
        now.wf(),
        now.plain(),
    ensures
        res.deep_view() == watch_next(
            account.deep_view(),
            step.deep_view(),
            reply.deep_view(),
            *now,
        ),
{
    match (step, reply) {
        (WatchStep::Current { .. }, WatchReply::Current(r)) => match r {
            Ok(current) => take_current(current),
            Err(SpotifyError::Unauthorized) => take_refreshed(
                accounts::refresh(account.id, &account.refresh_token),
            ),
            Err(e) => WatchStep::Done { result: Err(e.message()) },
        },
        (WatchStep::Refresh { step: refresh }, WatchReply::Refresh(r)) => take_refreshed(
            accounts::advance_refresh_at(refresh, r, now),
        ),
        (WatchStep::Retry { .. }, WatchReply::Current(r)) => match r {
            Ok(current) => take_current(current),
            Err(e) => WatchStep::Done { result: Err(e.message()) },
        },
        (WatchStep::Existing { current }, WatchReply::Existing(r)) => match r {
            Ok(existing) => if is_same_track(&existing, &current) {
                WatchStep::Done { result: Ok(()) }
            } else {
                let catalog = ingest::resolve_catalog(&to_listen(&current));
                WatchStep::Catalog { current, step: catalog }
            },
            Err(error) => WatchStep::Done { result: Err(error) },
        },
        (WatchStep::Catalog { current, step: catalog }, WatchReply::Catalog(r)) => {
            match ingest::advance_catalog(&to_listen(&current), catalog, r) {
                CatalogStep::Resolved { ids } => take_entries(account.user_id, current, ids, now),
                CatalogStep::Failed { error } => WatchStep::Done { result: Err(error) },
                other => WatchStep::Catalog { current, step: other },
            }
        },
        (WatchStep::Live { step: live }, WatchReply::Live(r)) => match live::advance_live(
            live,
            r,
        ) {
            LiveStep::Done { result: Ok(()) } => WatchStep::Done { result: Ok(()) },
            LiveStep::Done { result: Err(e) } => WatchStep::Done {
                result: Err(
                    match e {
                        LiveError::Db(s) => s,
                        LiveError::Encode(s) => s,
                        LiveError::Redis(s) => s,
                    },
                ),
            },
            other => WatchStep::Live { step: other },
        },
        (step, _) => step,
    }
}

/// Takes the answer to the open question of the poll of what is playing.
pub fn advance_watch(account: &ConnectedAccount, step: WatchStep, reply: WatchReply) -> (res:
    WatchStep)
    ensures
        exists|now: Timestamp|
            now.wf() && now.plain() && now.secs >= 0 && res.deep_view() == #[trigger] watch_next(
                account.deep_view(),
                step.deep_view(),
                reply.deep_view(),
                now,
            ),
{
    let now = time::now();
    advance_watch_at(account, step, reply, &now)
}

/// The request that answers the question which is open in `step`, where it is one
/// for what the account is playing.
pub open spec fn watch_asks(step: WatchStep<Seq<char>>) -> Option<spotify::SpotifyRequestView> {
    match step {
        WatchStep::Current { access_token } | WatchStep::Retry { access_token } => Some(
            spotify::SpotifyRequest::Api { get: spotify::currently_playing_get(), access_token },
        ),
        _ => None,
    }
}

/// The request that answers the open question of the poll of what is playing.
pub fn watch_request(step: &WatchStep) -> (res: Option<spotify::SpotifyRequest>)
    ensures
        res.deep_view() == watch_asks(step.deep_view()),
{
    match step {
        WatchStep::Current { access_token } | WatchStep::Retry { access_token } => Some(
            spotify::SpotifyRequest::Api {
                get: spotify::currently_playing_request(),
                access_token: access_token.clone(),
            },
        ),
        _ => None,
    }
}

/// What would answer each question of the poll of what is playing.
pub struct WatchAnswers {
    pub current: Result<Option<CurrentlyPlaying<Seq<char>>>, SpotifyError<Seq<char>>>,
    pub refresh: RefreshAnswers,
    pub retried: Result<Option<CurrentlyPlaying<Seq<char>>>, SpotifyError<Seq<char>>>,
    pub existing: Result<Option<(Seq<char>, Seq<char>)>, Seq<char>>,
    pub catalog: CatalogAnswers,
    pub live: LiveAnswers,
}

/// The answer to the question that is open in `step`.
pub open spec fn watch_reply(step: WatchStep<Seq<char>>, a: WatchAnswers) -> WatchReply<Seq<char>> {
    match step {
        WatchStep::Current { .. } => WatchReply::Current(a.current),
        WatchStep::Refresh { step } => WatchReply::Refresh(
            accounts::refresh_reply(step, a.refresh),
        ),
        WatchStep::Retry { .. } => WatchReply::Current(a.retried),
        WatchStep::Existing { .. } => WatchReply::Existing(a.existing),
        WatchStep::Catalog { step, .. } => WatchReply::Catalog(
            ingest::catalog_reply(step, a.catalog),
        ),
        WatchStep::Live { step } => WatchReply::Live(live::live_reply(step, a.live)),
        WatchStep::Done { .. } => WatchReply::Existing(a.existing),
    }
}

/// What is playing, as far as Spotify could be asked. The clock shows `now` when
/// refreshed tokens come in.
pub open spec fn watch_found(
    account: ConnectedAccount<Seq<char>>,
    a: WatchAnswers,
    now: Timestamp,
) -> Result<Option<CurrentlyPlaying<Seq<char>>>, Seq<char>> {
    match a.current {
        Ok(current) => Ok(current),
        Err(SpotifyError::Unauthorized) => match (
            accounts::refresh_outcome(account.id, account.refresh_token, a.refresh, now),
            a.retried,
        ) {
            (Err(error), _) => Err(error),
            (Ok(_), Err(e)) => Err(spotify::spotify_message(e)),
            (Ok(_), Ok(current)) => Ok(current),
        },
        Err(e) => Err(spotify::spotify_message(e)),
    }
}

/// What comes of recording a track that is playing. The clock shows `now` when
/// the catalog entries are resolved.
pub open spec fn watch_recorded(
    current: CurrentlyPlaying<Seq<char>>,
    a: WatchAnswers,
    now: Timestamp,
) -> Result<(), Seq<char>> {
    match ingest::catalog_outcome(current.album_title is Some, a.catalog) {
        Err(error) => Err(error),
        Ok(_) => if time::shifted(now, remaining_ms(current)) is None {
            Err("expiry is out of range"@)
        } else {
            match live::live_outcome(a.live) {
                Ok(()) => Ok(()),
                Err(e) => Err(live_error_text(e)),
            }
        },
    }
}

/// What comes of the poll of what is playing. The clock shows `granted` when
/// refreshed tokens come in, and `resolved(c)` when the catalog entries of the
/// track `c` are resolved.
pub open spec fn watch_outcome(
    account: ConnectedAccount<Seq<char>>,
    a: WatchAnswers,
    granted: Timestamp,
    resolved: spec_fn(CurrentlyPlaying<Seq<char>>) -> Timestamp,
) -> Result<(), Seq<char>> {
    match (watch_found(account, a, granted), a.existing) {
        (Err(error), _) => Err(error),
        (Ok(None), _) => Ok(()),
        (Ok(Some(_)), Err(error)) => Err(error),
        (Ok(Some(current)), Ok(existing)) => if is_recorded(existing, current) {
            Ok(())
        } else {
            watch_recorded(current, a, resolved(current))
        },
    }
}

/// The number of the answer that says what is recorded as playing: the second,
/// unless a refresh and a second request came before it.
pub open spec fn existing_at(a: WatchAnswers) -> nat {
    if a.current matches Err(e) && e is Unauthorized {
        4
    } else {
        1
    }
}

/// The number of the answer that resolves the catalog entries of `current`, where
/// the recorded state came in by number `existing`.
pub open spec fn resolved_at(existing: nat, current: CurrentlyPlaying<Seq<char>>) -> nat {
    existing + ingest::catalog_answers(current.album_title is Some)
}

/// The state after `n` questions were answered. `now(i)` is what the clock shows
/// at answer number `i`; the first of these answers is number `k`.
pub open spec fn watch_run(
    account: ConnectedAccount<Seq<char>>,
    step: WatchStep<Seq<char>>,
    a: WatchAnswers,
    now: spec_fn(nat) -> Timestamp,
    k: nat,
    n: nat,
) -> WatchStep<Seq<char>>
    decreases n,
{
    if n == 0 {
        step
    } else {
        watch_run(
            account,
            watch_next(account, step, watch_reply(step, a), now(k)),
            a,
            now,
            k + 1,
            (n - 1) as nat,
        )
    }
}

proof fn lemma_watch_settled(
    account: ConnectedAccount<Seq<char>>,
    step: WatchStep<Seq<char>>,
    a: WatchAnswers,
    now: spec_fn(nat) -> Timestamp,
    k: nat,
    n: nat,
)
    requires
        step is Done,
    ensures
        watch_run(account, step, a, now, k, n) == step,
    decreases n,
{
    if n > 0 {
        lemma_watch_settled(account, step, a, now, k + 1, (n - 1) as nat);
    }
}

proof fn lemma_watch_from_existing(
    account: ConnectedAccount<Seq<char>>,
    current: CurrentlyPlaying<Seq<char>>,
    a: WatchAnswers,
    now: spec_fn(nat) -> Timestamp,
    k: nat,
    n: nat,
)
    requires
        n >= 8,
    ensures
        watch_run(account, WatchStep::Existing { current }, a, now, k, n) == (WatchStep::<
            Seq<char>,
        >::Done {
            result: match a.existing {
                Err(error) => Err(error),
                Ok(existing) => if is_recorded(existing, current) {
                    Ok(())
                } else {
                    watch_recorded(current, a, now(resolved_at(k, current)))
                },
            },
        }),
{
    reveal_with_fuel(watch_run, 9);
    let s0 = WatchStep::<Seq<char>>::Existing { current };
    let s1 = watch_next(account, s0, watch_reply(s0, a), now(k));
    let s2 = watch_next(account, s1, watch_reply(s1, a), now(k + 1));
    let s3 = watch_next(account, s2, watch_reply(s2, a), now(k + 2));
    let s4 = watch_next(account, s3, watch_reply(s3, a), now(k + 3));
    let s5 = watch_next(account, s4, watch_reply(s4, a), now(k + 4));
    let s6 = watch_next(account, s5, watch_reply(s5, a), now(k + 5));
    let s7 = watch_next(account, s6, watch_reply(s6, a), now(k + 6));
    let s8 = watch_next(account, s7, watch_reply(s7, a), now(k + 7));
    assert(s8 is Done);
    lemma_watch_settled(account, s8, a, now, k + 8, (n - 8) as nat);
}

proof fn lemma_watch_from_current(
    account: ConnectedAccount<Seq<char>>,
    current: Option<CurrentlyPlaying<Seq<char>>>,
    a: WatchAnswers,
    now: spec_fn(nat) -> Timestamp,
    k: nat,
    n: nat,
)
    requires
        n >= 8,
        watch_found(account, a, now(1)) == Ok::<
            Option<CurrentlyPlaying<Seq<char>>>,
            Seq<char>,
        >(current),
    ensures
        watch_run(account, watch_current(current), a, now, k, n) == (WatchStep::<Seq<char>>::Done {
            result: watch_outcome(
                account,
                a,
                now(1),
                |c: CurrentlyPlaying<Seq<char>>| now(resolved_at(k, c)),
            ),
        }),
{
    match current {
        Some(current) => {
            lemma_watch_from_existing(account, current, a, now, k, n);
        },
        None => {
            lemma_watch_settled(account, watch_current(current), a, now, k, n);
        },
    }
}

proof fn lemma_watch_from_refresh(
    account: ConnectedAccount<Seq<char>>,
    a: WatchAnswers,
    now: spec_fn(nat) -> Timestamp,
    n: nat,
)
    requires
        a.current matches Err(e) && e is Unauthorized,
        n >= 11,
    ensures
        watch_run(
            account,
            watch_refreshed(accounts::refresh_begin(account.id, account.refresh_token)),
            a,
            now,
            1,
            n,
        ) == (WatchStep::<Seq<char>>::Done {
            result: watch_outcome(
                account,
                a,
                now(1),
                |c: CurrentlyPlaying<Seq<char>>| now(resolved_at(4, c)),
            ),
        }),
{
    reveal_with_fuel(watch_run, 4);
    let s0 = watch_refreshed(accounts::refresh_begin(account.id, account.refresh_token));
    let s1 = watch_next(account, s0, watch_reply(s0, a), now(1));
    let s2 = watch_next(account, s1, watch_reply(s1, a), now(2));
    let s3 = watch_next(account, s2, watch_reply(s2, a), now(3));
    accounts::law_refresh(account.id, account.refresh_token, a.refresh, now, 1);
    match accounts::refresh_outcome(account.id, account.refresh_token, a.refresh, now(1)) {
        Ok(access_token) => {
            assert(s2 == (WatchStep::<Seq<char>>::Retry { access_token }));
            match a.retried {
                Ok(current) => {
                    assert(s3 == watch_current(current));
                    lemma_watch_from_current(account, current, a, now, 4, (n - 3) as nat);
                },
                Err(e) => {
                    lemma_watch_settled(account, s3, a, now, 4, (n - 3) as nat);
                },
            }
        },
        Err(error) => {
            assert(s2 == (WatchStep::<Seq<char>>::Done { result: Err(error) }));
            lemma_watch_settled(account, s2, a, now, 3, (n - 2) as nat);
        },
    }
}

/// Twelve answers bring every poll of what is playing to the outcome that they
/// determine, however the clock goes: what counts is what it shows at the second
/// answer, by which refreshed tokens come in, and at the one that resolves the
/// catalog entries.
pub proof fn law_watch(
    account: ConnectedAccount<Seq<char>>,
    a: WatchAnswers,
    now: spec_fn(nat) -> Timestamp,
    n: nat,
)
    requires
        n >= 12,
    ensures
        watch_run(account, watch_begin(account, true), a, now, 0, n) == (WatchStep::<
            Seq<char>,
        >::Done {
            result: watch_outcome(
                account,
                a,
                now(1),
                |c: CurrentlyPlaying<Seq<char>>| now(resolved_at(existing_at(a), c)),
            ),
        }),
{
    let s0 = watch_begin(account, true);
    let s1 = watch_next(account, s0, watch_reply(s0, a), now(0));
    assert(watch_run(account, s0, a, now, 0, n) == watch_run(
        account,
        s1,
        a,
        now,
        1,
        (n - 1) as nat,
    ));
    match a.current {
        Ok(current) => {
            lemma_watch_from_current(account, current, a, now, 1, (n - 1) as nat);
        },
        Err(SpotifyError::Unauthorized) => {
            lemma_watch_from_refresh(account, a, now, (n - 1) as nat);
        },
        Err(e) => {
            lemma_watch_settled(account, s1, a, now, 1, (n - 1) as nat);
        },
    }
}

/// While the recorded track keeps playing, nothing is written or published:
/// its `started_at` stands.
pub proof fn law_same_track_changes_nothing(
    account: ConnectedAccount<Seq<char>>,
    current: CurrentlyPlaying<Seq<char>>,
    title: Seq<char>,
    artist: Seq<char>,
    now: Timestamp,
)
    requires
        scrobble::normalized(title) == scrobble::normalized(current.track_title),
        scrobble::normalized(artist) == scrobble::normalized(current.artist_name),
    ensures
        watch_next(
            account,
            WatchStep::Existing { current },
            WatchReply::Existing(Ok(Some((title, artist)))),
            now,
        ) == (WatchStep::<Seq<char>>::Done { result: Ok(()) }),
{
}

/// The catalog is asked for the artist, album and track that are playing, and
/// for no other.
pub proof fn law_watch_asks_for_what_is_playing(
    account: ConnectedAccount<Seq<char>>,
    step: WatchStep<Seq<char>>,
    reply: WatchReply<Seq<char>>,
    now: Timestamp,
)
    ensures
        (step matches WatchStep::Catalog { current, step } ==> ingest::asks_for(
            playing_listen(current),
            step,
        )) ==> (watch_next(account, step, reply, now) matches WatchStep::Catalog { current, step }
            ==> ingest::asks_for(playing_listen(current), step)),
{
}

/// The live state of an account is that of its user, and it is published on
/// that user's channel.
pub proof fn law_watch_publishes_on_own_channel(
    user_id: i64,
    current: CurrentlyPlaying<Seq<char>>,
    ids: ingest::CatalogIds,
    now: Timestamp,
)
    ensures
        watch_resolved(user_id, current, ids, now) matches WatchStep::Live { step } ==> {
            let read = live::live_next(step, LiveReply::Upserted(Ok(())));
            live::live_next(read, LiveReply::Read(Ok(true))) == (LiveStep::<Seq<char>>::Publish {
                channel: live::channel(user_id),
            })
        },
{
}

// ---------------------------------------------------------------------------
// Laws
// ---------------------------------------------------------------------------

/// A round polls at most 25 accounts, and comes every 45 seconds.
pub proof fn law_rounds()
    ensures
        BATCH_SIZE == 25,
        POLL_INTERVAL_SECS == 45,
{
}

/// The plays of an account become listens one by one and in order: of the same
/// track, at the same time, from beginning to end, and from Spotify.
pub proof fn law_plays_become_listens(items: Seq<RecentlyPlayedItem<Seq<char>>>, i: int)
    requires
        0 <= i < items.len(),
    ensures
        listens_of(items).len() == items.len(),
        ({
            let play = items[i];
            let listen = listens_of(items)[i];
            &&& listen.track_title == play.track_title
            &&& listen.artist_name == play.artist_name
            &&& listen.album_title == play.album_title
            &&& listen.played_at == play.played_at
            &&& listen.duration_ms == Some(play.duration_ms)
            &&& listen.listened_ms == Some(play.duration_ms)
            &&& listen.source == "spotify"@
        }),
{
}

/// A poll asks, under the access token of the account, for what was played since
/// the poll before, and for everything where there was none.
pub proof fn law_polls_ask_for_what_is_new(account: ConnectedAccount<Seq<char>>)
    ensures
        poll_begin(account) matches PollStep::Fetch { access_token, after_ms } && {
            &&& access_token == account.access_token
            &&& account.last_polled_at is None ==> after_ms is None
            &&& account.last_polled_at matches Some(at) ==> (at.wf() ==> (after_ms matches Some(
                after,
            ) && after == at.secs * 1000 + at.nanos / 1_000_000))
        },
{
}

/// A poll fetches the recent plays, twice where the first attempt was refused,
/// and asks nothing else for them.
pub proof fn law_what_polls_ask_of_spotify(
    step: PollState,
    access_token: Seq<char>,
    after_ms: Option<i64>,
)
    ensures
        poll_asks(PollStep::Fetch { access_token, after_ms }) == Some(
            spotify::SpotifyRequestView::Api {
                get: spotify::recently_played_get(after_ms),
                access_token,
            },
        ),
        poll_asks(PollStep::Retry { access_token, after_ms }) == poll_asks(
            PollStep::Fetch { access_token, after_ms },
        ),
        !(step is Fetch) && !(step is Retry) ==> poll_asks(step) is None,
{
}

/// A refused access token is refreshed, and the same plays are then asked for
/// under the new one. A token that cannot be refreshed, or is refused again, and
/// any other failure of the fetch, is noted as what it is.
pub proof fn law_refused_tokens_are_refreshed(
    account: ConnectedAccount<Seq<char>>,
    fetch: PollState,
    retry: PollState,
    token: Seq<char>,
    granted: Seq<char>,
    e: SpotifyError<Seq<char>>,
    error: Seq<char>,
    now: Timestamp,
)
    requires
        fetch is Fetch,
        retry is Retry,
    ensures
        account.refresh_token == Some(token) ==> poll_next(
            account,
            fetch,
            PollReply::Items(Err(SpotifyError::Unauthorized)),
            now,
        ) == (PollState::Refresh { step: RefreshStep::Request { refresh_token: token } }),
        poll_refreshed(account, RefreshStep::Done { result: Ok(granted) }, now) == (
        PollState::Retry {
            access_token: granted,
            after_ms: match account.last_polled_at {
                Some(at) => Some(at.millis() as i64),
                None => None,
            },
        }),
        poll_refreshed(account, RefreshStep::Done { result: Err(error) }, now) == (
        PollState::MarkRefused { error, at: now }),
        poll_next(account, retry, PollReply::Items(Err(e)), now) == (PollState::MarkRefused {
            error: spotify::spotify_message(e),
            at: now,
        }),
        e !is Unauthorized ==> poll_next(account, fetch, PollReply::Items(Err(e)), now) == (
        PollState::MarkFailed { error: spotify::spotify_message(e), at: now }),
{
}

/// A poll that got its plays ingests them, if there are any, and is then noted to
/// have gone well; after that, what is playing now is asked for. One that failed
/// ends with its failure once it is noted.
pub proof fn law_the_end_of_a_poll(
    account: ConnectedAccount<Seq<char>>,
    items: Seq<RecentlyPlayedItem<Seq<char>>>,
    fetch: PollState,
    at: Timestamp,
    error: Seq<char>,
    db: Seq<char>,
    marked: Result<(), Seq<char>>,
    now: Timestamp,
)
    requires
        fetch is Fetch || fetch is Retry,
    ensures
        items.len() > 0 ==> poll_next(account, fetch, PollReply::Items(Ok(items)), now) == (
        PollState::Ingest { inputs: listens_of(items), next: 0 }),
        items.len() == 0 ==> poll_next(account, fetch, PollReply::Items(Ok(items)), now) == (
        PollState::MarkPolled { at: now }),
        poll_next(account, PollStep::MarkPolled { at }, PollReply::Marked(Ok(())), now) == (
        PollState::NowPlaying),
        poll_next(account, PollStep::MarkPolled { at }, PollReply::Marked(Err(db)), now) == (
        PollState::Done { result: Err(db) }),
        poll_next(account, PollStep::MarkFailed { error, at }, PollReply::Marked(Ok(())), now) == (
        PollState::Done { result: Err(error) }),
        poll_next(account, PollStep::MarkFailed { error, at }, PollReply::Marked(Err(db)), now) == (
        PollState::Done { result: Err(db) }),
        poll_next(account, PollStep::MarkRefused { error, at }, PollReply::Marked(marked), now) == (
        PollState::Done { result: Err(error) }),
{
}

/// The plays that count are those of the first fetch; where its token was refused,
/// those of the second, under a refreshed token. A poll comes off exactly when
/// there are such plays and it could be noted.
pub proof fn law_poll_outcomes(
    account: ConnectedAccount<Seq<char>>,
    a: PollAnswers,
    now: Timestamp,
)
    ensures
        ({
            let found = poll_items(account, a, now);
            let refused = a.items matches Err(e) && e is Unauthorized;
            let refreshed = accounts::refresh_outcome(
                account.id,
                account.refresh_token,
                a.refresh,
                now,
            );
            &&& found is Ok <==> a.items is Ok || (refused && refreshed is Ok && a.retried is Ok)
            &&& a.items is Ok ==> (found matches Ok(plays) && plays == a.items->Ok_0)
            &&& refused && found is Ok ==> found->Ok_0 == a.retried->Ok_0
            &&& refused ==> (refreshed matches Err(error) ==> found == Err::<
                Seq<RecentlyPlayedItem<Seq<char>>>,
                Seq<char>,
            >(error))
            &&& poll_outcome(account, a, now) is Ok <==> found is Ok && a.marked is Ok
            &&& found matches Err(error) ==> poll_outcome(account, a, now) == Err::<
                (),
                Seq<char>,
            >(error)
            &&& found is Ok ==> poll_outcome(account, a, now) == a.marked
        }),
{
}

/// What is playing is asked for under the access token of the account, where there
/// is a channel to publish it on, and under a refreshed one where that was refused.
pub proof fn law_what_is_playing_is_asked_for(
    account: ConnectedAccount<Seq<char>>,
    access_token: Seq<char>,
    current: WatchStep<Seq<char>>,
    token: Seq<char>,
    error: Seq<char>,
    step: WatchStep<Seq<char>>,
    now: Timestamp,
)
    requires
        current is Current,
    ensures
        watch_begin(account, true) == (WatchStep::<Seq<char>>::Current {
            access_token: account.access_token,
        }),
        watch_begin(account, false) == (WatchStep::<Seq<char>>::Done { result: Ok(()) }),
        watch_asks(WatchStep::Current { access_token }) == Some(
            spotify::SpotifyRequestView::Api {
                get: spotify::currently_playing_get(),
                access_token,
            },
        ),
        watch_asks(WatchStep::Retry { access_token }) == watch_asks(
            WatchStep::Current { access_token },
        ),
        !(step is Current) && !(step is Retry) ==> watch_asks(step) is None,
        account.refresh_token == Some(token) ==> watch_next(
            account,
            current,
            WatchReply::Current(Err(SpotifyError::Unauthorized)),
            now,
        ) == (WatchStep::<Seq<char>>::Refresh {
            step: RefreshStep::Request { refresh_token: token },
        }),
        watch_refreshed(RefreshStep::Done { result: Ok(access_token) }) == (WatchStep::<
            Seq<char>,
        >::Retry { access_token }),
        watch_refreshed(RefreshStep::Done { result: Err(error) }) == (WatchStep::<
            Seq<char>,
        >::Done { result: Err(error) }),
{
}

/// The recorded track is the one that is playing exactly when its title and its
/// artist have the same names, once normalized.
pub proof fn law_recorded_tracks(
    title: Seq<char>,
    artist: Seq<char>,
    current: CurrentlyPlaying<Seq<char>>,
)
    ensures
        !is_recorded(None, current),
        is_recorded(Some((title, artist)), current) <==> scrobble::normalized(title)
            == scrobble::normalized(current.track_title) && scrobble::normalized(artist)
            == scrobble::normalized(current.artist_name),
{
}

/// A track that is not recorded yet is looked up by the names that Spotify gives;
/// nothing is done where nothing is playing.
pub proof fn law_new_tracks_are_resolved(
    account: ConnectedAccount<Seq<char>>,
    current: CurrentlyPlaying<Seq<char>>,
    existing: Option<(Seq<char>, Seq<char>)>,
    asked: WatchStep<Seq<char>>,
    now: Timestamp,
)
    requires
        asked is Current || asked is Retry,
    ensures
        watch_next(account, asked, WatchReply::Current(Ok(None)), now) == (WatchStep::<
            Seq<char>,
        >::Done { result: Ok(()) }),
        watch_next(account, asked, WatchReply::Current(Ok(Some(current))), now) == (WatchStep::<
            Seq<char>,
        >::Existing { current }),
        !is_recorded(existing, current) ==> watch_next(
            account,
            WatchStep::Existing { current },
            WatchReply::Existing(Ok(existing)),
            now,
        ) == (WatchStep::<Seq<char>>::Catalog {
            current,
            step: CatalogStep::Artist { name: current.artist_name },
        }),
        playing_listen(current) == (Listen {
            artist: current.artist_name,
            album: current.album_title,
            track: current.track_title,
            duration_ms: Some(current.duration_ms),
        }),
{
}

/// What is recorded of a track that is playing: for its user, the entries that it
/// resolved to, from Spotify, until what is left of it has played.
pub proof fn law_watched_states(
    user_id: i64,
    current: CurrentlyPlaying<Seq<char>>,
    ids: ingest::CatalogIds,
    now: Timestamp,
)
    ensures
        ({
            let left: int = if current.progress_ms < current.duration_ms {
                current.duration_ms - current.progress_ms
            } else {
                0
            };
            let end = now.total_nanos() + left * 1_000_000;
            &&& watch_resolved(user_id, current, ids, now) is Live <==> time::MIN_SECS
                * 1_000_000_000 <= end < (time::MAX_SECS + 1) * 1_000_000_000
            &&& watch_resolved(user_id, current, ids, now) matches WatchStep::Live { step } ==> {
                &&& step matches LiveStep::Upsert { row }
                &&& row.user_id == user_id
                &&& row.track_id == ids.track_id
                &&& row.artist_id == ids.artist_id
                &&& row.album_id == ids.album_id
                &&& row.source == "spotify"@
                &&& row.expires_at.total_nanos() == end
            }
        }),
{
    time::law_shifts_are_exact(now, remaining_ms(current));
}

/// The state that an account's plays set is that of the account's user.
pub proof fn law_watched_states_are_the_users_own(
    account: ConnectedAccount<Seq<char>>,
    current: CurrentlyPlaying<Seq<char>>,
    ids: ingest::CatalogIds,
    queued: Result<(), Seq<char>>,
    now: Timestamp,
)
    ensures
        watch_next(
            account,
            WatchStep::Catalog { current, step: CatalogStep::Enqueue { ids } },
            WatchReply::Catalog(CatalogReply::Enqueued(queued)),
            now,
        ) == watch_resolved(account.user_id, current, ids, now),
{
}

/// How the poll of what is playing ends: well where nothing is playing, or what is
/// playing is recorded or could be; else with what went wrong.
pub proof fn law_watch_outcomes(
    account: ConnectedAccount<Seq<char>>,
    a: WatchAnswers,
    granted: Timestamp,
    resolved: spec_fn(CurrentlyPlaying<Seq<char>>) -> Timestamp,
)
    ensures
        ({
            let outcome = watch_outcome(account, a, granted, resolved);
            let found = watch_found(account, a, granted);
            let refused = a.current matches Err(e) && e is Unauthorized;
            let refreshed = accounts::refresh_outcome(
                account.id,
                account.refresh_token,
                a.refresh,
                granted,
            );
            &&& found is Ok <==> a.current is Ok || (refused && refreshed is Ok && a.retried is Ok)
            &&& a.current is Ok ==> (found matches Ok(playing) && playing == a.current->Ok_0)
            &&& refused && found is Ok ==> found->Ok_0 == a.retried->Ok_0
            &&& a.current matches Err(e) ==> (e !is Unauthorized ==> found == Err::<
                Option<CurrentlyPlaying<Seq<char>>>,
                Seq<char>,
            >(spotify::spotify_message(e)))
            &&& found matches Err(error) ==> outcome == Err::<(), Seq<char>>(error)
            &&& found matches Ok(None) ==> outcome is Ok
            &&& found matches Ok(Some(current)) ==> match a.existing {
                Err(error) => outcome == Err::<(), Seq<char>>(error),
                Ok(existing) => if is_recorded(existing, current) {
                    outcome is Ok
                } else {
                    outcome is Ok <==> ingest::catalog_outcome(
                        current.album_title is Some,
                        a.catalog,
                    ) is Ok && time::shifted(resolved(current), remaining_ms(current)) is Some
                        && live::live_outcome(a.live) is Ok
                },
            }
        }),
{
}

/// What a failure to record or publish what is playing says.
pub proof fn law_watch_failures(s: Seq<char>)
    ensures
        live_error_text(LiveError::Db(s)) == s,
        live_error_text(LiveError::Encode(s)) == s,
        live_error_text(LiveError::Redis(s)) == s,
{
}

/// Accounts are polled exactly where both Spotify credentials are configured.
pub proof fn law_when_accounts_are_polled(
    client_id: &Option<String>,
    client_secret: &Option<String>,
    res: bool,
)
    requires
        call_ensures(is_enabled, (client_id, client_secret), res),
    ensures
        res <==> *client_id is Some && *client_secret is Some,
{
}

/// A track that is playing but whose entries cannot be resolved, or whose state
/// cannot be read or recorded, is not recorded; what went wrong is told.
pub proof fn law_watches_that_fail(
    account: ConnectedAccount<Seq<char>>,
    current: CurrentlyPlaying<Seq<char>>,
    asked: WatchStep<Seq<char>>,
    name: Seq<char>,
    row: UpsertNowPlaying<Seq<char>>,
    e: SpotifyError<Seq<char>>,
    error: Seq<char>,
    now: Timestamp,
)
    requires
        asked is Current && !(e is Unauthorized) || asked is Retry,
    ensures
        watch_next(account, asked, WatchReply::Current(Err(e)), now) == (WatchStep::<
            Seq<char>,
        >::Done { result: Err(spotify::spotify_message(e)) }),
        watch_next(
            account,
            WatchStep::Existing { current },
            WatchReply::Existing(Err(error)),
            now,
        ) == (WatchStep::<Seq<char>>::Done { result: Err(error) }),
        watch_next(
            account,
            WatchStep::Catalog { current, step: CatalogStep::Artist { name } },
            WatchReply::Catalog(CatalogReply::Artist(Err(error))),
            now,
        ) == (WatchStep::<Seq<char>>::Done { result: Err(error) }),
        watch_next(
            account,
            WatchStep::Live { step: LiveStep::Upsert { row } },
            WatchReply::Live(LiveReply::Upserted(Err(error))),
            now,
        ) == (WatchStep::<Seq<char>>::Done { result: Err(error) }),
{
}

} // verus!
