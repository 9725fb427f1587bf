//! The live now-playing state: recording it, publishing it, and streaming it
//! to subscribers.

use crate::errors::AppError;
use crate::ingest;
use crate::ingest::{CatalogAnswers, CatalogIds, CatalogReply, CatalogStep, Listen};
use crate::models::NowPlayingRich;
use crate::text;
use crate::time;
use crate::time::Timestamp;
use vstd::prelude::*;
use vstd::string::*;

verus! {

/// How long a track of unknown duration is taken to play (ms).
pub const DEFAULT_DURATION_MS: i32 = 300_000;

/// The Redis channel of a user's now-playing state.
pub open spec fn channel(user_id: i64) -> Seq<char> {
    "now_playing:"@ + text::decimal(user_id as int)
}

/// The Redis channel of a user's now-playing state.
pub fn channel_name(user_id: i64) -> (res: String)
    ensures
        res@ == channel(user_id),
{
    text::join2("now_playing:", text::i64_to_text(user_id).as_str())
}

/// No two users share a channel.
pub proof fn law_channels_are_distinct(a: i64, b: i64)
    requires
        channel(a) == channel(b),
    ensures
        a == b,
{
    let prefix = "now_playing:"@;
    assert(text::decimal(a as int) =~= channel(a).subrange(
        prefix.len() as int,
        channel(a).len() as int,
    ));
    assert(text::decimal(b as int) =~= channel(b).subrange(
        prefix.len() as int,
        channel(b).len() as int,
    ));
    text::law_decimal_reads_back(a);
    text::law_decimal_reads_back(b);
}

// ---------------------------------------------------------------------------
// Recording and publishing
// ---------------------------------------------------------------------------

/// Parameters required to upsert the current now-playing state for a user.
#[derive(Debug, PartialEq, Eq)]
pub struct UpsertNowPlaying<S = String> {
    pub user_id: i64,
    pub track_id: i64,
    pub artist_id: i64,
    pub album_id: Option<i64>,
    pub source: S,
    /// Timestamp at which this now-playing entry should be considered stale.
    pub expires_at: Timestamp,
}

impl DeepView for UpsertNowPlaying {
    type V = UpsertNowPlaying<Seq<char>>;

    open spec fn deep_view(&self) -> UpsertNowPlaying<Seq<char>> {
        UpsertNowPlaying {
            user_id: self.user_id,
            track_id: self.track_id,
            artist_id: self.artist_id,
            album_id: self.album_id,
            source: self.source@,
            expires_at: self.expires_at,
        }
    }
}

/// What went wrong while the state was recorded or published.
#[derive(Debug, PartialEq, Eq)]
pub enum LiveError<S = String> {
    Db(S),
    /// The state could not be put into JSON.
    Encode(S),
    Redis(S),
}

/// Where recording and publishing stand.
#[derive(Debug, PartialEq, Eq)]
pub enum LiveStep<S = String> {
    /// Store the state.
    Upsert { row: UpsertNowPlaying<S> },
    /// Read it back with names and artwork.
    Read { user_id: i64 },
    /// Publish what was read on the channel.
    Publish { channel: S },
    Done { result: Result<(), LiveError<S>> },
}

/// An answer from the database or from Redis.
#[derive(Debug, PartialEq, Eq)]
pub enum LiveReply<S = String> {
    Upserted(Result<(), S>),
    /// Whether there is a state to publish.
    Read(Result<bool, S>),
    Published(Result<(), LiveError<S>>),
}

impl DeepView for LiveError {
    type V = LiveError<Seq<char>>;

    open spec fn deep_view(&self) -> LiveError<Seq<char>> {
        match *self {
            LiveError::Db(s) => LiveError::Db(s@),
            LiveError::Encode(s) => LiveError::Encode(s@),
            LiveError::Redis(s) => LiveError::Redis(s@),
        }
    }
}

impl DeepView for LiveStep {
    type V = LiveStep<Seq<char>>;

    open spec fn deep_view(&self) -> LiveStep<Seq<char>> {
        match *self {
            LiveStep::Upsert { row } => LiveStep::Upsert { row: row.deep_view() },
            LiveStep::Read { user_id } => LiveStep::Read { user_id },
            LiveStep::Publish { channel } => LiveStep::Publish { channel: channel@ },
            LiveStep::Done { result } => LiveStep::Done { result: text::result_view(result) },
        }
    }
}

impl DeepView for LiveReply {
    type V = LiveReply<Seq<char>>;

    open spec fn deep_view(&self) -> LiveReply<Seq<char>> {
        match *self {
            LiveReply::Upserted(r) => LiveReply::Upserted(text::result_view(r)),
            LiveReply::Read(r) => LiveReply::Read(text::result_view(r)),
            LiveReply::Published(r) => LiveReply::Published(text::result_view(r)),
        }
    }
}

/// One step of recording and publishing. A state that has already expired when
/// it is read back is not published.
pub open spec fn live_next(step: LiveStep<Seq<char>>, reply: LiveReply<Seq<char>>) -> LiveStep<
    Seq<char>,
> {
    match (step, reply) {
        (LiveStep::Upsert { row }, LiveReply::Upserted(r)) => match r {
            Ok(()) => LiveStep::Read { user_id: row.user_id },
            Err(error) => LiveStep::Done { result: Err(LiveError::Db(error)) },
        },
        (LiveStep::Read { user_id }, LiveReply::Read(r)) => match r {
            Ok(true) => LiveStep::Publish { channel: channel(user_id) },
            Ok(false) => LiveStep::Done { result: Ok(()) },
            Err(error) => LiveStep::Done { result: Err(LiveError::Db(error)) },
        },
        (LiveStep::Publish { .. }, LiveReply::Published(result)) => LiveStep::Done { result },
        _ => step,
    }
}

/// Takes the answer to the open question.
pub fn advance_live(step: LiveStep, reply: LiveReply) -> (res: LiveStep)
    ensures
        res.deep_view() == live_next(step.deep_view(), reply.deep_view()),
{
    match (step, reply) {
        (LiveStep::Upsert { row }, LiveReply::Upserted(r)) => match r {
            Ok(()) => LiveStep::Read { user_id: row.user_id },
            Err(error) => LiveStep::Done { result: Err(LiveError::Db(error)) },
        },
        (LiveStep::Read { user_id }, LiveReply::Read(r)) => match r {
            Ok(true) => LiveStep::Publish { channel: channel_name(user_id) },
            Ok(false) => LiveStep::Done { result: Ok(()) },
            Err(error) => LiveStep::Done { result: Err(LiveError::Db(error)) },
        },
        (LiveStep::Publish { .. }, LiveReply::Published(result)) => LiveStep::Done { result },
        (step, _) => step,
    }
}

/// What the database and Redis would answer.
pub struct LiveAnswers {
    pub upserted: Result<(), Seq<char>>,
    pub read: Result<bool, Seq<char>>,
    pub published: Result<(), LiveError<Seq<char>>>,
}

/// The answer to the question that is open in `step`.
pub open spec fn live_reply(step: LiveStep<Seq<char>>, a: LiveAnswers) -> LiveReply<Seq<char>> {
    match step {
        LiveStep::Upsert { .. } => LiveReply::Upserted(a.upserted),
        LiveStep::Read { .. } => LiveReply::Read(a.read),
        _ => LiveReply::Published(a.published),
    }
}

/// What comes of recording and publishing.
pub open spec fn live_outcome(a: LiveAnswers) -> Result<(), LiveError<Seq<char>>> {
    match (a.upserted, a.read) {
        (Err(error), _) => Err(LiveError::Db(error)),
        (Ok(()), Err(error)) => Err(LiveError::Db(error)),
        (Ok(()), Ok(false)) => Ok(()),
        (Ok(()), Ok(true)) => a.published,
    }
}

// ---------------------------------------------------------------------------
// POST /v1/now-playing
// ---------------------------------------------------------------------------

#[derive(Debug, PartialEq, Eq)]
pub struct NowPlayingRequest<S = String> {
    pub track: S,
    pub artist: S,
    pub album: Option<S>,
    pub duration_ms: Option<i32>,
    pub source: Option<S>,
}

impl DeepView for NowPlayingRequest {
    type V = NowPlayingRequest<Seq<char>>;

    open spec fn deep_view(&self) -> NowPlayingRequest<Seq<char>> {
        NowPlayingRequest {
            track: self.track@,
            artist: self.artist@,
            album: self.album.deep_view(),
            duration_ms: self.duration_ms,
            source: self.source.deep_view(),
        }
    }
}

/// Where the answer to a now-playing report stands.
#[derive(Debug, PartialEq, Eq)]
#[allow(inconsistent_fields)]
pub enum NowPlayingStep<S = String> {
    /// Resolve the catalog entries.
    Catalog { step: CatalogStep<S> },
    /// Record and publish the state.
    Live { step: LiveStep<S> },
    /// 204, or why not.
    Done { result: Result<(), AppError<S>> },
}

#[derive(Debug, PartialEq, Eq)]
pub enum NowPlayingReply<S = String> {
    Catalog(CatalogReply<S>),
    Live(LiveReply<S>),
}

impl DeepView for NowPlayingStep {
    type V = NowPlayingStep<Seq<char>>;

    open spec fn deep_view(&self) -> NowPlayingStep<Seq<char>> {
        match *self {
            NowPlayingStep::Catalog { step } => NowPlayingStep::Catalog { step: step.deep_view() },
            NowPlayingStep::Live { step } => NowPlayingStep::Live { step: step.deep_view() },
            NowPlayingStep::Done { result } => NowPlayingStep::Done {
                result: text::result_view(result),
            },
        }
    }
}

impl DeepView for NowPlayingReply {
    type V = NowPlayingReply<Seq<char>>;

    open spec fn deep_view(&self) -> NowPlayingReply<Seq<char>> {
        match *self {
            NowPlayingReply::Catalog(r) => NowPlayingReply::Catalog(r.deep_view()),
            NowPlayingReply::Live(r) => NowPlayingReply::Live(r.deep_view()),
        }
    }
}

/// What a report calls the artist, album and track.
pub open spec fn reported_listen(body: NowPlayingRequest<Seq<char>>) -> Listen<Seq<char>> {
    Listen {
        artist: body.artist,
        album: body.album,
        track: body.track,
        duration_ms: body.duration_ms,
    }
}

fn to_listen(body: &NowPlayingRequest) -> (res: Listen<&str>)
    ensures
        res.deep_view() == reported_listen(body.deep_view()),
{
    Listen {
        artist: body.artist.as_str(),
        album: ingest::optional_str(&body.album),
        track: body.track.as_str(),
        duration_ms: body.duration_ms,
    }
}

/// How long the reported track plays: what the catalog says, else what the
/// report says, else five minutes.
pub open spec fn playing_ms(catalog_ms: Option<i32>, reported_ms: Option<i32>) -> i32 {
    match (catalog_ms, reported_ms) {
        (Some(ms), _) => ms,
        (None, Some(ms)) => ms,
        (None, None) => DEFAULT_DURATION_MS,
    }
}

/// The API error for a failure to record or publish.
pub open spec fn live_app_error(e: LiveError<Seq<char>>) -> AppError<Seq<char>> {
    match e {
        LiveError::Db(s) => AppError::Database(s),
        LiveError::Encode(s) => AppError::Internal(s),
        LiveError::Redis(s) => AppError::Redis(s),
    }
}

fn to_app_error(e: LiveError) -> (res: AppError)
    ensures
        res.deep_view() == live_app_error(e.deep_view()),
{
    match e {
        LiveError::Db(s) => AppError::Database(s),
        LiveError::Encode(s) => AppError::Internal(s),
        LiveError::Redis(s) => AppError::Redis(s),
    }
}

/// The state that a report sets, once its catalog entries are resolved: it
/// expires when the track has played to its end.
pub open spec fn now_playing_row(
    user_id: i64,
    body: NowPlayingRequest<Seq<char>>,
    ids: CatalogIds,
    expires_at: Timestamp,
) -> UpsertNowPlaying<Seq<char>> {
    UpsertNowPlaying {
        user_id,
        track_id: ids.track_id,
        artist_id: ids.artist_id,
        album_id: ids.album_id,
        source: ingest::source_or_extension(body.source),
        expires_at,
    }
}

/// What follows once the catalog entries are resolved.
pub open spec fn now_playing_resolved(
    user_id: i64,
    body: NowPlayingRequest<Seq<char>>,
    ids: CatalogIds,
    now: Timestamp,
) -> NowPlayingStep<Seq<char>> {
    match time::shifted(now, playing_ms(ids.track_duration_ms, body.duration_ms) as int) {
        Some(expires_at) => NowPlayingStep::Live {
            step: LiveStep::Upsert { row: now_playing_row(user_id, body, ids, expires_at) },
        },
        None => NowPlayingStep::Done {
            result: Err(AppError::Internal("expiry is out of range"@)),
        },
    }
}

/// One step of the answer to a now-playing report, when the clock shows `now`.
pub open spec fn now_playing_next(
    user_id: i64,
    body: NowPlayingRequest<Seq<char>>,
    step: NowPlayingStep<Seq<char>>,
    reply: NowPlayingReply<Seq<char>>,
    now: Timestamp,
) -> NowPlayingStep<Seq<char>> {
    match (step, reply) {
        (NowPlayingStep::Catalog { step: catalog }, NowPlayingReply::Catalog(r)) => {
            match ingest::catalog_next(reported_listen(body), catalog, r) {
                CatalogStep::Resolved { ids } => now_playing_resolved(user_id, body, ids, now),
                CatalogStep::Failed { error } => NowPlayingStep::Done {
                    result: Err(AppError::Database(error)),
                },
                other => NowPlayingStep::Catalog { step: other },
            }
        },
        (NowPlayingStep::Live { step: live }, NowPlayingReply::Live(r)) => match live_next(
            live,
            r,
        ) {
            LiveStep::Done { result: Ok(()) } => NowPlayingStep::Done { result: Ok(()) },
            LiveStep::Done { result: Err(e) } => NowPlayingStep::Done {
                result: Err(live_app_error(e)),
            },
            other => NowPlayingStep::Live { step: other },
        },
        _ => step,
    }
}

/// How the answer to a now-playing report begins.
pub open spec fn now_playing_begin(body: NowPlayingRequest<Seq<char>>) -> NowPlayingStep<
    Seq<char>,
> {
    NowPlayingStep::Catalog { step: ingest::catalog_begin(reported_listen(body)) }
}

/// Begins to answer `POST /v1/now-playing`. [`advance_now_playing`] carries it
/// on.
pub fn update_now_playing(body: &NowPlayingRequest) -> (res: NowPlayingStep)
    ensures
        res.deep_view() == now_playing_begin(body.deep_view()),
{
    NowPlayingStep::Catalog { step: ingest::resolve_catalog(&to_listen(body)) }
}

/// Takes the answer to the open question when the clock shows `now`.
pub fn advance_now_playing_at(
    user_id: i64,
    body: &NowPlayingRequest,
    step: NowPlayingStep,
    reply: NowPlayingReply,
    now: &Timestamp,
) -> (res: NowPlayingStep)
    requires
        now.wf(),
        now.plain(),
    ensures
        res.deep_view() == now_playing_next(
            user_id,
            body.deep_view(),
            step.deep_view(),
            reply.deep_view(),
            *now,
        ),
{
    match (step, reply) {
        (NowPlayingStep::Catalog { step: catalog }, NowPlayingReply::Catalog(r)) => {
            match ingest::advance_catalog(&to_listen(body), catalog, r) {
                CatalogStep::Resolved { ids } => {
                    let duration_ms: i32 = match (ids.track_duration_ms, body.duration_ms) {
                        (Some(ms), _) => ms,
                        (None, Some(ms)) => ms,
                        (None, None) => DEFAULT_DURATION_MS,
                    };
                    match time::shift(now, duration_ms as i64) {
                        Some(expires_at) => NowPlayingStep::Live {
                            step: LiveStep::Upsert {
                                row: UpsertNowPlaying {
                                    user_id,
                                    track_id: ids.track_id,
                                    artist_id: ids.artist_id,
                                    album_id: ids.album_id,
                                    source: match &body.source {
                                        Some(source) => source.clone(),
                                        None => "extension".to_owned(),
                                    },
                                    expires_at,
                                },
                            },
                        },
                        None => NowPlayingStep::Done {
                            result: Err(AppError::Internal("expiry is out of range".to_owned())),
                        },
                    }
                },
                CatalogStep::Failed { error } => NowPlayingStep::Done {
                    result: Err(AppError::Database(error)),
                },
                other => NowPlayingStep::Catalog { step: other },
            }
        },
        (NowPlayingStep::Live { step: live }, NowPlayingReply::Live(r)) => match advance_live(
            live,
            r,
        ) {
            LiveStep::Done { result: Ok(()) } => NowPlayingStep::Done { result: Ok(()) },
            LiveStep::Done { result: Err(e) } => NowPlayingStep::Done {
                result: Err(to_app_error(e)),
            },
            other => NowPlayingStep::Live { step: other },
        },
        (step, _) => step,
    }
}

/// Takes the answer to the open question of a now-playing report.
pub fn advance_now_playing(
    user_id: i64,
    body: &NowPlayingRequest,
    step: NowPlayingStep,
    reply: NowPlayingReply,
) -> (res: NowPlayingStep)
    ensures
        exists|now: Timestamp|
            now.wf() && now.plain() && now.secs >= 0 && res.deep_view()
                == #[trigger] now_playing_next(
                user_id,
                body.deep_view(),
                step.deep_view(),
                reply.deep_view(),
                now,
            ),
{
    let now = time::now();
    advance_now_playing_at(user_id, body, step, reply, &now)
}

/// What would answer each question of a now-playing report.
pub struct NowPlayingAnswers {
    pub catalog: CatalogAnswers,
    pub live: LiveAnswers,
}

/// The answer to the question that is open in `step`.
pub open spec fn now_playing_reply(
    step: NowPlayingStep<Seq<char>>,
    a: NowPlayingAnswers,
) -> NowPlayingReply<Seq<char>> {
    match step {
        NowPlayingStep::Catalog { step } => NowPlayingReply::Catalog(
            ingest::catalog_reply(step, a.catalog),
        ),
        NowPlayingStep::Live { step } => NowPlayingReply::Live(live_reply(step, a.live)),
        NowPlayingStep::Done { .. } => NowPlayingReply::Live(LiveReply::Upserted(Ok(()))),
    }
}

/// What comes of a now-playing report. The clock shows `now` when the catalog
/// entries are resolved.
pub open spec fn now_playing_outcome(
    body: NowPlayingRequest<Seq<char>>,
    a: NowPlayingAnswers,
    now: Timestamp,
) -> Result<(), AppError<Seq<char>>> {
    match ingest::catalog_outcome(body.album is Some, a.catalog) {
        Err(error) => Err(AppError::Database(error)),
        Ok(ids) => if time::shifted(
            now,
            playing_ms(ids.track_duration_ms, body.duration_ms) as int,
        ) is None {
            Err(AppError::Internal("expiry is out of range"@))
        } else {
            match live_outcome(a.live) {
                Ok(()) => Ok(()),
                Err(e) => Err(live_app_error(e)),
            }
        },
    }
}

/// The state after `n` questions were answered. `now(i)` is what the clock shows
/// at answer number `i`; the first of these answers is number `k`.
pub open spec fn now_playing_run(
    user_id: i64,
    body: NowPlayingRequest<Seq<char>>,
    step: NowPlayingStep<Seq<char>>,
    a: NowPlayingAnswers,
    now: spec_fn(nat) -> Timestamp,
    k: nat,
    n: nat,
) -> NowPlayingStep<Seq<char>>
    decreases n,
{
    if n == 0 {
        step
    } else {
        now_playing_run(
            user_id,
            body,
            now_playing_next(user_id, body, step, now_playing_reply(step, a), now(k)),
            a,
            now,
            k + 1,
            (n - 1) as nat,
        )
    }
}

proof fn lemma_now_playing_settled(
    user_id: i64,
    body: NowPlayingRequest<Seq<char>>,
    step: NowPlayingStep<Seq<char>>,
    a: NowPlayingAnswers,
    now: spec_fn(nat) -> Timestamp,
    k: nat,
    n: nat,
)
    requires
        step is Done,
    ensures
        now_playing_run(user_id, body, step, a, now, k, n) == step,
    decreases n,
{
    if n > 0 {
        lemma_now_playing_settled(user_id, body, step, a, now, k + 1, (n - 1) as nat);
    }
}

/// Seven answers bring every now-playing report to the outcome that they
/// determine, however the clock goes: what counts is what it shows at the answer
/// that resolves the catalog entries.
pub proof fn law_now_playing_report(
    user_id: i64,
    body: NowPlayingRequest<Seq<char>>,
    a: NowPlayingAnswers,
    now: spec_fn(nat) -> Timestamp,
    n: nat,
)
    requires
        n >= 7,
    ensures
        ({
            let resolved = (ingest::catalog_answers(body.album is Some) - 1) as nat;
            now_playing_run(user_id, body, now_playing_begin(body), a, now, 0, n) == (
            NowPlayingStep::<Seq<char>>::Done {
                result: now_playing_outcome(body, a, now(resolved)),
            })
        }),
{
    reveal_with_fuel(now_playing_run, 8);
    let resolved = (ingest::catalog_answers(body.album is Some) - 1) as nat;
    let s0 = now_playing_begin(body);
    let s1 = now_playing_next(user_id, body, s0, now_playing_reply(s0, a), now(0));
    let s2 = now_playing_next(user_id, body, s1, now_playing_reply(s1, a), now(1));
    let s3 = now_playing_next(user_id, body, s2, now_playing_reply(s2, a), now(2));
    let s4 = now_playing_next(user_id, body, s3, now_playing_reply(s3, a), now(3));
    let s5 = now_playing_next(user_id, body, s4, now_playing_reply(s4, a), now(4));
    let s6 = now_playing_next(user_id, body, s5, now_playing_reply(s5, a), now(5));
    let s7 = now_playing_next(user_id, body, s6, now_playing_reply(s6, a), now(6));
    assert(s7 == (NowPlayingStep::<Seq<char>>::Done {
        result: now_playing_outcome(body, a, now(resolved)),
    }));
    lemma_now_playing_settled(user_id, body, s7, a, now, 7, (n - 7) as nat);
}

/// A now-playing report asks the catalog for the artist, album and track that
/// it names, and for no other.
pub proof fn law_report_asks_for_the_listen(
    user_id: i64,
    body: NowPlayingRequest<Seq<char>>,
    step: NowPlayingStep<Seq<char>>,
    reply: NowPlayingReply<Seq<char>>,
    now: Timestamp,
)
    ensures
        now_playing_begin(body) matches NowPlayingStep::Catalog { step } && ingest::asks_for(
            reported_listen(body),
            step,
        ),
        (step matches NowPlayingStep::Catalog { step } ==> ingest::asks_for(
            reported_listen(body),
            step,
        )) ==> (now_playing_next(user_id, body, step, reply, now) matches NowPlayingStep::Catalog {
            step,
        } ==> ingest::asks_for(reported_listen(body), step)),
{
}

/// A now-playing state counts until it expires.
pub open spec fn is_current(expires_at: Timestamp, now: Timestamp) -> bool {
    expires_at.later_than(now)
}

/// What a user is playing, given the state that is stored for them: nothing if
/// there is none or it has expired.
pub open spec fn current_state(stored: Option<NowPlayingRich>, now: Timestamp) -> Option<
    NowPlayingRich,
> {
    match stored {
        Some(state) => if is_current(state.expires_at, now) {
            Some(state)
        } else {
            None
        },
        None => None,
    }
}

/// What a user is playing when the clock shows `now`, given the state that is
/// stored for them.
pub fn get_now_playing_at(stored: Option<NowPlayingRich>, now: &Timestamp) -> (res: Option<
    NowPlayingRich,
>)
    ensures
        res == current_state(stored, *now),
{
    match stored {
        Some(state) => if state.expires_at.is_later_than(now) {
            Some(state)
        } else {
            None
        },
        None => None,
    }
}

/// [`get_now_playing_at`] by the clock.
pub fn get_now_playing(stored: Option<NowPlayingRich>) -> (res: Option<NowPlayingRich>)
    ensures
        exists|now: Timestamp|
            #![trigger now.plain()]
            now.wf() && now.plain() && now.secs >= 0 && res == current_state(stored, now),
{
    let now = time::now();
    assert(now.plain());
    get_now_playing_at(stored, &now)
}

/// The state expires by itself when the track's duration has elapsed: reported
/// at `now`, it is current exactly until the playing time is over.
pub proof fn law_state_expires_with_the_track(
    user_id: i64,
    body: NowPlayingRequest<Seq<char>>,
    ids: CatalogIds,
    now: Timestamp,
    later: Timestamp,
)
    requires
        now.wf(),
        now.plain(),
        later.wf(),
        later.plain(),
    ensures
        now_playing_resolved(user_id, body, ids, now) matches NowPlayingStep::Live {
            step: LiveStep::Upsert { row },
        } ==> (is_current(row.expires_at, later) <==> later.total_nanos() < now.total_nanos()
            + playing_ms(ids.track_duration_ms, body.duration_ms) * 1_000_000),
{
}

/// A report publishes on the channel of the user who made it, and on no other.
pub proof fn law_report_publishes_on_own_channel(
    user_id: i64,
    body: NowPlayingRequest<Seq<char>>,
    ids: CatalogIds,
    now: Timestamp,
    expires_at: Timestamp,
)
    requires
        time::shifted(now, playing_ms(ids.track_duration_ms, body.duration_ms) as int) == Some(
            expires_at,
        ),
    ensures
        now_playing_resolved(user_id, body, ids, now) matches NowPlayingStep::Live { step } && {
            let read = live_next(step, LiveReply::Upserted(Ok(())));
            live_next(read, LiveReply::Read(Ok(true))) == (LiveStep::<Seq<char>>::Publish {
                channel: channel(user_id),
            })
        },
{
}

// ---------------------------------------------------------------------------
// The event stream
// ---------------------------------------------------------------------------

/// Where a subscriber's event stream stands. `until` is when the state that the
/// subscriber was sent last runs out, if it does.
#[derive(Debug, PartialEq, Eq)]
pub enum FeedStep<S = String> {
    /// Read the user's current state.
    ReadInitial { user_id: i64 },
    /// Send the first event.
    SendInitial { data: S, until: Option<Timestamp> },
    /// Subscribe to the user's channel.
    Subscribe { channel: S, until: Option<Timestamp> },
    /// Wait for a message, but no longer than `until`.
    Receive { until: Option<Timestamp> },
    /// Send an event.
    Forward { data: S, until: Option<Timestamp> },
    /// The stream has ended.
    Closed,
}

/// What happened on a subscriber's event stream.
#[derive(Debug, PartialEq, Eq)]
#[allow(inconsistent_fields)]
pub enum FeedEvent<S = String> {
    /// The user is playing something; the state in JSON, if it can be put so,
    /// and when it expires.
    InitialPlaying { json: Option<S>, expires_at: Timestamp },
    /// The user is playing nothing.
    InitialNothing,
    /// The state could not be read.
    InitialFailed,
    /// An event was sent, unless the client has gone.
    Sent { connected: bool },
    Subscribed { ok: bool },
    /// A message came in; its value, if it is text, and when the state that it
    /// holds expires, if it holds one.
    Message { channel: S, value: Option<S>, expires_at: Option<Timestamp> },
    /// The state that was sent last has run out.
    Expired,
    /// No more messages will come in.
    Lost,
}

impl DeepView for FeedStep {
    type V = FeedStep<Seq<char>>;

    open spec fn deep_view(&self) -> FeedStep<Seq<char>> {
        match *self {
            FeedStep::ReadInitial { user_id } => FeedStep::ReadInitial { user_id },
            FeedStep::SendInitial { data, until } => FeedStep::SendInitial { data: data@, until },
            FeedStep::Subscribe { channel, until } => FeedStep::Subscribe {
                channel: channel@,
                until,
            },
            FeedStep::Receive { until } => FeedStep::Receive { until },
            FeedStep::Forward { data, until } => FeedStep::Forward { data: data@, until },
            FeedStep::Closed => FeedStep::Closed,
        }
    }
}

impl DeepView for FeedEvent {
    type V = FeedEvent<Seq<char>>;

    open spec fn deep_view(&self) -> FeedEvent<Seq<char>> {
        match *self {
            FeedEvent::InitialPlaying { json, expires_at } => FeedEvent::InitialPlaying {
                json: json.deep_view(),
                expires_at,
            },
            FeedEvent::InitialNothing => FeedEvent::InitialNothing,
            FeedEvent::InitialFailed => FeedEvent::InitialFailed,
            FeedEvent::Sent { connected } => FeedEvent::Sent { connected },
            FeedEvent::Subscribed { ok } => FeedEvent::Subscribed { ok },
            FeedEvent::Message { channel, value, expires_at } => FeedEvent::Message {
                channel: channel@,
                value: value.deep_view(),
                expires_at,
            },
            FeedEvent::Expired => FeedEvent::Expired,
            FeedEvent::Lost => FeedEvent::Lost,
        }
    }
}

/// One step of a subscriber's event stream. The current state comes first, an
/// explicit `null` when nothing is playing; then every message on the user's
/// channel, and a `null` when the state that was sent last has run out, until
/// the client has gone or no more messages come in.
pub open spec fn feed_next(
    user_id: i64,
    step: FeedStep<Seq<char>>,
    event: FeedEvent<Seq<char>>,
) -> FeedStep<Seq<char>> {
    let own = channel(user_id);
    match (step, event) {
        (
            FeedStep::ReadInitial { .. },
            FeedEvent::InitialPlaying { json: Some(data), expires_at },
        ) => {
            FeedStep::SendInitial { data, until: Some(expires_at) }
        },
        (FeedStep::ReadInitial { .. }, FeedEvent::InitialPlaying { json: None, .. }) => {
            FeedStep::Subscribe { channel: own, until: None }
        },
        (FeedStep::ReadInitial { .. }, FeedEvent::InitialNothing) => FeedStep::SendInitial {
            data: "null"@,
            until: None,
        },
        (FeedStep::ReadInitial { .. }, FeedEvent::InitialFailed) => FeedStep::Subscribe {
            channel: own,
            until: None,
        },
        (FeedStep::SendInitial { until, .. }, FeedEvent::Sent { connected }) => if connected {
            FeedStep::Subscribe { channel: own, until }
        } else {
            FeedStep::Closed
        },
        (FeedStep::Subscribe { until, .. }, FeedEvent::Subscribed { ok }) => if ok {
            FeedStep::Receive { until }
        } else {
            FeedStep::Closed
        },
        (
            FeedStep::Receive { .. },
            FeedEvent::Message { channel: from, value, expires_at },
        ) => match value {
            Some(data) if from == own => FeedStep::Forward { data, until: expires_at },
            _ => step,
        },
        (FeedStep::Receive { until: Some(_) }, FeedEvent::Expired) => FeedStep::Forward {
            data: "null"@,
            until: None,
        },
        (FeedStep::Receive { .. }, FeedEvent::Lost) => FeedStep::Closed,
        (FeedStep::Forward { until, .. }, FeedEvent::Sent { connected }) => if connected {
            FeedStep::Receive { until }
        } else {
            FeedStep::Closed
        },
        _ => step,
    }
}

/// Begins the event stream of a user's now-playing state. [`advance_feed`]
/// carries it on.
pub fn live_now_playing(user_id: i64) -> (res: FeedStep)
    ensures
        res.deep_view() == (FeedStep::<Seq<char>>::ReadInitial { user_id }),
{
    FeedStep::ReadInitial { user_id }
}

/// Takes what happened on the stream and says what to do next.
pub fn advance_feed(user_id: i64, step: FeedStep, event: FeedEvent) -> (res: FeedStep)
    ensures
        res.deep_view() == feed_next(user_id, step.deep_view(), event.deep_view()),
{
    match (step, event) {
        (FeedStep::ReadInitial { .. }, FeedEvent::InitialPlaying { json, expires_at }) => {
            match json {
                Some(data) => FeedStep::SendInitial { data, until: Some(expires_at) },
                None => FeedStep::Subscribe { channel: channel_name(user_id), until: None },
            }
        },
        (FeedStep::ReadInitial { .. }, FeedEvent::InitialNothing) => FeedStep::SendInitial {
            data: "null".to_owned(),
            until: None,
        },
        (FeedStep::ReadInitial { .. }, FeedEvent::InitialFailed) => FeedStep::Subscribe {
            channel: channel_name(user_id),
            until: None,
        },
        (FeedStep::SendInitial { until, .. }, FeedEvent::Sent { connected }) => if connected {
            FeedStep::Subscribe { channel: channel_name(user_id), until }
        } else {
            FeedStep::Closed
        },
        (FeedStep::Subscribe { until, .. }, FeedEvent::Subscribed { ok }) => if ok {
            FeedStep::Receive { until }
        } else {
            FeedStep::Closed
        },
        (FeedStep::Receive { until }, FeedEvent::Message { channel: from, value, expires_at }) => {
            let own = channel_name(user_id);
            match value {
                Some(data) => if from == own {
                    FeedStep::Forward { data, until: expires_at }
                } else {
                    FeedStep::Receive { until }
                },
                None => FeedStep::Receive { until },
            }
        },
        (FeedStep::Receive { until }, FeedEvent::Expired) => match until {
            Some(_) => FeedStep::Forward { data: "null".to_owned(), until: None },
            None => FeedStep::Receive { until },
        },
        (FeedStep::Receive { .. }, FeedEvent::Lost) => FeedStep::Closed,
        (FeedStep::Forward { until, .. }, FeedEvent::Sent { connected }) => if connected {
            FeedStep::Receive { until }
        } else {
            FeedStep::Closed
        },
        (step, _) => step,
    }
}

/// What happens on an open stream while the client stays connected.
pub enum FeedInput {
    /// A message on some channel, with its value if it is text and the expiry of
    /// the state that it holds.
    Message { channel: Seq<char>, value: Option<Seq<char>>, expires_at: Option<Timestamp> },
    /// The state that was sent last has run out.
    Expired,
}

/// The event that an input is.
pub open spec fn feed_event(input: FeedInput) -> FeedEvent<Seq<char>> {
    match input {
        FeedInput::Message { channel, value, expires_at } => FeedEvent::Message {
            channel,
            value,
            expires_at,
        },
        FeedInput::Expired => FeedEvent::Expired,
    }
}

/// What a subscriber is sent by the inputs, and when the state that they were
/// sent last runs out, if `until` is when the one before does. Every message on
/// the user's channel is sent as it is; a state that runs out is followed by one
/// `null`.
pub open spec fn feed_output(
    user_id: i64,
    until: Option<Timestamp>,
    inputs: Seq<FeedInput>,
) -> (Option<Timestamp>, Seq<Seq<char>>)
    decreases inputs.len(),
{
    if inputs.len() == 0 {
        (until, Seq::empty())
    } else {
        let (open, sent) = feed_output(user_id, until, inputs.drop_last());
        match inputs.last() {
            FeedInput::Message { channel: from, value: Some(data), expires_at } if from == channel(
                user_id,
            ) => (expires_at, sent.push(data)),
            FeedInput::Message { .. } => (open, sent),
            FeedInput::Expired => if open is Some {
                (None, sent.push("null"@))
            } else {
                (open, sent)
            },
        }
    }
}

/// The state of an open stream, and the events it has sent, after the inputs
/// came in while the client stayed connected.
pub open spec fn feed_run(
    user_id: i64,
    until: Option<Timestamp>,
    inputs: Seq<FeedInput>,
) -> (FeedStep<Seq<char>>, Seq<Seq<char>>)
    decreases inputs.len(),
{
    if inputs.len() == 0 {
        (FeedStep::Receive { until }, Seq::empty())
    } else {
        let (step, sent) = feed_run(user_id, until, inputs.drop_last());
        match feed_next(user_id, step, feed_event(inputs.last())) {
            FeedStep::Forward { data, until: open } => (
                feed_next(
                    user_id,
                    FeedStep::Forward { data, until: open },
                    FeedEvent::Sent { connected: true },
                ),
                sent.push(data),
            ),
            other => (other, sent),
        }
    }
}

/// A connected subscriber gets every message on the user's channel, in order,
/// a `null` whenever the state that they were sent last runs out, and nothing
/// else.
pub proof fn law_feed_sends_own_messages_and_expiries(
    user_id: i64,
    until: Option<Timestamp>,
    inputs: Seq<FeedInput>,
)
    ensures
        ({
            let (open, sent) = feed_output(user_id, until, inputs);
            feed_run(user_id, until, inputs) == (FeedStep::<Seq<char>>::Receive { until: open }, sent)
        }),
    decreases inputs.len(),
{
    if inputs.len() > 0 {
        law_feed_sends_own_messages_and_expiries(user_id, until, inputs.drop_last());
    }
}

/// When the user stops listening, the subscriber is told so once: the end of a
/// state that was sent gives one `null`, and no other follows it.
pub proof fn law_the_end_of_a_state_is_told_once(
    user_id: i64,
    until: Option<Timestamp>,
    inputs: Seq<FeedInput>,
)
    requires
        feed_output(user_id, until, inputs).0 is Some,
    ensures
        ({
            let (_, sent) = feed_output(user_id, until, inputs);
            let ended = inputs.push(FeedInput::Expired);
            &&& feed_output(user_id, until, ended) == (None::<Timestamp>, sent.push("null"@))
            &&& feed_output(user_id, until, ended.push(FeedInput::Expired)) == feed_output(
                user_id,
                until,
                ended,
            )
        }),
{
    let ended = inputs.push(FeedInput::Expired);
    assert(ended.drop_last() =~= inputs);
    assert(ended.push(FeedInput::Expired).drop_last() =~= ended);
}

/// A stream begins with the state at connect time, or `null` if there is none,
/// and then waits for messages, no longer than that state lasts.
pub proof fn law_feed_begins_with_the_state(
    user_id: i64,
    playing: Option<(Seq<char>, Timestamp)>,
)
    ensures
        ({
            let first = match playing {
                Some((json, expires_at)) => FeedEvent::InitialPlaying {
                    json: Some(json),
                    expires_at,
                },
                None => FeedEvent::InitialNothing,
            };
            let (data, until) = match playing {
                Some((json, expires_at)) => (json, Some(expires_at)),
                None => ("null"@, None),
            };
            let send = feed_next(user_id, FeedStep::ReadInitial { user_id }, first);
            let subscribe = feed_next(user_id, send, FeedEvent::Sent { connected: true });
            &&& send == (FeedStep::<Seq<char>>::SendInitial { data, until })
            &&& subscribe == (FeedStep::<Seq<char>>::Subscribe { channel: channel(user_id), until })
            &&& feed_next(user_id, subscribe, FeedEvent::Subscribed { ok: true }) == (FeedStep::<
                Seq<char>,
            >::Receive { until })
        }),
{
}

/// A client that has gone gets nothing more.
pub proof fn law_feed_ends_with_the_client(
    user_id: i64,
    step: FeedStep<Seq<char>>,
    event: FeedEvent<Seq<char>>,
)
    requires
        step is SendInitial || step is Forward,
    ensures
        feed_next(user_id, step, FeedEvent::Sent { connected: false }) is Closed,
        feed_next(user_id, FeedStep::Closed, event) is Closed,
{
}

// ---------------------------------------------------------------------------
// Laws
// ---------------------------------------------------------------------------

/// The channel of a user's state is named after the user.
pub proof fn law_channel_names(user_id: i64)
    ensures
        channel(user_id) == "now_playing:"@ + text::decimal(user_id as int),
{
}

/// A state is stored, then read back for its user, then published on that user's
/// channel, unless it is no longer there; what fails on the way is told.
pub proof fn law_live_steps(
    row: UpsertNowPlaying<Seq<char>>,
    user_id: i64,
    name: Seq<char>,
    result: Result<(), LiveError<Seq<char>>>,
    error: Seq<char>,
)
    ensures
        live_next(LiveStep::Upsert { row }, LiveReply::Upserted(Ok(()))) == (LiveStep::<
            Seq<char>,
        >::Read { user_id: row.user_id }),
        live_next(LiveStep::Upsert { row }, LiveReply::Upserted(Err(error))) == (LiveStep::<
            Seq<char>,
        >::Done { result: Err(LiveError::Db(error)) }),
        live_next(LiveStep::Read { user_id }, LiveReply::Read(Ok(true))) == (LiveStep::<
            Seq<char>,
        >::Publish { channel: "now_playing:"@ + text::decimal(user_id as int) }),
        live_next(LiveStep::Read { user_id }, LiveReply::Read(Ok(false))) == (LiveStep::<
            Seq<char>,
        >::Done { result: Ok(()) }),
        live_next(LiveStep::Read { user_id }, LiveReply::Read(Err(error))) == (LiveStep::<
            Seq<char>,
        >::Done { result: Err(LiveError::Db(error)) }),
        live_next(LiveStep::Publish { channel: name }, LiveReply::Published(result)) == (
        LiveStep::<Seq<char>>::Done { result }),
{
}

/// Recording and publishing come off exactly when the state was stored and read
/// back and, where it was still there, published.
pub proof fn law_live_outcomes(a: LiveAnswers)
    ensures
        live_outcome(a) is Ok <==> a.upserted is Ok && (a.read == Ok::<bool, Seq<char>>(false) || (
        a.read == Ok::<bool, Seq<char>>(true) && a.published is Ok)),
        a.upserted matches Err(error) ==> live_outcome(a) == Err::<(), LiveError<Seq<char>>>(
            LiveError::Db(error),
        ),
        a.upserted is Ok ==> (a.read matches Err(error) ==> live_outcome(a) == Err::<
            (),
            LiveError<Seq<char>>,
        >(LiveError::Db(error))),
        a.upserted is Ok && a.read == Ok::<bool, Seq<char>>(true) ==> live_outcome(a)
            == a.published,
{
}

/// A report is about the artist, the album and the track that it names.
pub proof fn law_names_of_a_report(body: NowPlayingRequest<Seq<char>>)
    ensures
        reported_listen(body).artist == body.artist,
        reported_listen(body).album == body.album,
        reported_listen(body).track == body.track,
        reported_listen(body).duration_ms == body.duration_ms,
{
}

/// A track plays for as long as the catalog says; where the catalog does not know,
/// for as long as the report says; and where neither does, for five minutes.
pub proof fn law_playing_times(catalog_ms: i32, reported_ms: i32, reported: Option<i32>)
    ensures
        playing_ms(Some(catalog_ms), reported) == catalog_ms,
        playing_ms(None, Some(reported_ms)) == reported_ms,
        playing_ms(None, None) == 5 * 60 * 1000,
{
}

/// A report sets the state of the user who made it to the entries that it resolved
/// to, until the track has played to its end. One that does not name its source
/// comes from the browser extension.
pub proof fn law_reported_states(
    user_id: i64,
    body: NowPlayingRequest<Seq<char>>,
    ids: CatalogIds,
    now: Timestamp,
)
    ensures
        now_playing_resolved(user_id, body, ids, now) matches NowPlayingStep::Live { step } ==> {
            &&& step matches LiveStep::Upsert { row }
            &&& row.user_id == user_id
            &&& row.track_id == ids.track_id
            &&& row.artist_id == ids.artist_id
            &&& row.album_id == ids.album_id
            &&& body.source matches Some(source) ==> row.source == source
            &&& body.source is None ==> row.source == "extension"@
            &&& row.expires_at.total_nanos() == now.total_nanos() + playing_ms(
                ids.track_duration_ms,
                body.duration_ms,
            ) * 1_000_000
        },
        now_playing_resolved(user_id, body, ids, now) is Live <==> time::MIN_SECS * 1_000_000_000
            <= now.total_nanos() + playing_ms(ids.track_duration_ms, body.duration_ms) * 1_000_000
            < (time::MAX_SECS + 1) * 1_000_000_000,
        now_playing_resolved(user_id, body, ids, now) is Live || now_playing_resolved(
            user_id,
            body,
            ids,
            now,
        ) == (NowPlayingStep::<Seq<char>>::Done {
            result: Err(AppError::Internal("expiry is out of range"@)),
        }),
{
    time::law_shifts_are_exact(
        now,
        playing_ms(ids.track_duration_ms, body.duration_ms) as int,
    );
}

/// How failures to record or publish a state are answered.
pub proof fn law_live_failures(s: Seq<char>)
    ensures
        live_app_error(LiveError::Db(s)) == AppError::<Seq<char>>::Database(s),
        live_app_error(LiveError::Encode(s)) == AppError::<Seq<char>>::Internal(s),
        live_app_error(LiveError::Redis(s)) == AppError::<Seq<char>>::Redis(s),
{
}

/// A report comes off exactly when its entries resolve, the track does not outlast
/// all time, and the state is recorded and published.
pub proof fn law_report_outcomes(
    body: NowPlayingRequest<Seq<char>>,
    a: NowPlayingAnswers,
    now: Timestamp,
)
    ensures
        ({
            let outcome = now_playing_outcome(body, a, now);
            let entries = ingest::catalog_outcome(body.album is Some, a.catalog);
            let in_time = |ids: CatalogIds|
                time::shifted(
                    now,
                    playing_ms(ids.track_duration_ms, body.duration_ms) as int,
                ) is Some;
            &&& outcome is Ok <==> (entries matches Ok(ids) && in_time(ids)) && live_outcome(
                a.live,
            ) is Ok
            &&& entries matches Err(error) ==> outcome == Err::<(), AppError<Seq<char>>>(
                AppError::Database(error),
            )
            &&& entries matches Ok(ids) ==> (in_time(ids) ==> (live_outcome(a.live) matches Err(e)
                ==> outcome == Err::<(), AppError<Seq<char>>>(live_app_error(e))))
        }),
{
}

/// A user is playing the state that is stored for them until the instant at which
/// it expires, and nothing from then on.
pub proof fn law_current_states(state: NowPlayingRich, now: Timestamp)
    ensures
        current_state(None, now) is None,
        state.expires_at.later_than(now) ==> current_state(Some(state), now) == Some(state),
        !state.expires_at.later_than(now) ==> current_state(Some(state), now) is None,
        is_current(state.expires_at, now) <==> state.expires_at.later_than(now),
{
}

/// What a stream does with what comes in while it waits: a text on the user's own
/// channel is sent on as it is; anything else is passed over; the end of a state
/// that was sent is told as `null`; and when nothing more can come, it ends.
pub proof fn law_waiting_streams(
    user_id: i64,
    until: Option<Timestamp>,
    end: Timestamp,
    from: Seq<char>,
    data: Seq<char>,
    expires_at: Option<Timestamp>,
)
    ensures
        ({
            let waiting = FeedStep::<Seq<char>>::Receive { until };
            let message = |value: Option<Seq<char>>|
                FeedEvent::<Seq<char>>::Message { channel: from, value, expires_at };
            &&& from == "now_playing:"@ + text::decimal(user_id as int) ==> feed_next(
                user_id,
                waiting,
                message(Some(data)),
            ) == (FeedStep::<Seq<char>>::Forward { data, until: expires_at })
            &&& from != "now_playing:"@ + text::decimal(user_id as int) ==> feed_next(
                user_id,
                waiting,
                message(Some(data)),
            ) == waiting
            &&& feed_next(user_id, waiting, message(None)) == waiting
            &&& feed_next(
                user_id,
                FeedStep::Receive { until: Some(end) },
                FeedEvent::Expired,
            ) == (FeedStep::<Seq<char>>::Forward { data: "null"@, until: None })
            &&& feed_next(user_id, FeedStep::Receive { until: None }, FeedEvent::Expired) == (
            FeedStep::<Seq<char>>::Receive { until: None })
            &&& feed_next(user_id, waiting, FeedEvent::Lost) is Closed
        }),
{
}

/// A stream whose first state could not be read or sent on still waits for
/// messages; one that cannot subscribe to them ends.
pub proof fn law_streams_begin_without_a_state(
    user_id: i64,
    expires_at: Timestamp,
    data: Seq<char>,
    name: Seq<char>,
    until: Option<Timestamp>,
)
    ensures
        ({
            let subscribe = FeedStep::<Seq<char>>::Subscribe {
                channel: "now_playing:"@ + text::decimal(user_id as int),
                until: None,
            };
            let read = FeedStep::<Seq<char>>::ReadInitial { user_id };
            &&& feed_next(user_id, read, FeedEvent::InitialFailed) == subscribe
            &&& feed_next(
                user_id,
                read,
                FeedEvent::InitialPlaying { json: None, expires_at },
            ) == subscribe
            &&& feed_next(
                user_id,
                FeedStep::Subscribe { channel: name, until },
                FeedEvent::Subscribed { ok: false },
            ) is Closed
            &&& feed_next(
                user_id,
                FeedStep::Forward { data, until },
                FeedEvent::Sent { connected: true },
            ) == (FeedStep::<Seq<char>>::Receive { until })
        }),
{
}

} // verus!
