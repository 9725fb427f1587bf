//! Recording listens: the path from a reported play to a scrobble row, and
//! from a now-playing report to the live state.
//!
//! Each procedure is a machine. Its state says which question is to be put to
//! the database next; the caller puts it and hands the answer back. An answer
//! to another question than the one that is open leaves the state as it is.

use crate::errors::AppError;
use crate::models::Scrobble;
use crate::scrobble;
use crate::scrobble::{ScrobbleInput, ScrobbleValidationError};
use crate::text;
use crate::time;
use crate::time::Timestamp;
use vstd::prelude::*;
use vstd::string::*;

verus! {

// ---------------------------------------------------------------------------
// Catalog entries of a listen
// ---------------------------------------------------------------------------

/// The catalog entries that a listen belongs to.
#[derive(Debug, Clone, Copy, PartialEq, Eq, Structural)]
pub struct CatalogIds {
    pub artist_id: i64,
    pub album_id: Option<i64>,
    pub track_id: i64,
    /// The duration that the catalog has for the track.
    pub track_duration_ms: Option<i32>,
}

/// What a listen calls its artist, album and track.
#[derive(Debug, Clone, Copy, PartialEq, Eq)]
pub struct Listen<S> {
    pub artist: S,
    pub album: Option<S>,
    pub track: S,
    /// How long the track is, as far as the source of the listen knows.
    pub duration_ms: Option<i32>,
}

impl<'a> DeepView for Listen<&'a str> {
    type V = Listen<Seq<char>>;

    open spec fn deep_view(&self) -> Listen<Seq<char>> {
        Listen {
            artist: self.artist@,
            album: self.album.deep_view(),
            track: self.track@,
            duration_ms: self.duration_ms,
        }
    }
}

pub(crate) fn optional_str(name: &Option<String>) -> (res: Option<&str>)
    ensures
        res.deep_view() == name.deep_view(),
{
    match name {
        Some(name) => Some(name.as_str()),
        None => None,
    }
}

/// Where the resolution of catalog entries stands.
#[derive(Debug, PartialEq, Eq)]
pub enum CatalogStep<S = String> {
    /// Find or create the artist of that name.
    Artist { name: S },
    /// Find or create the artist's album of that title.
    Album { artist_id: i64, title: S },
    /// Find or create the artist's track of that title.
    Track { artist_id: i64, album_id: Option<i64>, title: S, duration_ms: Option<i32> },
    /// Queue metadata enrichment for newly seen entities.
    Enqueue { ids: CatalogIds },
    Resolved { ids: CatalogIds },
    Failed { error: S },
}

/// An answer from the catalog.
#[derive(Debug, PartialEq, Eq)]
pub enum CatalogReply<S = String> {
    Artist(Result<i64, S>),
    Album(Result<i64, S>),
    /// The track and the duration the catalog has for it.
    Track(Result<(i64, Option<i32>), S>),
    Enqueued(Result<(), S>),
}

impl DeepView for CatalogStep {
    type V = CatalogStep<Seq<char>>;

    open spec fn deep_view(&self) -> CatalogStep<Seq<char>> {
        match *self {
            CatalogStep::Artist { name } => CatalogStep::Artist { name: name@ },
            CatalogStep::Album { artist_id, title } => CatalogStep::Album {
                artist_id,
                title: title@,
            },
            CatalogStep::Track { artist_id, album_id, title, duration_ms } => CatalogStep::Track {
                artist_id,
                album_id,
                title: title@,
                duration_ms,
            },
            CatalogStep::Enqueue { ids } => CatalogStep::Enqueue { ids },
            CatalogStep::Resolved { ids } => CatalogStep::Resolved { ids },
            CatalogStep::Failed { error } => CatalogStep::Failed { error: error@ },
        }
    }
}

impl DeepView for CatalogReply {
    type V = CatalogReply<Seq<char>>;

    open spec fn deep_view(&self) -> CatalogReply<Seq<char>> {
        match *self {
            CatalogReply::Artist(r) => CatalogReply::Artist(text::result_view(r)),
            CatalogReply::Album(r) => CatalogReply::Album(text::result_view(r)),
            CatalogReply::Track(r) => CatalogReply::Track(text::result_view(r)),
            CatalogReply::Enqueued(r) => CatalogReply::Enqueued(text::result_view(r)),
        }
    }
}

/// How the resolution begins: with the artist.
pub open spec fn catalog_begin(listen: Listen<Seq<char>>) -> CatalogStep<Seq<char>> {
    CatalogStep::Artist { name: listen.artist }
}

/// One step of the resolution. The artist comes first, then the album if the
/// listen names one, then the track. Queueing enrichment is best-effort: its
/// answer changes nothing.
pub open spec fn catalog_next(
    listen: Listen<Seq<char>>,
    step: CatalogStep<Seq<char>>,
    reply: CatalogReply<Seq<char>>,
) -> CatalogStep<Seq<char>> {
    match (step, reply) {
        (CatalogStep::Artist { .. }, CatalogReply::Artist(r)) => match r {
            Ok(artist_id) => match listen.album {
                Some(title) => CatalogStep::Album { artist_id, title },
                None => CatalogStep::Track {
                    artist_id,
                    album_id: None,
                    title: listen.track,
                    duration_ms: listen.duration_ms,
                },
            },
            Err(error) => CatalogStep::Failed { error },
        },
        (CatalogStep::Album { artist_id, .. }, CatalogReply::Album(r)) => match r {
            Ok(album_id) => CatalogStep::Track {
                artist_id,
                album_id: Some(album_id),
                title: listen.track,
                duration_ms: listen.duration_ms,
            },
            Err(error) => CatalogStep::Failed { error },
        },
        (CatalogStep::Track { artist_id, album_id, .. }, CatalogReply::Track(r)) => match r {
            Ok((track_id, track_duration_ms)) => CatalogStep::Enqueue {
                ids: CatalogIds { artist_id, album_id, track_id, track_duration_ms },
            },
            Err(error) => CatalogStep::Failed { error },
        },
        (CatalogStep::Enqueue { ids }, CatalogReply::Enqueued(_)) => CatalogStep::Resolved { ids },
        _ => step,
    }
}

/// Begins to resolve the catalog entries of a listen.
pub fn resolve_catalog(listen: &Listen<&str>) -> (res: CatalogStep)
    ensures
        res.deep_view() == catalog_begin(listen.deep_view()),
{
    CatalogStep::Artist { name: listen.artist.to_owned() }
}

/// Takes the answer to the open catalog question.
pub fn advance_catalog(listen: &Listen<&str>, step: CatalogStep, reply: CatalogReply) -> (res:
    CatalogStep)
    ensures
        res.deep_view() == catalog_next(listen.deep_view(), step.deep_view(), reply.deep_view()),
{
    match (step, reply) {
        (CatalogStep::Artist { .. }, CatalogReply::Artist(r)) => match r {
            Ok(artist_id) => match listen.album {
                Some(title) => CatalogStep::Album { artist_id, title: title.to_owned() },
                None => CatalogStep::Track {
                    artist_id,
                    album_id: None,
                    title: listen.track.to_owned(),
                    duration_ms: listen.duration_ms,
                },
            },
            Err(error) => CatalogStep::Failed { error },
        },
        (CatalogStep::Album { artist_id, .. }, CatalogReply::Album(r)) => match r {
            Ok(album_id) => CatalogStep::Track {
                artist_id,
                album_id: Some(album_id),
                title: listen.track.to_owned(),
                duration_ms: listen.duration_ms,
            },
            Err(error) => CatalogStep::Failed { error },
        },
        (CatalogStep::Track { artist_id, album_id, .. }, CatalogReply::Track(r)) => match r {
            Ok((track_id, track_duration_ms)) => CatalogStep::Enqueue {
                ids: CatalogIds { artist_id, album_id, track_id, track_duration_ms },
            },
            Err(error) => CatalogStep::Failed { error },
        },
        (CatalogStep::Enqueue { ids }, CatalogReply::Enqueued(_)) => CatalogStep::Resolved { ids },
        (step, _) => step,
    }
}

/// What the catalog would answer to each question.
pub struct CatalogAnswers {
    pub artist: Result<i64, Seq<char>>,
    pub album: Result<i64, Seq<char>>,
    pub track: Result<(i64, Option<i32>), Seq<char>>,
    pub enqueued: Result<(), Seq<char>>,
}

/// The answer to the question that is open in `step`.
pub open spec fn catalog_reply(step: CatalogStep<Seq<char>>, a: CatalogAnswers) -> CatalogReply<
    Seq<char>,
> {
    match step {
        CatalogStep::Artist { .. } => CatalogReply::Artist(a.artist),
        CatalogStep::Album { .. } => CatalogReply::Album(a.album),
        CatalogStep::Track { .. } => CatalogReply::Track(a.track),
        _ => CatalogReply::Enqueued(a.enqueued),
    }
}

/// The entries that the answers resolve to: the first answer that fails, fails
/// the resolution; whether enrichment could be queued plays no part.
pub open spec fn catalog_outcome(has_album: bool, a: CatalogAnswers) -> Result<
    CatalogIds,
    Seq<char>,
> {
    match (a.artist, a.album, a.track) {
        (Err(e), _, _) => Err(e),
        (Ok(_), Err(e), _) if has_album => Err(e),
        (Ok(_), _, Err(e)) => Err(e),
        (Ok(artist_id), album, Ok((track_id, track_duration_ms))) => Ok(
            CatalogIds {
                artist_id,
                album_id: match album {
                    Ok(album_id) if has_album => Some(album_id),
                    _ => None,
                },
                track_id,
                track_duration_ms,
            },
        ),
    }
}

/// The state of a resolution that has come to its end.
pub open spec fn catalog_end(outcome: Result<CatalogIds, Seq<char>>) -> CatalogStep<Seq<char>> {
    match outcome {
        Ok(ids) => CatalogStep::Resolved { ids },
        Err(error) => CatalogStep::Failed { error },
    }
}

/// The state after `n` questions were answered.
pub open spec fn catalog_run(
    listen: Listen<Seq<char>>,
    step: CatalogStep<Seq<char>>,
    a: CatalogAnswers,
    n: nat,
) -> CatalogStep<Seq<char>>
    decreases n,
{
    if n == 0 {
        step
    } else {
        catalog_run(listen, catalog_next(listen, step, catalog_reply(step, a)), a, (n - 1) as nat)
    }
}

proof fn lemma_catalog_settled(
    listen: Listen<Seq<char>>,
    step: CatalogStep<Seq<char>>,
    a: CatalogAnswers,
    n: nat,
)
    requires
        step is Resolved || step is Failed,
    ensures
        catalog_run(listen, step, a, n) == step,
    decreases n,
{
    if n > 0 {
        lemma_catalog_settled(listen, step, a, (n - 1) as nat);
    }
}

/// How many answers it takes to resolve the entries of a listen.
pub open spec fn catalog_answers(has_album: bool) -> nat {
    if has_album {
        4
    } else {
        3
    }
}

/// Four answers bring the resolution to the outcome that they determine.
pub proof fn law_catalog_resolution(listen: Listen<Seq<char>>, a: CatalogAnswers, n: nat)
    requires
        n >= 4,
    ensures
        catalog_run(listen, catalog_begin(listen), a, n) == catalog_end(
            catalog_outcome(listen.album is Some, a),
        ),
{
    reveal_with_fuel(catalog_run, 5);
    let s1 = catalog_next(listen, catalog_begin(listen), CatalogReply::Artist(a.artist));
    let s2 = catalog_next(listen, s1, catalog_reply(s1, a));
    let s3 = catalog_next(listen, s2, catalog_reply(s2, a));
    let s4 = catalog_next(listen, s3, catalog_reply(s3, a));
    assert(s4 == catalog_end(catalog_outcome(listen.album is Some, a)));
    lemma_catalog_settled(listen, s4, a, (n - 4) as nat);
}

/// What is asked in `step` is asked by the names of the listen.
pub open spec fn asks_for(listen: Listen<Seq<char>>, step: CatalogStep<Seq<char>>) -> bool {
    match step {
        CatalogStep::Artist { name } => name == listen.artist,
        CatalogStep::Album { title, .. } => listen.album == Some(title),
        CatalogStep::Track { title, duration_ms, .. } => title == listen.track && duration_ms
            == listen.duration_ms,
        _ => true,
    }
}

/// From the beginning on, the catalog is asked for the artist, album and track
/// that the listen names, and for no other.
pub proof fn law_catalog_is_asked_for_the_listen(
    listen: Listen<Seq<char>>,
    step: CatalogStep<Seq<char>>,
    reply: CatalogReply<Seq<char>>,
)
    ensures
        asks_for(listen, catalog_begin(listen)),
        asks_for(listen, step) ==> asks_for(listen, catalog_next(listen, step, reply)),
{
}

/// Whether enrichment could be queued never changes what a listen resolves to.
pub proof fn law_enqueue_is_best_effort(has_album: bool, a: CatalogAnswers, b: CatalogAnswers)
    requires
        b == (CatalogAnswers { enqueued: b.enqueued, ..a }),
    ensures
        catalog_outcome(has_album, a) == catalog_outcome(has_album, b),
{
}

// ---------------------------------------------------------------------------
// Scrobbles
// ---------------------------------------------------------------------------

#[derive(Debug, PartialEq, Eq)]
pub enum IngestError<S = String> {
    Validation(ScrobbleValidationError),
    Duplicate,
    Db(S),
}

impl DeepView for IngestError {
    type V = IngestError<Seq<char>>;

    open spec fn deep_view(&self) -> IngestError<Seq<char>> {
        match *self {
            IngestError::Validation(e) => IngestError::Validation(e),
            IngestError::Duplicate => IngestError::Duplicate,
            IngestError::Db(error) => IngestError::Db(error@),
        }
    }
}

/// The message that goes with an ingest error.
pub open spec fn ingest_message(e: IngestError<Seq<char>>) -> Seq<char> {
    match e {
        IngestError::Validation(v) => "scrobble validation failed: "@
            + scrobble::validation_message(v),
        IngestError::Duplicate => "duplicate scrobble detected"@,
        IngestError::Db(error) => "database error: "@ + error,
    }
}

impl IngestError {
    /// The message that goes with the error.
    pub fn message(&self) -> (res: String)
        ensures
            res@ == ingest_message(self.deep_view()),
    {
        match self {
            IngestError::Validation(v) => {
                text::join2("scrobble validation failed: ", v.message().as_str())
            },
            IngestError::Duplicate => "duplicate scrobble detected".to_owned(),
            IngestError::Db(error) => text::join2("database error: ", error.as_str()),
        }
    }
}

/// Parameters required to record a new scrobble.
#[derive(Debug, PartialEq, Eq)]
pub struct InsertScrobble<S = String> {
    pub user_id: i64,
    pub track_id: i64,
    pub artist_id: i64,
    pub album_id: Option<i64>,
    pub played_at: Timestamp,
    pub source: S,
    /// Actual listening duration, which may be shorter than the track's full
    /// duration.
    pub duration_ms: Option<i32>,
}

impl DeepView for InsertScrobble {
    type V = InsertScrobble<Seq<char>>;

    open spec fn deep_view(&self) -> InsertScrobble<Seq<char>> {
        InsertScrobble {
            user_id: self.user_id,
            track_id: self.track_id,
            artist_id: self.artist_id,
            album_id: self.album_id,
            played_at: self.played_at,
            source: self.source@,
            duration_ms: self.duration_ms,
        }
    }
}

/// How long a listen lasted: as long as the user listened where that is known,
/// else as long as the track is.
pub open spec fn listening_ms(input: ScrobbleInput<Seq<char>>) -> Option<i32> {
    match input.listened_ms {
        Some(ms) => Some(ms),
        None => input.duration_ms,
    }
}

/// What a listen calls its artist, album and track.
pub open spec fn listen_of(input: ScrobbleInput<Seq<char>>) -> Listen<Seq<char>> {
    Listen {
        artist: input.artist_name,
        album: input.album_title,
        track: input.track_title,
        duration_ms: input.duration_ms,
    }
}

fn to_listen(input: &ScrobbleInput) -> (res: Listen<&str>)
    ensures
        res.deep_view() == listen_of(input.deep_view()),
{
    Listen {
        artist: input.artist_name.as_str(),
        album: optional_str(&input.album_title),
        track: input.track_title.as_str(),
        duration_ms: input.duration_ms,
    }
}

/// The row that records the listen `input` of a user under the catalog entries
/// `ids`.
pub open spec fn scrobble_row(
    user_id: i64,
    input: ScrobbleInput<Seq<char>>,
    ids: CatalogIds,
) -> InsertScrobble<Seq<char>> {
    InsertScrobble {
        user_id,
        track_id: ids.track_id,
        artist_id: ids.artist_id,
        album_id: ids.album_id,
        played_at: input.played_at,
        source: input.source,
        duration_ms: listening_ms(input),
    }
}

/// Where the ingestion of a listen stands.
#[derive(Debug, PartialEq, Eq)]
pub enum IngestStep<S = String> {
    /// Look up the user's last scrobble.
    LastScrobble { user_id: i64 },
    /// Look up the name of its artist.
    LastArtist { last: Scrobble<S> },
    /// Look up the title of its track.
    LastTrack { last: Scrobble<S>, last_artist: Option<S> },
    /// Resolve the catalog entries.
    Catalog { step: CatalogStep<S> },
    /// Insert the scrobble.
    Insert { row: InsertScrobble<S> },
    /// The id of the new scrobble, or why there is none.
    Done { result: Result<i64, IngestError<S>> },
}

/// An answer from the database.
#[derive(Debug, PartialEq, Eq)]
pub enum IngestReply<S = String> {
    LastScrobble(Result<Option<Scrobble<S>>, S>),
    /// The name of the artist, unless it is gone.
    LastArtist(Result<Option<S>, S>),
    /// The title of the track, unless it is gone.
    LastTrack(Result<Option<S>, S>),
    Catalog(CatalogReply<S>),
    Inserted(Result<i64, S>),
}

impl DeepView for IngestStep {
    type V = IngestStep<Seq<char>>;

    open spec fn deep_view(&self) -> IngestStep<Seq<char>> {
        match *self {
            IngestStep::LastScrobble { user_id } => IngestStep::LastScrobble { user_id },
            IngestStep::LastArtist { last } => IngestStep::LastArtist { last: last.deep_view() },
            IngestStep::LastTrack { last, last_artist } => IngestStep::LastTrack {
                last: last.deep_view(),
                last_artist: last_artist.deep_view(),
            },
            IngestStep::Catalog { step } => IngestStep::Catalog { step: step.deep_view() },
            IngestStep::Insert { row } => IngestStep::Insert { row: row.deep_view() },
            IngestStep::Done { result } => IngestStep::Done { result: text::result_view(result) },
        }
    }
}

impl DeepView for IngestReply {
    type V = IngestReply<Seq<char>>;

    open spec fn deep_view(&self) -> IngestReply<Seq<char>> {
        match *self {
            IngestReply::LastScrobble(r) => IngestReply::LastScrobble(text::result_view(r)),
            IngestReply::LastArtist(r) => IngestReply::LastArtist(text::result_view(r)),
            IngestReply::LastTrack(r) => IngestReply::LastTrack(text::result_view(r)),
            IngestReply::Catalog(r) => IngestReply::Catalog(r.deep_view()),
            IngestReply::Inserted(r) => IngestReply::Inserted(text::result_view(r)),
        }
    }
}

impl IngestStep {
    /// The scrobble that is carried along was played at an existing instant.
    pub open spec fn wf(self) -> bool {
        match self {
            IngestStep::LastArtist { last } => last.played_at.wf(),
            IngestStep::LastTrack { last, .. } => last.played_at.wf(),
            _ => true,
        }
    }
}

impl IngestReply {
    /// The scrobble that came back was played at an existing instant.
    pub open spec fn wf(self) -> bool {
        self matches IngestReply::LastScrobble(Ok(Some(last))) ==> last.played_at.wf()
    }
}

/// The normalized form of a name that may be missing; a missing one is empty.
pub open spec fn normalized_or_empty(name: Option<Seq<char>>) -> Seq<char> {
    match name {
        Some(name) => scrobble::normalized(name),
        None => Seq::empty(),
    }
}

fn normalize_or_empty(name: &Option<String>) -> (res: String)
    ensures
        res@ == normalized_or_empty(name.deep_view()),
{
    match name {
        Some(name) => scrobble::normalize_name(name.as_str()),
        None => String::new(),
    }
}

/// The listen repeats the user's last scrobble: the same names, once
/// normalized, within the duplicate window.
pub open spec fn repeats_last(
    input: ScrobbleInput<Seq<char>>,
    last_played_at: Timestamp,
    last_artist: Option<Seq<char>>,
    last_track: Option<Seq<char>>,
) -> bool {
    &&& normalized_or_empty(last_track) == scrobble::normalized(input.track_title)
    &&& normalized_or_empty(last_artist) == scrobble::normalized(input.artist_name)
    &&& scrobble::within_duplicate_window(input.played_at, last_played_at)
}

/// Whether the listen repeats the user's last scrobble.
fn is_repeat(
    input: &ScrobbleInput,
    last_played_at: &Timestamp,
    last_artist: &Option<String>,
    last_track: &Option<String>,
) -> (res: bool)
    requires
        input.played_at.wf(),
        last_played_at.wf(),
    ensures
        res == repeats_last(
            input.deep_view(),
            *last_played_at,
            last_artist.deep_view(),
            last_track.deep_view(),
        ),
{
    let last_track = normalize_or_empty(last_track);
    let last_artist = normalize_or_empty(last_artist);
    let same_track: bool = last_track == scrobble::normalize_name(input.track_title.as_str())
        && last_artist == scrobble::normalize_name(input.artist_name.as_str());
    same_track && scrobble::plays_within_window(&input.played_at, last_played_at)
}

/// How the ingestion of a user's listen begins when the clock shows `now`: one
/// that breaks a rule ends it at once.
pub open spec fn ingest_begin(
    user_id: i64,
    input: ScrobbleInput<Seq<char>>,
    now: Timestamp,
) -> IngestStep<Seq<char>> {
    match scrobble::validation(input, now) {
        Ok(()) => IngestStep::LastScrobble { user_id },
        Err(e) => IngestStep::Done { result: Err(IngestError::Validation(e)) },
    }
}

/// One step of the ingestion.
pub open spec fn ingest_next(
    user_id: i64,
    input: ScrobbleInput<Seq<char>>,
    step: IngestStep<Seq<char>>,
    reply: IngestReply<Seq<char>>,
) -> IngestStep<Seq<char>> {
    match (step, reply) {
        (IngestStep::LastScrobble { .. }, IngestReply::LastScrobble(r)) => match r {
            Ok(Some(last)) => IngestStep::LastArtist { last },
            Ok(None) => IngestStep::Catalog { step: catalog_begin(listen_of(input)) },
            Err(error) => IngestStep::Done { result: Err(IngestError::Db(error)) },
        },
        (IngestStep::LastArtist { last }, IngestReply::LastArtist(r)) => match r {
            Ok(last_artist) => IngestStep::LastTrack { last, last_artist },
            Err(error) => IngestStep::Done { result: Err(IngestError::Db(error)) },
        },
        (IngestStep::LastTrack { last, last_artist }, IngestReply::LastTrack(r)) => match r {
            Ok(last_track) => if repeats_last(input, last.played_at, last_artist, last_track) {
                IngestStep::Done { result: Err(IngestError::Duplicate) }
            } else {
                IngestStep::Catalog { step: catalog_begin(listen_of(input)) }
            },
            Err(error) => IngestStep::Done { result: Err(IngestError::Db(error)) },
        },
        (IngestStep::Catalog { step: catalog }, IngestReply::Catalog(r)) => match catalog_next(
            listen_of(input),
            catalog,
            r,
        ) {
            CatalogStep::Resolved { ids } => IngestStep::Insert {
                row: scrobble_row(user_id, input, ids),
            },
            CatalogStep::Failed { error } => IngestStep::Done { result: Err(IngestError::Db(error)) },
            other => IngestStep::Catalog { step: other },
        },
        (IngestStep::Insert { .. }, IngestReply::Inserted(r)) => match r {
            Ok(id) => IngestStep::Done { result: Ok(id) },
            Err(error) => IngestStep::Done { result: Err(IngestError::Db(error)) },
        },
        _ => step,
    }
}

/// Begins the ingestion of a user's listen when the clock shows `now`.
pub fn ingest_scrobble_at(user_id: i64, input: &ScrobbleInput, now: &Timestamp) -> (res: IngestStep)
    ensures
        res.wf(),
        res.deep_view() == ingest_begin(user_id, input.deep_view(), *now),
{
    match scrobble::validate_at(input, now) {
        Ok(()) => IngestStep::LastScrobble { user_id },
        Err(e) => IngestStep::Done { result: Err(IngestError::Validation(e)) },
    }
}

/// Begins the ingestion of a listen: it validates it against the clock. Then
/// the user's last scrobble is looked up to detect a duplicate, the catalog
/// entries are resolved, and a new scrobble row is inserted. This is the single
/// path that every source of listens takes.
pub fn ingest_scrobble(user_id: i64, input: &ScrobbleInput) -> (res: IngestStep)
    ensures
        res.wf(),
        exists|now: Timestamp|
            now.wf() && now.plain() && now.secs >= 0 && res.deep_view() == #[trigger] ingest_begin(
                user_id,
                input.deep_view(),
                now,
            ),
{
    let now = time::now();
    ingest_scrobble_at(user_id, input, &now)
}

/// Takes the answer to the open question of an ingestion.
pub fn advance_ingest(
    user_id: i64,
    input: &ScrobbleInput,
    step: IngestStep,
    reply: IngestReply,
) -> (res: IngestStep)
    requires
        input.played_at.wf(),
        step.wf(),
        reply.wf(),
    ensures
        res.wf(),
        res.deep_view() == ingest_next(
            user_id,
            input.deep_view(),
            step.deep_view(),
            reply.deep_view(),
        ),
{
    match (step, reply) {
        (IngestStep::LastScrobble { .. }, IngestReply::LastScrobble(r)) => match r {
            Ok(Some(last)) => IngestStep::LastArtist { last },
            Ok(None) => IngestStep::Catalog { step: resolve_catalog(&to_listen(input)) },
            Err(error) => IngestStep::Done { result: Err(IngestError::Db(error)) },
        },
        (IngestStep::LastArtist { last }, IngestReply::LastArtist(r)) => match r {
            Ok(last_artist) => IngestStep::LastTrack { last, last_artist },
            Err(error) => IngestStep::Done { result: Err(IngestError::Db(error)) },
        },
        (IngestStep::LastTrack { last, last_artist }, IngestReply::LastTrack(r)) => match r {
            Ok(last_track) => if is_repeat(input, &last.played_at, &last_artist, &last_track) {
                IngestStep::Done { result: Err(IngestError::Duplicate) }
            } else {
                IngestStep::Catalog { step: resolve_catalog(&to_listen(input)) }
            },
            Err(error) => IngestStep::Done { result: Err(IngestError::Db(error)) },
        },
        (IngestStep::Catalog { step: catalog }, IngestReply::Catalog(r)) => match advance_catalog(
            &to_listen(input),
            catalog,
            r,
        ) {
            CatalogStep::Resolved { ids } => IngestStep::Insert {
                row: InsertScrobble {
                    user_id,
                    track_id: ids.track_id,
                    artist_id: ids.artist_id,
                    album_id: ids.album_id,
                    played_at: input.played_at,
                    source: input.source.clone(),
                    duration_ms: match input.listened_ms {
                        Some(ms) => Some(ms),
                        None => input.duration_ms,
                    },
                },
            },
            CatalogStep::Failed { error } => IngestStep::Done { result: Err(IngestError::Db(error)) },
            other => IngestStep::Catalog { step: other },
        },
        (IngestStep::Insert { .. }, IngestReply::Inserted(r)) => match r {
            Ok(id) => IngestStep::Done { result: Ok(id) },
            Err(error) => IngestStep::Done { result: Err(IngestError::Db(error)) },
        },
        (step, _) => step,
    }
}

/// What the database would answer to each question of an ingestion.
pub struct IngestAnswers {
    pub last_scrobble: Result<Option<Scrobble<Seq<char>>>, Seq<char>>,
    pub last_artist: Result<Option<Seq<char>>, Seq<char>>,
    pub last_track: Result<Option<Seq<char>>, Seq<char>>,
    pub catalog: CatalogAnswers,
    pub inserted: Result<i64, Seq<char>>,
}

/// The answer to the question that is open in `step`.
pub open spec fn ingest_reply(step: IngestStep<Seq<char>>, a: IngestAnswers) -> IngestReply<
    Seq<char>,
> {
    match step {
        IngestStep::LastScrobble { .. } => IngestReply::LastScrobble(a.last_scrobble),
        IngestStep::LastArtist { .. } => IngestReply::LastArtist(a.last_artist),
        IngestStep::LastTrack { .. } => IngestReply::LastTrack(a.last_track),
        IngestStep::Catalog { step } => IngestReply::Catalog(catalog_reply(step, a.catalog)),
        _ => IngestReply::Inserted(a.inserted),
    }
}

/// Why the listen may not be recorded, as far as the user's last scrobble is
/// concerned.
pub open spec fn ingest_refusal(input: ScrobbleInput<Seq<char>>, a: IngestAnswers) -> Option<
    IngestError<Seq<char>>,
> {
    match a.last_scrobble {
        Err(error) => Some(IngestError::Db(error)),
        Ok(None) => None,
        Ok(Some(last)) => match (a.last_artist, a.last_track) {
            (Err(error), _) => Some(IngestError::Db(error)),
            (Ok(_), Err(error)) => Some(IngestError::Db(error)),
            (Ok(artist), Ok(track)) => if repeats_last(input, last.played_at, artist, track) {
                Some(IngestError::Duplicate)
            } else {
                None
            },
        },
    }
}

/// What comes of a listen: it must meet the rules, must not repeat the last
/// scrobble, and its catalog entries must resolve; then it is inserted.
pub open spec fn ingest_outcome(
    input: ScrobbleInput<Seq<char>>,
    now: Timestamp,
    a: IngestAnswers,
) -> Result<i64, IngestError<Seq<char>>> {
    match (
        scrobble::validation(input, now),
        ingest_refusal(input, a),
        catalog_outcome(input.album_title is Some, a.catalog),
        a.inserted,
    ) {
        (Err(e), _, _, _) => Err(IngestError::Validation(e)),
        (_, Some(e), _, _) => Err(e),
        (_, _, Err(error), _) => Err(IngestError::Db(error)),
        (_, _, _, Err(error)) => Err(IngestError::Db(error)),
        (_, _, _, Ok(id)) => Ok(id),
    }
}

/// The state after `n` questions were answered.
pub open spec fn ingest_run(
    user_id: i64,
    input: ScrobbleInput<Seq<char>>,
    step: IngestStep<Seq<char>>,
    a: IngestAnswers,
    n: nat,
) -> IngestStep<Seq<char>>
    decreases n,
{
    if n == 0 {
        step
    } else {
        ingest_run(
            user_id,
            input,
            ingest_next(user_id, input, step, ingest_reply(step, a)),
            a,
            (n - 1) as nat,
        )
    }
}

proof fn lemma_ingest_settled(
    user_id: i64,
    input: ScrobbleInput<Seq<char>>,
    step: IngestStep<Seq<char>>,
    a: IngestAnswers,
    n: nat,
)
    requires
        step is Done,
    ensures
        ingest_run(user_id, input, step, a, n) == step,
    decreases n,
{
    if n > 0 {
        lemma_ingest_settled(user_id, input, step, a, (n - 1) as nat);
    }
}

/// From the resolution of the catalog entries on, five answers end it.
proof fn lemma_ingest_from_catalog(
    user_id: i64,
    input: ScrobbleInput<Seq<char>>,
    a: IngestAnswers,
    n: nat,
)
    requires
        n >= 5,
    ensures
        ingest_run(user_id, input, IngestStep::Catalog { step: catalog_begin(listen_of(input)) }, a, n)
            == (IngestStep::<Seq<char>>::Done {
            result: match (catalog_outcome(input.album_title is Some, a.catalog), a.inserted) {
                (Err(error), _) => Err(IngestError::Db(error)),
                (Ok(_), Err(error)) => Err(IngestError::Db(error)),
                (Ok(_), Ok(id)) => Ok(id),
            },
        }),
{
    reveal_with_fuel(ingest_run, 6);
    let s0 = IngestStep::<Seq<char>>::Catalog { step: catalog_begin(listen_of(input)) };
    let s1 = ingest_next(user_id, input, s0, ingest_reply(s0, a));
    let s2 = ingest_next(user_id, input, s1, ingest_reply(s1, a));
    let s3 = ingest_next(user_id, input, s2, ingest_reply(s2, a));
    let s4 = ingest_next(user_id, input, s3, ingest_reply(s3, a));
    let s5 = ingest_next(user_id, input, s4, ingest_reply(s4, a));
    assert(s5 is Done);
    lemma_ingest_settled(user_id, input, s5, a, (n - 5) as nat);
}

/// Eight answers bring every ingestion to the outcome that they determine.
pub proof fn law_ingestion(
    user_id: i64,
    input: ScrobbleInput<Seq<char>>,
    now: Timestamp,
    a: IngestAnswers,
    n: nat,
)
    requires
        n >= 8,
    ensures
        ingest_run(user_id, input, ingest_begin(user_id, input, now), a, n) == (IngestStep::<
            Seq<char>,
        >::Done { result: ingest_outcome(input, now, a) }),
{
    let s0 = ingest_begin(user_id, input, now);
    if s0 is Done {
        lemma_ingest_settled(user_id, input, s0, a, n);
    } else {
        reveal_with_fuel(ingest_run, 4);
        let s1 = ingest_next(user_id, input, s0, ingest_reply(s0, a));
        let s2 = ingest_next(user_id, input, s1, ingest_reply(s1, a));
        let s3 = ingest_next(user_id, input, s2, ingest_reply(s2, a));
        if a.last_scrobble is Err {
            lemma_ingest_settled(user_id, input, s1, a, (n - 1) as nat);
        } else if a.last_scrobble == Ok::<Option<Scrobble<Seq<char>>>, Seq<char>>(None) {
            lemma_ingest_from_catalog(user_id, input, a, (n - 1) as nat);
        } else if a.last_artist is Err {
            lemma_ingest_settled(user_id, input, s2, a, (n - 2) as nat);
        } else if s3 is Done {
            lemma_ingest_settled(user_id, input, s3, a, (n - 3) as nat);
        } else {
            lemma_ingest_from_catalog(user_id, input, a, (n - 3) as nat);
        }
    }
}

/// The rows that an ingestion asks to be inserted carry the user, the time and
/// the source of the listen, and how long it lasted: what the user listened to
/// where that is known, which may be shorter than the track.
pub proof fn law_inserted_row_keeps_the_listen(
    user_id: i64,
    input: ScrobbleInput<Seq<char>>,
    step: IngestStep<Seq<char>>,
    reply: IngestReply<Seq<char>>,
)
    requires
        !(step is Insert),
    ensures
        ingest_next(user_id, input, step, reply) matches IngestStep::Insert { row } ==> {
            &&& row.user_id == user_id
            &&& row.played_at == input.played_at
            &&& row.source == input.source
            &&& input.listened_ms is Some ==> row.duration_ms == input.listened_ms
            &&& input.listened_ms is None ==> row.duration_ms == input.duration_ms
        },
{
}

/// An ingestion asks the catalog for the artist, album and track that the
/// listen names, and for no other.
pub proof fn law_ingestion_asks_for_the_listen(
    user_id: i64,
    input: ScrobbleInput<Seq<char>>,
    now: Timestamp,
    step: IngestStep<Seq<char>>,
    reply: IngestReply<Seq<char>>,
)
    ensures
        !(ingest_begin(user_id, input, now) is Catalog),
        (step matches IngestStep::Catalog { step } ==> asks_for(listen_of(input), step)) ==> (
        ingest_next(user_id, input, step, reply) matches IngestStep::Catalog { step } ==> asks_for(
            listen_of(input),
            step,
        )),
{
}

/// A listen that repeats the user's last scrobble is never inserted.
pub proof fn law_duplicates_are_refused(
    input: ScrobbleInput<Seq<char>>,
    now: Timestamp,
    last: Scrobble<Seq<char>>,
    artist: Option<Seq<char>>,
    track: Option<Seq<char>>,
    a: IngestAnswers,
)
    requires
        a.last_scrobble == Ok::<Option<Scrobble<Seq<char>>>, Seq<char>>(Some(last)),
        a.last_artist == Ok::<Option<Seq<char>>, Seq<char>>(artist),
        a.last_track == Ok::<Option<Seq<char>>, Seq<char>>(track),
        repeats_last(input, last.played_at, artist, track),
    ensures
        ingest_outcome(input, now, a) is Err,
        scrobble::validation(input, now) is Ok ==> ingest_outcome(input, now, a) == Err::<
            i64,
            IngestError<Seq<char>>,
        >(IngestError::Duplicate),
{
}

// ---------------------------------------------------------------------------
// POST /v1/scrobble
// ---------------------------------------------------------------------------

#[derive(Debug, PartialEq, Eq)]
pub struct ScrobbleRequest<S = String> {
    pub track: S,
    pub artist: S,
    pub album: Option<S>,
    pub played_at: Timestamp,
    pub duration_ms: Option<i32>,
    pub listened_ms: Option<i32>,
    pub source: Option<S>,
}

impl DeepView for ScrobbleRequest {
    type V = ScrobbleRequest<Seq<char>>;

    open spec fn deep_view(&self) -> ScrobbleRequest<Seq<char>> {
        ScrobbleRequest {
            track: self.track@,
            artist: self.artist@,
            album: self.album.deep_view(),
            played_at: self.played_at,
            duration_ms: self.duration_ms,
            listened_ms: self.listened_ms,
            source: self.source.deep_view(),
        }
    }
}

#[derive(Debug, Clone, Copy, PartialEq, Eq, Structural)]
pub struct ScrobbleResponse {
    pub id: i64,
    pub played_at: Timestamp,
}

impl DeepView for ScrobbleResponse {
    type V = ScrobbleResponse;

    open spec fn deep_view(&self) -> ScrobbleResponse {
        *self
    }
}

/// A source that was not named is the browser extension.
pub open spec fn source_or_extension(source: Option<Seq<char>>) -> Seq<char> {
    match source {
        Some(source) => source,
        None => "extension"@,
    }
}

/// The listen that a request reports.
pub open spec fn requested_listen(body: ScrobbleRequest<Seq<char>>) -> ScrobbleInput<Seq<char>> {
    ScrobbleInput {
        track_title: body.track,
        artist_name: body.artist,
        album_title: body.album,
        played_at: body.played_at,
        duration_ms: body.duration_ms,
        listened_ms: body.listened_ms,
        source: source_or_extension(body.source),
    }
}

/// Begins to answer `POST /v1/scrobble` when the clock shows `now`.
pub fn scrobble_at(user_id: i64, body: ScrobbleRequest, now: &Timestamp) -> (res: (
    ScrobbleInput,
    IngestStep,
))
    ensures
        res.0.deep_view() == requested_listen(body.deep_view()),
        res.1.wf(),
        res.1.deep_view() == ingest_begin(user_id, requested_listen(body.deep_view()), *now),
{
    let input = ScrobbleInput {
        track_title: body.track,
        artist_name: body.artist,
        album_title: body.album,
        played_at: body.played_at,
        duration_ms: body.duration_ms,
        listened_ms: body.listened_ms,
        source: match body.source {
            Some(source) => source,
            None => "extension".to_owned(),
        },
    };
    let step = ingest_scrobble_at(user_id, &input, now);
    (input, step)
}

/// `POST /v1/scrobble`: the listen that the request reports, and how its
/// ingestion begins. [`advance_ingest`] carries it on, and
/// [`scrobble_response`] answers the request with its result.
pub fn scrobble(user_id: i64, body: ScrobbleRequest) -> (res: (ScrobbleInput, IngestStep))
    ensures
        res.0.deep_view() == requested_listen(body.deep_view()),
        res.1.wf(),
        exists|now: Timestamp|
            now.wf() && now.plain() && now.secs >= 0 && res.1.deep_view()
                == #[trigger] ingest_begin(user_id, requested_listen(body.deep_view()), now),
{
    let now = time::now();
    scrobble_at(user_id, body, &now)
}

/// The answer to a scrobble request whose ingestion came to `result`.
pub open spec fn scrobble_answer(
    played_at: Timestamp,
    result: Result<i64, IngestError<Seq<char>>>,
) -> Result<ScrobbleResponse, AppError<Seq<char>>> {
    match result {
        Ok(id) => Ok(ScrobbleResponse { id, played_at }),
        Err(IngestError::Validation(e)) => Err(
            AppError::ScrobbleInvalid(scrobble::validation_message(e)),
        ),
        Err(IngestError::Duplicate) => Err(AppError::ScrobbleInvalid("duplicate scrobble detected"@)),
        Err(IngestError::Db(error)) => Err(AppError::Database(error)),
    }
}

/// Answers a scrobble request: the new scrobble (201), or why there is none.
pub fn scrobble_response(played_at: Timestamp, result: Result<i64, IngestError>) -> (res: Result<
    ScrobbleResponse,
    AppError,
>)
    ensures
        text::result_view(res) == scrobble_answer(played_at, text::result_view(result)),
{
    match result {
        Ok(id) => Ok(ScrobbleResponse { id, played_at }),
        Err(IngestError::Validation(e)) => Err(AppError::ScrobbleInvalid(e.message())),
        Err(IngestError::Duplicate) => Err(
            AppError::ScrobbleInvalid("duplicate scrobble detected".to_owned()),
        ),
        Err(IngestError::Db(error)) => Err(AppError::Database(error)),
    }
}

/// A scrobble request is refused as a bad request exactly when the listen
/// breaks a rule or repeats the last scrobble; any other failure is internal.
pub proof fn law_invalid_scrobbles_are_bad_requests(
    played_at: Timestamp,
    result: Result<i64, IngestError<Seq<char>>>,
)
    ensures
        match result {
            Ok(id) => scrobble_answer(played_at, result) is Ok,
            Err(e) => scrobble_answer(played_at, result) matches Err(answer)
                && crate::errors::error_status(answer) == (if e is Db {
                500u16
            } else {
                400u16
            }),
        },
{
}

// ---------------------------------------------------------------------------
// Laws
// ---------------------------------------------------------------------------

/// A listen resolves exactly when its artist and its track do, and its album where
/// it names one. It resolves to what they resolved to; else it fails as the first
/// of them that does.
pub proof fn law_what_a_listen_resolves_to(has_album: bool, a: CatalogAnswers)
    ensures
        catalog_outcome(has_album, a) is Ok <==> a.artist is Ok && (has_album ==> a.album is Ok)
            && a.track is Ok,
        catalog_outcome(has_album, a) matches Ok(ids) ==> {
            &&& a.artist == Ok::<i64, Seq<char>>(ids.artist_id)
            &&& a.track == Ok::<(i64, Option<i32>), Seq<char>>(
                (ids.track_id, ids.track_duration_ms),
            )
            &&& has_album ==> (ids.album_id matches Some(album_id) && a.album == Ok::<
                i64,
                Seq<char>,
            >(album_id))
            &&& !has_album ==> ids.album_id is None
        },
        a.artist matches Err(error) ==> catalog_outcome(has_album, a) == Err::<
            CatalogIds,
            Seq<char>,
        >(error),
        a.artist is Ok && has_album ==> (a.album matches Err(error) ==> catalog_outcome(
            has_album,
            a,
        ) == Err::<CatalogIds, Seq<char>>(error)),
        a.artist is Ok && (has_album ==> a.album is Ok) ==> (a.track matches Err(error)
            ==> catalog_outcome(has_album, a) == Err::<CatalogIds, Seq<char>>(error)),
{
}

/// The album and the track of a listen are looked for under the artist that was
/// found, and the track with the album that was found; then enrichment is queued
/// for all three.
pub proof fn law_entries_are_found_under_their_artist(
    listen: Listen<Seq<char>>,
    artist_id: i64,
    album_id: i64,
    under: Option<i64>,
    track_id: i64,
    duration: Option<i32>,
    title: Seq<char>,
    duration_ms: Option<i32>,
)
    ensures
        catalog_next(listen, catalog_begin(listen), CatalogReply::Artist(Ok(artist_id))) == (
        match listen.album {
            Some(title) => CatalogStep::<Seq<char>>::Album { artist_id, title },
            None => CatalogStep::<Seq<char>>::Track {
                artist_id,
                album_id: None,
                title: listen.track,
                duration_ms: listen.duration_ms,
            },
        }),
        catalog_next(
            listen,
            CatalogStep::Album { artist_id, title },
            CatalogReply::Album(Ok(album_id)),
        ) == (CatalogStep::<Seq<char>>::Track {
            artist_id,
            album_id: Some(album_id),
            title: listen.track,
            duration_ms: listen.duration_ms,
        }),
        catalog_next(
            listen,
            CatalogStep::Track { artist_id, album_id: under, title, duration_ms },
            CatalogReply::Track(Ok((track_id, duration))),
        ) == (CatalogStep::<Seq<char>>::Enqueue {
            ids: CatalogIds {
                artist_id,
                album_id: under,
                track_id,
                track_duration_ms: duration,
            },
        }),
{
}

/// What a failed ingestion says.
pub proof fn law_ingest_messages(v: ScrobbleValidationError, error: Seq<char>)
    ensures
        ingest_message(IngestError::Validation(v)) == "scrobble validation failed: "@
            + scrobble::validation_message(v),
        ingest_message(IngestError::Duplicate) == "duplicate scrobble detected"@,
        ingest_message(IngestError::Db(error)) == "database error: "@ + error,
{
}

/// The catalog is asked for what the listen calls its artist, its album and its
/// track, with the length it gives for the track.
pub proof fn law_names_of_a_listen(input: ScrobbleInput<Seq<char>>)
    ensures
        listen_of(input).artist == input.artist_name,
        listen_of(input).album == input.album_title,
        listen_of(input).track == input.track_title,
        listen_of(input).duration_ms == input.duration_ms,
{
}

/// A listen is recorded for its user, under the entries that it resolved to, at
/// the time and from the source it reports, and for as long as the user listened,
/// or else as the track lasts.
pub proof fn law_recorded_rows(
    user_id: i64,
    input: ScrobbleInput<Seq<char>>,
    ids: CatalogIds,
    reply: Result<(), Seq<char>>,
)
    ensures
        ({
            let row = scrobble_row(user_id, input, ids);
            &&& row.user_id == user_id
            &&& row.track_id == ids.track_id
            &&& row.artist_id == ids.artist_id
            &&& row.album_id == ids.album_id
            &&& row.played_at == input.played_at
            &&& row.source == input.source
            &&& input.listened_ms is Some ==> row.duration_ms == input.listened_ms
            &&& input.listened_ms is None ==> row.duration_ms == input.duration_ms
            &&& ingest_next(
                user_id,
                input,
                IngestStep::Catalog { step: CatalogStep::Enqueue { ids } },
                IngestReply::Catalog(CatalogReply::Enqueued(reply)),
            ) == (IngestStep::<Seq<char>>::Insert { row })
        }),
{
}

/// Outside leap seconds, a listen repeats the last scrobble exactly when its
/// artist and its track have the same names, once normalized, and it was played
/// less than 30 seconds before or after. A name that is gone is the empty one.
pub proof fn law_what_repeats_the_last_scrobble(
    input: ScrobbleInput<Seq<char>>,
    last_played_at: Timestamp,
    artist: Seq<char>,
    track: Seq<char>,
)
    requires
        input.played_at.plain(),
        last_played_at.plain(),
    ensures
        ({
            let close = -30_000_000_000 < input.played_at.total_nanos()
                - last_played_at.total_nanos() < 30_000_000_000;
            let new_artist = scrobble::normalized(input.artist_name);
            let new_track = scrobble::normalized(input.track_title);
            let none = Seq::<char>::empty();
            &&& repeats_last(input, last_played_at, Some(artist), Some(track)) <==> close
                && scrobble::normalized(artist) == new_artist && scrobble::normalized(track)
                == new_track
            &&& repeats_last(input, last_played_at, None, Some(track)) <==> close && none
                == new_artist && scrobble::normalized(track) == new_track
            &&& repeats_last(input, last_played_at, Some(artist), None) <==> close
                && scrobble::normalized(artist) == new_artist && none == new_track
            &&& repeats_last(input, last_played_at, None, None) <==> close && none == new_artist
                && none == new_track
        }),
{
    time::law_plain_instants_are_counted(input.played_at, last_played_at);
}

/// A listen is recorded exactly when it meets the rules, does not repeat the last
/// scrobble, and its entries and the row itself are stored. Why it is not is told:
/// first the rules, then the last scrobble, then the database.
pub proof fn law_what_becomes_of_a_listen(
    input: ScrobbleInput<Seq<char>>,
    now: Timestamp,
    a: IngestAnswers,
)
    ensures
        ({
            let outcome = ingest_outcome(input, now, a);
            let entries = catalog_outcome(input.album_title is Some, a.catalog);
            &&& outcome is Ok <==> scrobble::validation(input, now) is Ok && ingest_refusal(
                input,
                a,
            ) is None && entries is Ok && a.inserted is Ok
            &&& outcome matches Ok(id) ==> a.inserted == Ok::<i64, Seq<char>>(id)
            &&& scrobble::validation(input, now) matches Err(e) ==> outcome == Err::<
                i64,
                IngestError<Seq<char>>,
            >(IngestError::Validation(e))
            &&& scrobble::validation(input, now) is Ok ==> {
                &&& ingest_refusal(input, a) matches Some(e) ==> outcome == Err::<
                    i64,
                    IngestError<Seq<char>>,
                >(e)
                &&& ingest_refusal(input, a) is None ==> (entries matches Err(error) ==> outcome
                    == Err::<i64, IngestError<Seq<char>>>(IngestError::Db(error)))
                &&& ingest_refusal(input, a) is None && entries is Ok ==> (a.inserted matches Err(
                    error,
                ) ==> outcome == Err::<i64, IngestError<Seq<char>>>(IngestError::Db(error)))
            }
        }),
{
}

/// The last scrobble stands in the way exactly when it could not be read, or the
/// listen repeats it; the first scrobble of a user has none to repeat.
pub proof fn law_when_the_last_scrobble_stands_in_the_way(
    input: ScrobbleInput<Seq<char>>,
    last: Scrobble<Seq<char>>,
    artist: Option<Seq<char>>,
    track: Option<Seq<char>>,
    error: Seq<char>,
    a: IngestAnswers,
)
    ensures
        a.last_scrobble == Ok::<Option<Scrobble<Seq<char>>>, Seq<char>>(None) ==> ingest_refusal(
            input,
            a,
        ) is None,
        a.last_scrobble == Err::<Option<Scrobble<Seq<char>>>, Seq<char>>(error) ==> ingest_refusal(
            input,
            a,
        ) == Some(IngestError::<Seq<char>>::Db(error)),
        a.last_scrobble == Ok::<Option<Scrobble<Seq<char>>>, Seq<char>>(Some(last)) ==> {
            &&& a.last_artist == Err::<Option<Seq<char>>, Seq<char>>(error) ==> ingest_refusal(
                input,
                a,
            ) == Some(IngestError::<Seq<char>>::Db(error))
            &&& a.last_artist == Ok::<Option<Seq<char>>, Seq<char>>(artist) && a.last_track
                == Err::<Option<Seq<char>>, Seq<char>>(error) ==> ingest_refusal(input, a) == Some(
                IngestError::<Seq<char>>::Db(error),
            )
            &&& a.last_artist == Ok::<Option<Seq<char>>, Seq<char>>(artist) && a.last_track == Ok::<
                Option<Seq<char>>,
                Seq<char>,
            >(track) ==> ingest_refusal(input, a) == if repeats_last(
                input,
                last.played_at,
                artist,
                track,
            ) {
                Some(IngestError::<Seq<char>>::Duplicate)
            } else {
                None
            }
        },
{
}

/// The last scrobble that is looked up is that of the user who listened, and the
/// names that are looked up are those of its artist and its track.
pub proof fn law_the_users_own_last_scrobble_is_looked_up(
    user_id: i64,
    input: ScrobbleInput<Seq<char>>,
    last: Scrobble<Seq<char>>,
    artist: Option<Seq<char>>,
    now: Timestamp,
)
    ensures
        scrobble::validation(input, now) is Ok ==> ingest_begin(user_id, input, now) == (
        IngestStep::<Seq<char>>::LastScrobble { user_id }),
        ingest_next(
            user_id,
            input,
            IngestStep::LastScrobble { user_id },
            IngestReply::LastScrobble(Ok(Some(last))),
        ) == (IngestStep::<Seq<char>>::LastArtist { last }),
        ingest_next(
            user_id,
            input,
            IngestStep::LastArtist { last },
            IngestReply::LastArtist(Ok(artist)),
        ) == (IngestStep::<Seq<char>>::LastTrack { last, last_artist: artist }),
{
}

/// A request reports the listen that it describes; one that does not name its
/// source comes from the browser extension.
pub proof fn law_requests_report_their_listen(body: ScrobbleRequest<Seq<char>>)
    ensures
        ({
            let input = requested_listen(body);
            &&& input.track_title == body.track
            &&& input.artist_name == body.artist
            &&& input.album_title == body.album
            &&& input.played_at == body.played_at
            &&& input.duration_ms == body.duration_ms
            &&& input.listened_ms == body.listened_ms
            &&& body.source matches Some(source) ==> input.source == source
            &&& body.source is None ==> input.source == "extension"@
        }),
{
}

/// A request is answered with the id of the new scrobble and when it was played,
/// or with why there is none.
pub proof fn law_scrobble_answers(
    played_at: Timestamp,
    id: i64,
    v: ScrobbleValidationError,
    error: Seq<char>,
)
    ensures
        scrobble_answer(played_at, Ok(id)) == Ok::<ScrobbleResponse, AppError<Seq<char>>>(
            ScrobbleResponse { id, played_at },
        ),
        scrobble_answer(played_at, Err(IngestError::Validation(v))) == Err::<
            ScrobbleResponse,
            AppError<Seq<char>>,
        >(AppError::ScrobbleInvalid(scrobble::validation_message(v))),
        scrobble_answer(played_at, Err(IngestError::Duplicate)) == Err::<
            ScrobbleResponse,
            AppError<Seq<char>>,
        >(AppError::ScrobbleInvalid("duplicate scrobble detected"@)),
        scrobble_answer(played_at, Err(IngestError::Db(error))) == Err::<
            ScrobbleResponse,
            AppError<Seq<char>>,
        >(AppError::Database(error)),
{
}

/// A scrobble request begins with the listen that it reports, in its own words; one
/// that breaks a rule is refused before anything is asked, and any other asks for
/// the last scrobble of its user.
pub proof fn law_scrobble_requests(
    user_id: i64,
    body: ScrobbleRequest,
    now: &Timestamp,
    res: (ScrobbleInput, IngestStep),
)
    requires
        call_ensures(scrobble_at, (user_id, body, now), res),
    ensures
        res.0.track_title@ == body.track@,
        res.0.artist_name@ == body.artist@,
        res.0.album_title is Some <==> body.album is Some,
        res.0.played_at == body.played_at,
        res.0.duration_ms == body.duration_ms,
        res.0.listened_ms == body.listened_ms,
        body.source matches Some(source) ==> res.0.source@ == source@,
        body.source is None ==> res.0.source@ == "extension"@,
        match scrobble::validation(res.0.deep_view(), *now) {
            Ok(()) => res.1 == (IngestStep::<String>::LastScrobble { user_id }),
            Err(e) => res.1 == (IngestStep::<String>::Done {
                result: Err(IngestError::Validation(e)),
            }),
        },
{
    let view = res.0.deep_view();
    assert(view == requested_listen(body.deep_view()));
    assert(view.album_title is Some <==> res.0.album_title is Some);
    assert(body.deep_view().album is Some <==> body.album is Some);
    assert(body.deep_view().source is Some <==> body.source is Some);
}

/// A recorded scrobble is answered with its id and its time; a refused one as a bad
/// request, and a failure of the database as such.
pub proof fn law_scrobble_responses(
    played_at: Timestamp,
    result: Result<i64, IngestError>,
    res: Result<ScrobbleResponse, AppError>,
)
    requires
        call_ensures(scrobble_response, (played_at, result), res),
    ensures
        result matches Ok(id) ==> res == Ok::<ScrobbleResponse, AppError>(
            ScrobbleResponse { id, played_at },
        ),
        result matches Err(IngestError::Validation(_)) ==> (res matches Err(e)
            && e is ScrobbleInvalid),
        result matches Err(IngestError::Duplicate) ==> (res matches Err(e) && e.deep_view()
            == AppError::<Seq<char>>::ScrobbleInvalid("duplicate scrobble detected"@)),
        result matches Err(IngestError::Db(error)) ==> (res matches Err(e) && e.deep_view()
            == AppError::<Seq<char>>::Database(error@)),
{
}

} // verus!
