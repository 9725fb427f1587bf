//! Track jobs: MBID and duration of a track. A track job piggybacks on its
//! single MusicBrainz lookup to also resolve the artist's MBID and, when a
//! release title matches, the album's MBID and release date.

use super::Processed;
use crate::ids::Uuid;
use crate::metadata;
use crate::metadata::{
    AlbumMetadata, ArtistMetadata, CatalogWrite, TrackMetadata, WriteBatch, WriteFailure,
};
use crate::providers::musicbrainz;
use crate::providers::musicbrainz::{ArtistCredit, Recording, Release, ReleaseFilter};
use crate::providers::ProviderError;
use crate::text;
use vstd::prelude::*;
use vstd::string::*;

verus! {

#[derive(Debug, PartialEq, Eq)]
pub struct TrackCtx<S = String> {
    pub id: i64,
    pub title: S,
    pub mbid: Option<Uuid>,
    pub duration_ms: Option<i32>,
    pub artist_id: i64,
    pub artist_name: S,
    pub artist_mbid: Option<Uuid>,
    pub album_id: Option<i64>,
    pub album_title: Option<S>,
    pub album_mbid: Option<Uuid>,
}

impl DeepView for TrackCtx {
    type V = TrackCtx<Seq<char>>;

    open spec fn deep_view(&self) -> TrackCtx<Seq<char>> {
        TrackCtx {
            id: self.id,
            title: self.title@,
            mbid: self.mbid,
            duration_ms: self.duration_ms,
            artist_id: self.artist_id,
            artist_name: self.artist_name@,
            artist_mbid: self.artist_mbid,
            album_id: self.album_id,
            album_title: self.album_title.deep_view(),
            album_mbid: self.album_mbid,
        }
    }
}

/// Where a track job stands.
#[derive(Debug, PartialEq, Eq)]
#[allow(inconsistent_fields)]
pub enum TrackStep<S = String, L = Vec<String>, W = Vec<CatalogWrite>> {
    /// Read the track.
    Load { id: i64 },
    /// Search MusicBrainz by title and artist.
    Search { ctx: TrackCtx<S> },
    /// Look the recording up by its MBID.
    Lookup { ctx: TrackCtx<S>, mbid: Uuid },
    /// Write what was found.
    Apply { batch: WriteBatch<W>, transient: L },
    Done { result: Result<Processed<L>, S> },
}

#[derive(Debug, PartialEq, Eq)]
pub enum TrackReply<S = String, R = Recording> {
    Loaded(Result<Option<TrackCtx<S>>, S>),
    Recording(Result<Option<R>, ProviderError<S>>),
    Written(Result<(), WriteFailure<S>>),
}

pub type TrackStepView = TrackStep<Seq<char>, Seq<Seq<char>>, Seq<CatalogWrite<Seq<char>>>>;

pub type RecordingView = Recording<Seq<ArtistCredit>, Seq<Release<Seq<char>>>>;

pub type TrackReplyView = TrackReply<Seq<char>, RecordingView>;

impl DeepView for TrackStep {
    type V = TrackStep<Seq<char>, Seq<Seq<char>>, Seq<CatalogWrite<Seq<char>>>>;

    open spec fn deep_view(&self) -> TrackStep<
        Seq<char>,
        Seq<Seq<char>>,
        Seq<CatalogWrite<Seq<char>>>,
    > {
        match *self {
            TrackStep::Load { id } => TrackStep::Load { id },
            TrackStep::Search { ctx } => TrackStep::Search { ctx: ctx.deep_view() },
            TrackStep::Lookup { ctx, mbid } => TrackStep::Lookup { ctx: ctx.deep_view(), mbid },
            TrackStep::Apply { batch, transient } => TrackStep::Apply {
                batch: batch.deep_view(),
                transient: transient.deep_view(),
            },
            TrackStep::Done { result } => TrackStep::Done { result: text::result_view(result) },
        }
    }
}

impl DeepView for TrackReply {
    type V = TrackReply<Seq<char>, RecordingView>;

    open spec fn deep_view(&self) -> TrackReply<Seq<char>, RecordingView> {
        match *self {
            TrackReply::Loaded(r) => TrackReply::Loaded(text::result_view(r)),
            TrackReply::Recording(r) => TrackReply::Recording(text::result_view(r)),
            TrackReply::Written(r) => TrackReply::Written(text::result_view(r)),
        }
    }
}

/// The request that answers the question which is open in `step`, where it is one
/// for MusicBrainz.
pub open spec fn track_asks(step: TrackStepView) -> Option<super::ProviderRequestView> {
    match step {
        TrackStep::Search { ctx } => Some(
            super::ProviderRequest::MusicBrainz {
                get: musicbrainz::recording_search(ctx.title, ctx.artist_name),
            },
        ),
        TrackStep::Lookup { mbid, .. } => Some(
            super::ProviderRequest::MusicBrainz { get: musicbrainz::recording_lookup(mbid) },
        ),
        _ => None,
    }
}

/// The request that answers the open question of a track job: a search by the
/// track's title and artist, or a lookup by its MBID.
pub fn track_request(step: &TrackStep) -> (res: Option<super::ProviderRequest>)
    ensures
        res.deep_view() == track_asks(step.deep_view()),
{
    match step {
        TrackStep::Search { ctx } => Some(
            super::ProviderRequest::MusicBrainz {
                get: musicbrainz::search_recording(ctx.title.as_str(), ctx.artist_name.as_str()),
            },
        ),
        TrackStep::Lookup { mbid, .. } => Some(
            super::ProviderRequest::MusicBrainz { get: musicbrainz::lookup_recording(*mbid) },
        ),
        _ => None,
    }
}

/// A duration that fits the column.
pub open spec fn fitting_duration(length: Option<i64>) -> Option<i32> {
    match length {
        Some(l) if i32::MIN <= l <= i32::MAX => Some(l as i32),
        _ => None,
    }
}

/// The track's own metadata.
pub open spec fn track_write(ctx: TrackCtx<Seq<char>>, rec: RecordingView) -> CatalogWrite<
    Seq<char>,
> {
    CatalogWrite::Track {
        track_id: ctx.id,
        track: TrackMetadata { mbid: Some(rec.id), duration_ms: fitting_duration(rec.length) },
    }
}

/// The recording carries the artist's MBID, which is written where it is
/// unknown.
pub open spec fn credited_artist(ctx: TrackCtx<Seq<char>>, rec: RecordingView) -> Option<
    CatalogWrite<Seq<char>>,
> {
    if ctx.artist_mbid is None && rec.artist_credit.len() > 0 {
        Some(
            CatalogWrite::Artist {
                artist_id: ctx.artist_id,
                artist: ArtistMetadata {
                    mbid: Some(rec.artist_credit[0].artist.id),
                    image_url: None,
                    bio: None,
                },
                overwrite: false,
            },
        )
    } else {
        None
    }
}

/// The metadata that a release has for its album.
pub open spec fn release_metadata(r: Release<Seq<char>>) -> AlbumMetadata<Seq<char>> {
    AlbumMetadata {
        mbid: Some(r.id),
        image_url: None,
        release_date: match r.date {
            Some(date) => musicbrainz::mb_date(date),
            None => None,
        },
    }
}

/// The recording's releases can identify the album, saving that job its own
/// search: the preferred one of those with the album's title, where the album
/// has no MBID yet.
pub open spec fn matched_album(ctx: TrackCtx<Seq<char>>, rec: RecordingView) -> Option<
    CatalogWrite<Seq<char>>,
> {
    match (ctx.album_id, ctx.album_title) {
        (Some(album_id), Some(title)) => if ctx.album_mbid is None {
            match musicbrainz::preferred(rec.releases, ReleaseFilter::Titled(title)) {
                Some(release) => Some(
                    CatalogWrite::Album {
                        album_id,
                        album: release_metadata(release),
                        overwrite: false,
                    },
                ),
                None => None,
            }
        } else {
            None
        },
        _ => None,
    }
}

/// A list with one more item, where there is one.
pub open spec fn with<T>(list: Seq<T>, item: Option<T>) -> Seq<T> {
    match item {
        Some(item) => list.push(item),
        None => list,
    }
}

/// Everything that a recording has to say about a track, its artist and its
/// album.
pub open spec fn track_writes(ctx: TrackCtx<Seq<char>>, rec: RecordingView) -> Seq<
    CatalogWrite<Seq<char>>,
> {
    with(with(seq![track_write(ctx, rec)], credited_artist(ctx, rec)), matched_album(ctx, rec))
}

/// How the search for a track begins. One MusicBrainz call covers everything a
/// track needs: a search when the MBID is unknown, a direct lookup when only
/// the duration is missing, and nothing when neither is.
pub open spec fn track_begin(ctx: TrackCtx<Seq<char>>) -> TrackStepView {
    match (ctx.mbid, ctx.duration_ms) {
        (None, _) => TrackStep::Search { ctx },
        (Some(mbid), None) => TrackStep::Lookup { ctx, mbid },
        (Some(_), Some(_)) => TrackStep::Done {
            result: Ok(Processed::Done { transient: Seq::empty(), image: false }),
        },
    }
}

/// What follows the answer of MusicBrainz.
pub open spec fn track_found(
    ctx: TrackCtx<Seq<char>>,
    r: Result<Option<RecordingView>, ProviderError<Seq<char>>>,
) -> TrackStepView {
    let transient = super::noted_answer(Seq::empty(), r);
    match super::contribution(r) {
        Some(rec) => TrackStep::Apply {
            batch: WriteBatch { writes: track_writes(ctx, rec), next: 0, with_mbid: true },
            transient,
        },
        None => TrackStep::Done { result: Ok(Processed::Done { transient, image: false }) },
    }
}

/// One step of a track job.
pub open spec fn track_next(step: TrackStepView, reply: TrackReplyView) -> TrackStepView {
    match (step, reply) {
        (TrackStep::Load { .. }, TrackReply::Loaded(r)) => match r {
            Ok(Some(ctx)) => track_begin(ctx),
            Ok(None) => TrackStep::Done { result: Ok(Processed::EntityGone) },
            Err(error) => TrackStep::Done { result: Err(error) },
        },
        (TrackStep::Search { ctx }, TrackReply::Recording(r)) => track_found(ctx, r),
        (TrackStep::Lookup { ctx, .. }, TrackReply::Recording(r)) => track_found(ctx, r),
        (TrackStep::Apply { batch, transient }, TrackReply::Written(r)) => match super::applied(
            metadata::batch_next(batch, r),
            transient,
            false,
        ) {
            Ok(batch) => TrackStep::Apply { batch, transient },
            Err(result) => TrackStep::Done { result },
        },
        _ => step,
    }
}

/// Everything that a recording has to say about a track, its artist and its
/// album.
fn plan_writes(ctx: &TrackCtx, rec: Recording) -> (res: Vec<CatalogWrite>)
    ensures
        res.deep_view() == track_writes(ctx.deep_view(), rec.deep_view()),
        res@.len() > 0,
{
    let ghost view = rec.deep_view();
    let duration_ms: Option<i32> = match rec.length {
        Some(l) => if i32::MIN as i64 <= l && l <= i32::MAX as i64 {
            Some(l as i32)
        } else {
            None
        },
        None => None,
    };
    let mut writes: Vec<CatalogWrite> = Vec::new();
    writes.push(
        CatalogWrite::Track {
            track_id: ctx.id,
            track: TrackMetadata { mbid: Some(rec.id), duration_ms },
        },
    );
    proof {
        assert(writes.deep_view() =~= seq![track_write(ctx.deep_view(), view)]);
    }
    if ctx.artist_mbid.is_none() && rec.artist_credit.len() > 0 {
        let ghost before = writes.deep_view();
        proof {
            assert(view.artist_credit[0] == rec.artist_credit@[0]);
        }
        let write = CatalogWrite::Artist {
            artist_id: ctx.artist_id,
            artist: ArtistMetadata {
                mbid: Some(rec.artist_credit[0].artist.id),
                image_url: None,
                bio: None,
            },
            overwrite: false,
        };
        writes.push(write);
        proof {
            assert(writes.deep_view() =~= before.push(write.deep_view()));
        }
    }
    if let (Some(album_id), Some(album_title)) = (ctx.album_id, &ctx.album_title) {
        if ctx.album_mbid.is_none() {
            let filter = ReleaseFilter::Titled(album_title.clone());
            if let Some(i) = musicbrainz::preferred_index(&rec.releases, &filter) {
                let ghost before = writes.deep_view();
                proof {
                    assert(view.releases[i as int] == rec.releases@[i as int].deep_view());
                }
                let release = &rec.releases[i];
                let release_date = match &release.date {
                    Some(date) => musicbrainz::parse_mb_date(date.as_str()),
                    None => None,
                };
                let write = CatalogWrite::Album {
                    album_id,
                    album: AlbumMetadata { mbid: Some(release.id), image_url: None, release_date },
                    overwrite: false,
                };
                writes.push(write);
                proof {
                    assert(writes.deep_view() =~= before.push(write.deep_view()));
                }
            }
        }
    }
    writes
}

/// What follows the answer of MusicBrainz.
fn found(ctx: TrackCtx, r: Result<Option<Recording>, ProviderError>) -> (res: TrackStep)
    ensures
        res.deep_view() == track_found(ctx.deep_view(), text::result_view(r)),
{
    let mut transient: Vec<String> = Vec::new();
    proof {
        assert(transient.deep_view() =~= Seq::<Seq<char>>::empty());
    }
    match super::take_answer(&mut transient, r) {
        Some(rec) => {
            let writes = plan_writes(&ctx, rec);
            TrackStep::Apply { batch: WriteBatch { writes, next: 0, with_mbid: true }, transient }
        },
        None => TrackStep::Done { result: Ok(Processed::Done { transient, image: false }) },
    }
}

/// Begins a job for the track of that id. [`advance_track`] carries it on.
pub fn enrich_track(id: i64) -> (res: TrackStep)
    ensures
        res.deep_view() == (TrackStepView::Load { id }),
{
    TrackStep::Load { id }
}

/// Takes the answer to the open question of a track job.
pub fn advance_track(step: TrackStep, reply: TrackReply) -> (res: TrackStep)
    ensures
        res.deep_view() == track_next(step.deep_view(), reply.deep_view()),
{
    match (step, reply) {
        (TrackStep::Load { .. }, TrackReply::Loaded(r)) => match r {
            Ok(Some(ctx)) => match (ctx.mbid, ctx.duration_ms) {
                (None, _) => TrackStep::Search { ctx },
                (Some(mbid), None) => TrackStep::Lookup { ctx, mbid },
                (Some(_), Some(_)) => {
                    let transient: Vec<String> = Vec::new();
                    proof {
                        assert(transient.deep_view() =~= Seq::<Seq<char>>::empty());
                    }
                    TrackStep::Done { result: Ok(Processed::Done { transient, image: false }) }
                },
            },
            Ok(None) => TrackStep::Done { result: Ok(Processed::EntityGone) },
            Err(error) => TrackStep::Done { result: Err(error) },
        },
        (TrackStep::Search { ctx }, TrackReply::Recording(r)) => found(ctx, r),
        (TrackStep::Lookup { ctx, .. }, TrackReply::Recording(r)) => found(ctx, r),
        (TrackStep::Apply { batch, transient }, TrackReply::Written(r)) => {
            match super::finish(metadata::advance_batch(batch, r), transient, false) {
                Ok((batch, transient)) => TrackStep::Apply { batch, transient },
                Err(result) => TrackStep::Done { result },
            }
        },
        (step, _) => step,
    }
}

/// What would answer each question of a track job.
pub struct TrackAnswers {
    pub loaded: Result<Option<TrackCtx<Seq<char>>>, Seq<char>>,
    pub recording: Result<Option<RecordingView>, ProviderError<Seq<char>>>,
    pub written: metadata::WriteAnswers,
}

/// MusicBrainz is asked: something that it provides is missing.
pub open spec fn needs_lookup(ctx: TrackCtx<Seq<char>>) -> bool {
    ctx.mbid is None || ctx.duration_ms is None
}

/// What comes of a track job.
pub open spec fn track_outcome(a: TrackAnswers) -> Result<Processed<Seq<Seq<char>>>, Seq<char>> {
    match a.loaded {
        Err(error) => Err(error),
        Ok(None) => Ok(Processed::EntityGone),
        Ok(Some(ctx)) => {
            let answer = super::asked(needs_lookup(ctx), a.recording);
            let done = Processed::Done {
                transient: super::noted_answer(Seq::empty(), answer),
                image: false,
            };
            match super::contribution(answer) {
                None => Ok(done),
                Some(rec) => match metadata::batch_outcome(
                    track_writes(ctx, rec).len() as int,
                    0,
                    a.written,
                ) {
                    Ok(()) => Ok(done),
                    Err(error) => Err(error),
                },
            }
        },
    }
}

/// The answer to the question that is open in `step`.
pub open spec fn track_reply(step: TrackStepView, a: TrackAnswers) -> TrackReplyView {
    match step {
        TrackStep::Load { .. } => TrackReply::Loaded(a.loaded),
        TrackStep::Search { .. } => TrackReply::Recording(a.recording),
        TrackStep::Lookup { .. } => TrackReply::Recording(a.recording),
        TrackStep::Apply { batch, .. } => TrackReply::Written(
            if batch.with_mbid {
                (a.written.with_mbid)(batch.next as int)
            } else {
                (a.written.without_mbid)(batch.next as int)
            },
        ),
        TrackStep::Done { .. } => TrackReply::Written(Ok(())),
    }
}

/// The state after `n` questions were answered.
pub open spec fn track_run(step: TrackStepView, a: TrackAnswers, n: nat) -> TrackStepView
    decreases n,
{
    if n == 0 {
        step
    } else {
        track_run(track_next(step, track_reply(step, a)), a, (n - 1) as nat)
    }
}

proof fn lemma_track_settled(step: TrackStepView, a: TrackAnswers, n: nat)
    requires
        step is Done,
    ensures
        track_run(step, a, n) == step,
    decreases n,
{
    if n > 0 {
        lemma_track_settled(step, a, (n - 1) as nat);
    }
}

proof fn lemma_track_written(
    batch: WriteBatch<Seq<CatalogWrite<Seq<char>>>>,
    transient: Seq<Seq<char>>,
    a: TrackAnswers,
    n: nat,
)
    requires
        batch.next < batch.writes.len() <= 3,
        batch.with_mbid,
        n >= 2 * (batch.writes.len() - batch.next),
    ensures
        track_run(TrackStep::Apply { batch, transient }, a, n) == (TrackStepView::Done {
            result: match metadata::batch_outcome(
                batch.writes.len() as int,
                batch.next as int,
                a.written,
            ) {
                Ok(()) => Ok(Processed::Done { transient, image: false }),
                Err(error) => Err(error),
            },
        }),
    decreases batch.writes.len() - batch.next,
{
    reveal_with_fuel(track_run, 3);
    reveal_with_fuel(metadata::batch_outcome, 2);
    let s0 = TrackStepView::Apply { batch, transient };
    let s1 = track_next(s0, track_reply(s0, a));
    let s2 = track_next(s1, track_reply(s1, a));
    let rest = WriteBatch {
        writes: batch.writes,
        next: (batch.next + 1) as usize,
        with_mbid: true,
    };
    let first = (a.written.with_mbid)(batch.next as int);
    if first is Ok {
        if batch.next + 1 < batch.writes.len() {
            lemma_track_written(rest, transient, a, (n - 1) as nat);
        } else {
            lemma_track_settled(s1, a, (n - 1) as nat);
        }
    } else if s1 is Done {
        lemma_track_settled(s1, a, (n - 1) as nat);
    } else if s2 is Done {
        lemma_track_settled(s2, a, (n - 2) as nat);
    } else {
        lemma_track_written(rest, transient, a, (n - 2) as nat);
    }
}

/// Eight answers bring every track job to the outcome that they determine.
pub proof fn law_track_job(id: i64, a: TrackAnswers, n: nat)
    requires
        n >= 8,
    ensures
        track_run(TrackStep::Load { id }, a, n) == (TrackStepView::Done {
            result: track_outcome(a),
        }),
{
    reveal_with_fuel(track_run, 3);
    let s0 = TrackStepView::Load { id };
    let s1 = track_next(s0, track_reply(s0, a));
    let s2 = track_next(s1, track_reply(s1, a));
    match a.loaded {
        Ok(Some(ctx)) => {
            if needs_lookup(ctx) {
                match super::contribution(a.recording) {
                    Some(rec) => {
                        lemma_track_written(
                            WriteBatch { writes: track_writes(ctx, rec), next: 0, with_mbid: true },
                            super::noted_answer(Seq::empty(), a.recording),
                            a,
                            (n - 2) as nat,
                        );
                    },
                    None => {
                        lemma_track_settled(s2, a, (n - 2) as nat);
                    },
                }
            } else {
                lemma_track_settled(s1, a, (n - 1) as nat);
            }
        },
        _ => {
            lemma_track_settled(s1, a, (n - 1) as nat);
        },
    }
}

/// A track job never writes an artist or album MBID that is already known, and
/// none of its writes overwrites anything.
pub proof fn law_track_job_only_fills(ctx: TrackCtx<Seq<char>>, rec: RecordingView)
    ensures
        ctx.artist_mbid is Some ==> credited_artist(ctx, rec) is None,
        ctx.album_mbid is Some ==> matched_album(ctx, rec) is None,
        forall|i: int|
            0 <= i < track_writes(ctx, rec).len() ==> match #[trigger] track_writes(ctx, rec)[i] {
                CatalogWrite::Artist { overwrite, .. } => !overwrite,
                CatalogWrite::Album { overwrite, .. } => !overwrite,
                CatalogWrite::Track { track_id, .. } => track_id == ctx.id,
            },
{
}

/// A track is searched for by title and artist where its MBID is unknown, and
/// looked up by its MBID where only its duration is; where neither is, nothing is
/// asked, and the job is done.
pub proof fn law_how_a_track_job_begins(ctx: TrackCtx<Seq<char>>, mbid: Uuid)
    ensures
        ctx.mbid is None ==> track_begin(ctx) == (TrackStepView::Search { ctx }) && track_asks(
            track_begin(ctx),
        ) == Some(
            super::ProviderRequestView::MusicBrainz {
                get: musicbrainz::recording_search(ctx.title, ctx.artist_name),
            },
        ),
        ctx.mbid == Some(mbid) && ctx.duration_ms is None ==> track_begin(ctx) == (
        TrackStepView::Lookup { ctx, mbid }) && track_asks(track_begin(ctx)) == Some(
            super::ProviderRequestView::MusicBrainz { get: musicbrainz::recording_lookup(mbid) },
        ),
        ctx.mbid is Some && ctx.duration_ms is Some ==> track_begin(ctx) == (TrackStepView::Done {
            result: Ok(Processed::Done { transient: Seq::empty(), image: false }),
        }),
        needs_lookup(ctx) <==> ctx.mbid is None || ctx.duration_ms is None,
{
}

/// What is written of the track: the MBID of the recording, and its length where
/// that fits.
pub proof fn law_what_is_written_of_the_track(ctx: TrackCtx<Seq<char>>, rec: RecordingView)
    ensures
        track_write(ctx, rec) matches CatalogWrite::Track { track_id, track } && {
            &&& track_id == ctx.id
            &&& track.mbid == Some(rec.id)
            &&& rec.length is None ==> track.duration_ms is None
            &&& rec.length matches Some(length) ==> match track.duration_ms {
                Some(ms) => ms == length,
                None => !(i32::MIN <= length <= i32::MAX),
            }
        },
{
}

/// What is written of the artist: the MBID of the first credit, where the artist
/// has none and the recording has a credit, and nothing else.
pub proof fn law_what_is_written_of_the_artist(ctx: TrackCtx<Seq<char>>, rec: RecordingView)
    ensures
        ctx.artist_mbid is None && rec.artist_credit.len() > 0 ==> credited_artist(ctx, rec) == Some(
            CatalogWrite::<Seq<char>>::Artist {
                artist_id: ctx.artist_id,
                artist: ArtistMetadata {
                    mbid: Some(rec.artist_credit[0].artist.id),
                    image_url: None,
                    bio: None,
                },
                overwrite: false,
            },
        ),
        ctx.artist_mbid is Some || rec.artist_credit.len() == 0 ==> credited_artist(ctx, rec) is None,
{
}

/// What is written of the album: the MBID and the date of the preferred release of
/// its title, where the track has an album without an MBID and the recording has
/// such a release, and nothing else.
pub proof fn law_what_is_written_of_the_album(
    ctx: TrackCtx<Seq<char>>,
    rec: RecordingView,
    album_id: i64,
    title: Seq<char>,
    release: Release<Seq<char>>,
)
    ensures
        ctx.album_id is None || ctx.album_title is None || ctx.album_mbid is Some ==> matched_album(
            ctx,
            rec,
        ) is None,
        ctx.album_id == Some(album_id) && ctx.album_title == Some(title) && ctx.album_mbid is None
            ==> {
            let chosen = musicbrainz::preferred(rec.releases, ReleaseFilter::Titled(title));
            &&& chosen is None ==> matched_album(ctx, rec) is None
            &&& chosen == Some(release) ==> (matched_album(ctx, rec) matches Some(
                CatalogWrite::Album { album_id: of, album, overwrite },
            ) && {
                &&& of == album_id
                &&& album.mbid == Some(release.id)
                &&& album.image_url is None
                &&& release.date is None ==> album.release_date is None
                &&& release.date matches Some(date) ==> album.release_date == musicbrainz::mb_date(
                    date,
                )
                &&& !overwrite
            })
        },
{
}

/// The track is written first, then its artist and its album, where there is
/// something to write of them; and nothing else is.
pub proof fn law_writes_of_a_recording(ctx: TrackCtx<Seq<char>>, rec: RecordingView)
    ensures
        ({
            let of_artist = match credited_artist(ctx, rec) {
                Some(write) => seq![write],
                None => Seq::empty(),
            };
            let of_album = match matched_album(ctx, rec) {
                Some(write) => seq![write],
                None => Seq::empty(),
            };
            track_writes(ctx, rec) == seq![track_write(ctx, rec)] + of_artist + of_album
        }),
{
}

/// A recording that was found is written; where none was, the job is done, with
/// the failure noted that is worth another attempt.
pub proof fn law_what_follows_the_lookup(
    ctx: TrackCtx<Seq<char>>,
    rec: RecordingView,
    message: Seq<char>,
)
    ensures
        track_found(ctx, Ok(Some(rec))) == (TrackStepView::Apply {
            batch: WriteBatch { writes: track_writes(ctx, rec), next: 0, with_mbid: true },
            transient: Seq::empty(),
        }),
        track_found(ctx, Ok(None)) == (TrackStepView::Done {
            result: Ok(Processed::Done { transient: Seq::empty(), image: false }),
        }),
        track_found(ctx, Err(ProviderError::Transient(message))) == (TrackStepView::Done {
            result: Ok(Processed::Done { transient: seq![message], image: false }),
        }),
        track_found(ctx, Err(ProviderError::Fatal(message))) == (TrackStepView::Done {
            result: Ok(Processed::Done { transient: Seq::empty(), image: false }),
        }),
{
    assert(Seq::<Seq<char>>::empty().push(message) =~= seq![message]);
}

/// What comes of a track job: it is done when nothing was missing, when nothing was
/// found, or when all writes came off; a job whose track is gone is done too; what
/// fails in the database fails it.
pub proof fn law_track_outcomes(ctx: TrackCtx<Seq<char>>, rec: RecordingView, a: TrackAnswers)
    ensures
        ({
            let outcome = track_outcome(a);
            let done = |transient: Seq<Seq<char>>|
                outcome == Ok::<Processed<Seq<Seq<char>>>, Seq<char>>(
                    Processed::Done { transient, image: false },
                );
            &&& a.loaded matches Err(error) ==> outcome == Err::<
                Processed<Seq<Seq<char>>>,
                Seq<char>,
            >(error)
            &&& a.loaded == Ok::<Option<TrackCtx<Seq<char>>>, Seq<char>>(None) ==> outcome == Ok::<
                Processed<Seq<Seq<char>>>,
                Seq<char>,
            >(Processed::EntityGone)
            &&& a.loaded == Ok::<Option<TrackCtx<Seq<char>>>, Seq<char>>(Some(ctx)) ==> {
                let missing = ctx.mbid is None || ctx.duration_ms is None;
                &&& !missing ==> done(Seq::empty())
                &&& missing && a.recording == Ok::<
                    Option<RecordingView>,
                    ProviderError<Seq<char>>,
                >(None) ==> done(Seq::empty())
                &&& missing && a.recording is Err ==> match a.recording->Err_0 {
                    ProviderError::Transient(message) => done(seq![message]),
                    ProviderError::Fatal(_) => done(Seq::empty()),
                }
                &&& missing && a.recording == Ok::<
                    Option<RecordingView>,
                    ProviderError<Seq<char>>,
                >(Some(rec)) ==> match metadata::batch_outcome(
                    track_writes(ctx, rec).len() as int,
                    0,
                    a.written,
                ) {
                    Ok(()) => done(Seq::empty()),
                    Err(error) => outcome == Err::<Processed<Seq<Seq<char>>>, Seq<char>>(error),
                }
            }
        }),
{
    if let Err(ProviderError::Transient(message)) = a.recording {
        assert(Seq::<Seq<char>>::empty().push(message) =~= seq![message]);
    }
}

} // verus!
