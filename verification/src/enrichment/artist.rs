//! Artist jobs: MBID, image and bio of an artist.

use super::Processed;
use crate::ids::Uuid;
use crate::metadata;
use crate::metadata::{ArtistMetadata, CatalogWrite, WriteBatch, WriteFailure};
use crate::providers::deezer;
use crate::providers::lastfm;
use crate::providers::musicbrainz;
use crate::providers::musicbrainz::ArtistMatch;
use crate::providers::ProviderError;
use crate::text;
use vstd::prelude::*;
use vstd::string::*;

verus! {

#[derive(Debug, PartialEq, Eq)]
pub struct ArtistCtx<S = String> {
    pub id: i64,
    pub name: S,
    pub mbid: Option<Uuid>,
    pub image_url: Option<S>,
    pub bio: Option<S>,
}

impl DeepView for ArtistCtx {
    type V = ArtistCtx<Seq<char>>;

    open spec fn deep_view(&self) -> ArtistCtx<Seq<char>> {
        ArtistCtx {
            id: self.id,
            name: self.name@,
            mbid: self.mbid,
            image_url: self.image_url.deep_view(),
            bio: self.bio.deep_view(),
        }
    }
}

/// What an artist job has found so far.
#[derive(Debug, PartialEq, Eq)]
pub struct ArtistRun<S = String, L = Vec<String>> {
    pub ctx: ArtistCtx<S>,
    pub meta: ArtistMetadata<S>,
    pub transient: L,
}

impl DeepView for ArtistRun {
    type V = ArtistRun<Seq<char>, Seq<Seq<char>>>;

    open spec fn deep_view(&self) -> ArtistRun<Seq<char>, Seq<Seq<char>>> {
        ArtistRun {
            ctx: self.ctx.deep_view(),
            meta: self.meta.deep_view(),
            transient: self.transient.deep_view(),
        }
    }
}

/// Where an artist job stands.
#[derive(Debug, PartialEq, Eq)]
#[allow(inconsistent_fields)]
pub enum ArtistStep<S = String, L = Vec<String>, W = Vec<CatalogWrite>> {
    /// Read the artist.
    Load { id: i64 },
    /// Search MusicBrainz by name.
    Search { run: ArtistRun<S, L> },
    /// Ask Deezer for an image.
    Image { run: ArtistRun<S, L> },
    /// Ask Last.fm for a bio.
    Bio { run: ArtistRun<S, L> },
    /// Write what was found.
    Apply { batch: WriteBatch<W>, transient: L, image: bool },
    Done { result: Result<Processed<L>, S> },
}

#[derive(Debug, PartialEq, Eq)]
pub enum ArtistReply<S = String> {
    Loaded(Result<Option<ArtistCtx<S>>, S>),
    Match(Result<Option<ArtistMatch>, ProviderError<S>>),
    Image(Result<Option<S>, ProviderError<S>>),
    Bio(Result<Option<S>, ProviderError<S>>),
    Written(Result<(), WriteFailure<S>>),
}

impl DeepView for ArtistStep {
    type V = ArtistStep<Seq<char>, Seq<Seq<char>>, Seq<CatalogWrite<Seq<char>>>>;

    open spec fn deep_view(&self) -> ArtistStep<
        Seq<char>,
        Seq<Seq<char>>,
        Seq<CatalogWrite<Seq<char>>>,
    > {
        match *self {
            ArtistStep::Load { id } => ArtistStep::Load { id },
            ArtistStep::Search { run } => ArtistStep::Search { run: run.deep_view() },
            ArtistStep::Image { run } => ArtistStep::Image { run: run.deep_view() },
            ArtistStep::Bio { run } => ArtistStep::Bio { run: run.deep_view() },
            ArtistStep::Apply { batch, transient, image } => ArtistStep::Apply {
                batch: batch.deep_view(),
                transient: transient.deep_view(),
                image,
            },
            ArtistStep::Done { result } => ArtistStep::Done { result: text::result_view(result) },
        }
    }
}

impl DeepView for ArtistReply {
    type V = ArtistReply<Seq<char>>;

    open spec fn deep_view(&self) -> ArtistReply<Seq<char>> {
        match *self {
            ArtistReply::Loaded(r) => ArtistReply::Loaded(text::result_view(r)),
            ArtistReply::Match(r) => ArtistReply::Match(text::result_view(r)),
            ArtistReply::Image(r) => ArtistReply::Image(text::result_view(r)),
            ArtistReply::Bio(r) => ArtistReply::Bio(text::result_view(r)),
            ArtistReply::Written(r) => ArtistReply::Written(text::result_view(r)),
        }
    }
}

pub type ArtistStepView = ArtistStep<Seq<char>, Seq<Seq<char>>, Seq<CatalogWrite<Seq<char>>>>;

pub type ArtistRunView = ArtistRun<Seq<char>, Seq<Seq<char>>>;

/// An artist job after its searches: what was found is written.
pub open spec fn artist_write(force: bool, run: ArtistRunView) -> ArtistStepView {
    ArtistStep::Apply {
        batch: WriteBatch {
            writes: seq![
                CatalogWrite::Artist { artist_id: run.ctx.id, artist: run.meta, overwrite: force },
            ],
            next: 0,
            with_mbid: true,
        },
        transient: run.transient,
        image: run.meta.image_url is Some,
    }
}

/// After the image, the bio is asked for, if Last.fm is configured and there is
/// none yet or a refresh is forced.
pub open spec fn artist_after_image(
    force: bool,
    has_lastfm: bool,
    run: ArtistRunView,
) -> ArtistStepView {
    if has_lastfm && (run.ctx.bio is None || force) {
        ArtistStep::Bio { run }
    } else {
        artist_write(force, run)
    }
}

/// After the MBID, the image is asked for, if there is none yet or a refresh is
/// forced.
pub open spec fn artist_after_search(
    force: bool,
    has_lastfm: bool,
    run: ArtistRunView,
) -> ArtistStepView {
    if run.ctx.image_url is None || force {
        ArtistStep::Image { run }
    } else {
        artist_after_image(force, has_lastfm, run)
    }
}

/// How the search for an artist begins: the MBID first, since it anchors the
/// Last.fm lookup and future jobs.
pub open spec fn artist_begin(
    force: bool,
    has_lastfm: bool,
    ctx: ArtistCtx<Seq<char>>,
) -> ArtistStepView {
    let run = ArtistRun {
        ctx,
        meta: metadata::no_artist_metadata(),
        transient: Seq::<Seq<char>>::empty(),
    };
    if ctx.mbid is None {
        ArtistStep::Search { run }
    } else {
        artist_after_search(force, has_lastfm, run)
    }
}

/// One step of an artist job.
pub open spec fn artist_next(
    force: bool,
    has_lastfm: bool,
    step: ArtistStepView,
    reply: ArtistReply<Seq<char>>,
) -> ArtistStepView {
    match (step, reply) {
        (ArtistStep::Load { .. }, ArtistReply::Loaded(r)) => match r {
            Ok(Some(ctx)) => artist_begin(force, has_lastfm, ctx),
            Ok(None) => ArtistStep::Done { result: Ok(Processed::EntityGone) },
            Err(error) => ArtistStep::Done { result: Err(error) },
        },
        (ArtistStep::Search { run }, ArtistReply::Match(r)) => artist_after_search(
            force,
            has_lastfm,
            ArtistRun {
                meta: ArtistMetadata {
                    mbid: match super::contribution(r) {
                        Some(found) => Some(found.id),
                        None => None,
                    },
                    ..run.meta
                },
                transient: super::noted_answer(run.transient, r),
                ..run
            },
        ),
        (ArtistStep::Image { run }, ArtistReply::Image(r)) => artist_after_image(
            force,
            has_lastfm,
            ArtistRun {
                meta: ArtistMetadata { image_url: super::contribution(r), ..run.meta },
                transient: super::noted_answer(run.transient, r),
                ..run
            },
        ),
        (ArtistStep::Bio { run }, ArtistReply::Bio(r)) => artist_write(
            force,
            ArtistRun {
                meta: ArtistMetadata { bio: super::contribution(r), ..run.meta },
                transient: super::noted_answer(run.transient, r),
                ..run
            },
        ),
        (
            ArtistStep::Apply { batch, transient, image },
            ArtistReply::Written(r),
        ) => match super::applied(metadata::batch_next(batch, r), transient, image) {
            Ok(batch) => ArtistStep::Apply { batch, transient, image },
            Err(result) => ArtistStep::Done { result },
        },
        _ => step,
    }
}

fn write_artist(force: bool, run: ArtistRun) -> (res: ArtistStep)
    ensures
        res.deep_view() == artist_write(force, run.deep_view()),
{
    let image: bool = run.meta.image_url.is_some();
    let writes: Vec<CatalogWrite> = vec![
        CatalogWrite::Artist { artist_id: run.ctx.id, artist: run.meta, overwrite: force },
    ];
    proof {
        assert(writes.deep_view() =~= seq![
            CatalogWrite::Artist {
                artist_id: run.ctx.id,
                artist: run.meta.deep_view(),
                overwrite: force,
            },
        ]);
    }
    ArtistStep::Apply {
        batch: WriteBatch { writes, next: 0, with_mbid: true },
        transient: run.transient,
        image,
    }
}

fn after_artist_image(force: bool, has_lastfm: bool, run: ArtistRun) -> (res: ArtistStep)
    ensures
        res.deep_view() == artist_after_image(force, has_lastfm, run.deep_view()),
{
    if has_lastfm && (run.ctx.bio.is_none() || force) {
        ArtistStep::Bio { run }
    } else {
        write_artist(force, run)
    }
}

fn after_artist_search(force: bool, has_lastfm: bool, run: ArtistRun) -> (res: ArtistStep)
    ensures
        res.deep_view() == artist_after_search(force, has_lastfm, run.deep_view()),
{
    if run.ctx.image_url.is_none() || force {
        ArtistStep::Image { run }
    } else {
        after_artist_image(force, has_lastfm, run)
    }
}

/// Begins a job for the artist of that id. [`advance_artist`] carries it on.
pub fn enrich_artist(id: i64) -> (res: ArtistStep)
    ensures
        res.deep_view() == (ArtistStepView::Load { id }),
{
    ArtistStep::Load { id }
}

/// Takes the answer to the open question of an artist job. `has_lastfm` says
/// whether Last.fm is configured.
pub fn advance_artist(force: bool, has_lastfm: bool, step: ArtistStep, reply: ArtistReply) -> (res:
    ArtistStep)
    ensures
        res.deep_view() == artist_next(force, has_lastfm, step.deep_view(), reply.deep_view()),
{
    match (step, reply) {
        (ArtistStep::Load { .. }, ArtistReply::Loaded(r)) => match r {
            Ok(Some(ctx)) => {
                let transient: Vec<String> = Vec::new();
                let unknown: bool = ctx.mbid.is_none();
                let run = ArtistRun { ctx, meta: ArtistMetadata::default(), transient };
                proof {
                    assert(transient.deep_view() =~= Seq::<Seq<char>>::empty());
                }
                if unknown {
                    ArtistStep::Search { run }
                } else {
                    after_artist_search(force, has_lastfm, run)
                }
            },
            Ok(None) => ArtistStep::Done { result: Ok(Processed::EntityGone) },
            Err(error) => ArtistStep::Done { result: Err(error) },
        },
        (ArtistStep::Search { run }, ArtistReply::Match(r)) => {
            let mut run = run;
            run.meta.mbid = match super::take_answer(&mut run.transient, r) {
                Some(found) => Some(found.id),
                None => None,
            };
            after_artist_search(force, has_lastfm, run)
        },
        (ArtistStep::Image { run }, ArtistReply::Image(r)) => {
            let mut run = run;
            run.meta.image_url = super::take_answer(&mut run.transient, r);
            after_artist_image(force, has_lastfm, run)
        },
        (ArtistStep::Bio { run }, ArtistReply::Bio(r)) => {
            let mut run = run;
            run.meta.bio = super::take_answer(&mut run.transient, r);
            write_artist(force, run)
        },
        (ArtistStep::Apply { batch, transient, image }, ArtistReply::Written(r)) => {
            match super::finish(metadata::advance_batch(batch, r), transient, image) {
                Ok((batch, transient)) => ArtistStep::Apply { batch, transient, image },
                Err(result) => ArtistStep::Done { result },
            }
        },
        (step, _) => step,
    }
}

/// The MBID by which an artist's bio is asked for: the known one, else the one
/// just found.
pub fn bio_mbid(run: &ArtistRun) -> (res: Option<Uuid>)
    ensures
        res == metadata::first_of(run.ctx.mbid, run.meta.mbid),
{
    match run.ctx.mbid {
        Some(mbid) => Some(mbid),
        None => run.meta.mbid,
    }
}

/// The request that answers the question which is open in `step`, where it is one
/// for a provider.
pub open spec fn artist_asks(
    step: ArtistStepView,
    lastfm_key: Option<Seq<char>>,
) -> Option<super::ProviderRequestView> {
    match (step, lastfm_key) {
        (ArtistStep::Search { run }, _) => Some(
            super::ProviderRequest::MusicBrainz { get: musicbrainz::artist_search(run.ctx.name) },
        ),
        (ArtistStep::Image { run }, _) => Some(
            super::ProviderRequest::Deezer {
                get: deezer::artist_search(run.ctx.name),
                wanted: run.ctx.name,
            },
        ),
        (ArtistStep::Bio { run }, Some(key)) => Some(
            super::ProviderRequest::Lastfm {
                get: lastfm::bio_request(
                    key,
                    run.ctx.name,
                    metadata::first_of(run.ctx.mbid, run.meta.mbid),
                ),
            },
        ),
        _ => None,
    }
}

/// The request that answers the open question of an artist job: who they are by
/// name, what image they have by name, what is written about them by MBID or
/// name. `lastfm_key` is the key for Last.fm, if there is one.
pub fn artist_request(step: &ArtistStep, lastfm_key: Option<&str>) -> (res: Option<
    super::ProviderRequest,
>)
    ensures
        res.deep_view() == artist_asks(step.deep_view(), lastfm_key.deep_view()),
{
    match (step, lastfm_key) {
        (ArtistStep::Search { run }, _) => Some(
            super::ProviderRequest::MusicBrainz {
                get: musicbrainz::search_artist(run.ctx.name.as_str()),
            },
        ),
        (ArtistStep::Image { run }, _) => Some(
            super::ProviderRequest::Deezer {
                get: deezer::artist_image(run.ctx.name.as_str()),
                wanted: run.ctx.name.clone(),
            },
        ),
        (ArtistStep::Bio { run }, Some(key)) => Some(
            super::ProviderRequest::Lastfm {
                get: lastfm::artist_bio(key, run.ctx.name.as_str(), bio_mbid(run)),
            },
        ),
        _ => None,
    }
}

/// What would answer each question of an artist job.
pub struct ArtistAnswers {
    pub loaded: Result<Option<ArtistCtx<Seq<char>>>, Seq<char>>,
    pub found: Result<Option<ArtistMatch>, ProviderError<Seq<char>>>,
    pub image: Result<Option<Seq<char>>, ProviderError<Seq<char>>>,
    pub bio: Result<Option<Seq<char>>, ProviderError<Seq<char>>>,
    pub written: metadata::WriteAnswers,
}

/// The metadata that an artist job writes: the MBID where it was unknown, an
/// image and a bio where there was none or a refresh is forced.
pub open spec fn artist_findings(
    force: bool,
    has_lastfm: bool,
    ctx: ArtistCtx<Seq<char>>,
    a: ArtistAnswers,
) -> ArtistMetadata<Seq<char>> {
    ArtistMetadata {
        mbid: match super::contribution(super::asked(ctx.mbid is None, a.found)) {
            Some(found) => Some(found.id),
            None => None,
        },
        image_url: super::contribution(super::asked(ctx.image_url is None || force, a.image)),
        bio: super::contribution(super::asked(has_lastfm && (ctx.bio is None || force), a.bio)),
    }
}

/// The transient errors of an artist job, in the order of its questions.
pub open spec fn artist_errors(
    force: bool,
    has_lastfm: bool,
    ctx: ArtistCtx<Seq<char>>,
    a: ArtistAnswers,
) -> Seq<Seq<char>> {
    let e1 = super::noted_answer(Seq::empty(), super::asked(ctx.mbid is None, a.found));
    let e2 = super::noted_answer(e1, super::asked(ctx.image_url is None || force, a.image));
    super::noted_answer(e2, super::asked(has_lastfm && (ctx.bio is None || force), a.bio))
}

/// What comes of an artist job.
pub open spec fn artist_outcome(force: bool, has_lastfm: bool, a: ArtistAnswers) -> Result<
    Processed<Seq<Seq<char>>>,
    Seq<char>,
> {
    match a.loaded {
        Err(error) => Err(error),
        Ok(None) => Ok(Processed::EntityGone),
        Ok(Some(ctx)) => match metadata::write_outcome(0, a.written) {
            Ok(()) => Ok(
                Processed::Done {
                    transient: artist_errors(force, has_lastfm, ctx, a),
                    image: artist_findings(force, has_lastfm, ctx, a).image_url is Some,
                },
            ),
            Err(error) => Err(error),
        },
    }
}

/// The answer to the question that is open in `step`.
pub open spec fn artist_reply(step: ArtistStepView, a: ArtistAnswers) -> ArtistReply<Seq<char>> {
    match step {
        ArtistStep::Load { .. } => ArtistReply::Loaded(a.loaded),
        ArtistStep::Search { .. } => ArtistReply::Match(a.found),
        ArtistStep::Image { .. } => ArtistReply::Image(a.image),
        ArtistStep::Bio { .. } => ArtistReply::Bio(a.bio),
        ArtistStep::Apply { batch, .. } => ArtistReply::Written(
            if batch.with_mbid {
                (a.written.with_mbid)(batch.next as int)
            } else {
                (a.written.without_mbid)(batch.next as int)
            },
        ),
        ArtistStep::Done { .. } => ArtistReply::Written(Ok(())),
    }
}

/// The state after `n` questions were answered.
pub open spec fn artist_run(
    force: bool,
    has_lastfm: bool,
    step: ArtistStepView,
    a: ArtistAnswers,
    n: nat,
) -> ArtistStepView
    decreases n,
{
    if n == 0 {
        step
    } else {
        artist_run(
            force,
            has_lastfm,
            artist_next(force, has_lastfm, step, artist_reply(step, a)),
            a,
            (n - 1) as nat,
        )
    }
}

proof fn lemma_artist_settled(
    force: bool,
    has_lastfm: bool,
    step: ArtistStepView,
    a: ArtistAnswers,
    n: nat,
)
    requires
        step is Done,
    ensures
        artist_run(force, has_lastfm, step, a, n) == step,
    decreases n,
{
    if n > 0 {
        lemma_artist_settled(force, has_lastfm, step, a, (n - 1) as nat);
    }
}

proof fn lemma_artist_written(
    force: bool,
    has_lastfm: bool,
    run: ArtistRunView,
    a: ArtistAnswers,
    n: nat,
)
    requires
        n >= 2,
    ensures
        artist_run(force, has_lastfm, artist_write(force, run), a, n) == (ArtistStepView::Done {
            result: match metadata::write_outcome(0, a.written) {
                Ok(()) => Ok(
                    Processed::Done {
                        transient: run.transient,
                        image: run.meta.image_url is Some,
                    },
                ),
                Err(error) => Err(error),
            },
        }),
{
    reveal_with_fuel(artist_run, 3);
    let s0 = artist_write(force, run);
    let s1 = artist_next(force, has_lastfm, s0, artist_reply(s0, a));
    let s2 = artist_next(force, has_lastfm, s1, artist_reply(s1, a));
    if s1 is Done {
        lemma_artist_settled(force, has_lastfm, s1, a, (n - 1) as nat);
    } else {
        lemma_artist_settled(force, has_lastfm, s2, a, (n - 2) as nat);
    }
}

proof fn lemma_artist_after_image(
    force: bool,
    has_lastfm: bool,
    run: ArtistRunView,
    a: ArtistAnswers,
    n: nat,
)
    requires
        n >= 3,
    ensures
        artist_run(force, has_lastfm, artist_after_image(force, has_lastfm, run), a, n) == (
        ArtistStepView::Done {
            result: match metadata::write_outcome(0, a.written) {
                Ok(()) => Ok(
                    Processed::Done {
                        transient: super::noted_answer(
                            run.transient,
                            super::asked(has_lastfm && (run.ctx.bio is None || force), a.bio),
                        ),
                        image: run.meta.image_url is Some,
                    },
                ),
                Err(error) => Err(error),
            },
        }),
{
    let s0 = artist_after_image(force, has_lastfm, run);
    if s0 is Bio {
        let after = ArtistRun {
            meta: ArtistMetadata { bio: super::contribution(a.bio), ..run.meta },
            transient: super::noted_answer(run.transient, a.bio),
            ..run
        };
        lemma_artist_written(force, has_lastfm, after, a, (n - 1) as nat);
    } else {
        lemma_artist_written(force, has_lastfm, run, a, n);
    }
}

proof fn lemma_artist_after_search(
    force: bool,
    has_lastfm: bool,
    run: ArtistRunView,
    a: ArtistAnswers,
    n: nat,
)
    requires
        n >= 4,
        run.meta.image_url is None,
    ensures
        artist_run(force, has_lastfm, artist_after_search(force, has_lastfm, run), a, n) == (
        ArtistStepView::Done {
            result: match metadata::write_outcome(0, a.written) {
                Ok(()) => Ok(
                    Processed::Done {
                        transient: super::noted_answer(
                            super::noted_answer(
                                run.transient,
                                super::asked(run.ctx.image_url is None || force, a.image),
                            ),
                            super::asked(has_lastfm && (run.ctx.bio is None || force), a.bio),
                        ),
                        image: super::contribution(
                            super::asked(run.ctx.image_url is None || force, a.image),
                        ) is Some,
                    },
                ),
                Err(error) => Err(error),
            },
        }),
{
    let s0 = artist_after_search(force, has_lastfm, run);
    if s0 is Image {
        let after = ArtistRun {
            meta: ArtistMetadata { image_url: super::contribution(a.image), ..run.meta },
            transient: super::noted_answer(run.transient, a.image),
            ..run
        };
        lemma_artist_after_image(force, has_lastfm, after, a, (n - 1) as nat);
    } else {
        lemma_artist_after_image(force, has_lastfm, run, a, n);
    }
}

/// Six answers bring every artist job to the outcome that they determine.
pub proof fn law_artist_job(id: i64, force: bool, has_lastfm: bool, a: ArtistAnswers, n: nat)
    requires
        n >= 6,
    ensures
        artist_run(force, has_lastfm, ArtistStep::Load { id }, a, n) == (ArtistStepView::Done {
            result: artist_outcome(force, has_lastfm, a),
        }),
{
    let load = ArtistStep::Load { id };
    let s1 = artist_next(force, has_lastfm, load, ArtistReply::Loaded(a.loaded));
    match a.loaded {
        Ok(Some(ctx)) => {
            let run = ArtistRun {
                ctx,
                meta: metadata::no_artist_metadata(),
                transient: Seq::<Seq<char>>::empty(),
            };
            if ctx.mbid is None {
                let after = ArtistRun {
                    meta: ArtistMetadata {
                        mbid: match super::contribution(a.found) {
                            Some(found) => Some(found.id),
                            None => None,
                        },
                        ..run.meta
                    },
                    transient: super::noted_answer(run.transient, a.found),
                    ..run
                };
                reveal_with_fuel(artist_run, 3);
                lemma_artist_after_search(force, has_lastfm, after, a, (n - 2) as nat);
            } else {
                lemma_artist_after_search(force, has_lastfm, run, a, (n - 1) as nat);
            }
        },
        _ => {
            lemma_artist_settled(force, has_lastfm, s1, a, (n - 1) as nat);
        },
    }
}

/// What an artist job writes is what its questions turned up: the write that is
/// open after at most four answers carries the findings.
pub proof fn law_artist_job_writes_its_findings(
    id: i64,
    force: bool,
    has_lastfm: bool,
    ctx: ArtistCtx<Seq<char>>,
    a: ArtistAnswers,
)
    requires
        a.loaded == Ok::<Option<ArtistCtx<Seq<char>>>, Seq<char>>(Some(ctx)),
    ensures
        exists|n: nat|
            n <= 4 && #[trigger] artist_run(force, has_lastfm, ArtistStep::Load { id }, a, n)
                == artist_write(
                force,
                ArtistRun {
                    ctx,
                    meta: artist_findings(force, has_lastfm, ctx, a),
                    transient: artist_errors(force, has_lastfm, ctx, a),
                },
            ),
{
    reveal_with_fuel(artist_run, 5);
    let wanted = artist_write(
        force,
        ArtistRun {
            ctx,
            meta: artist_findings(force, has_lastfm, ctx, a),
            transient: artist_errors(force, has_lastfm, ctx, a),
        },
    );
    let searches: nat = if ctx.mbid is None {
        1
    } else {
        0
    };
    let images: nat = if ctx.image_url is None || force {
        1
    } else {
        0
    };
    let bios: nat = if has_lastfm && (ctx.bio is None || force) {
        1
    } else {
        0
    };
    let n: nat = 1 + searches + images + bios;
    assert(artist_run(force, has_lastfm, ArtistStep::Load { id }, a, n) == wanted);
}

/// What a forced artist refresh did to the image, for the log.
pub open spec fn image_report_text(
    new: Option<Seq<char>>,
    current: Option<Seq<char>>,
) -> Seq<char> {
    match (new, current) {
        (Some(n), Some(c)) => if n == c {
            "re-fetched, unchanged"@
        } else {
            "updated"@
        },
        (Some(_), None) => "added"@,
        (None, Some(_)) => "kept (provider returned none)"@,
        (None, None) => "none found"@,
    }
}

/// What a forced artist refresh did to the image, so that "nothing changed" is
/// diagnosable from the worker output.
pub fn image_report(new: &Option<String>, current: &Option<String>) -> (res: &'static str)
    ensures
        res@ == image_report_text(new.deep_view(), current.deep_view()),
{
    match (new, current) {
        (Some(n), Some(c)) => if n.as_str().eq(c.as_str()) {
            "re-fetched, unchanged"
        } else {
            "updated"
        },
        (Some(_), None) => "added",
        (None, Some(_)) => "kept (provider returned none)",
        (None, None) => "none found",
    }
}

/// What a forced artist refresh did to the bio.
pub fn bio_report(has_lastfm: bool, found: bool, present: bool) -> (res: &'static str)
    ensures
        res@ == (if !has_lastfm {
            "skipped (LASTFM_API_KEY not set)"@
        } else if found {
            "fetched"@
        } else if present {
            "kept (provider returned none)"@
        } else {
            "none found"@
        }),
{
    if !has_lastfm {
        "skipped (LASTFM_API_KEY not set)"
    } else if found {
        "fetched"
    } else if present {
        "kept (provider returned none)"
    } else {
        "none found"
    }
}

/// Once an artist job has found an image and stored what it found, now-playing
/// is published again, whether or not another provider failed meanwhile.
pub proof fn law_artist_image_is_published(
    job: super::Job<Seq<char>>,
    force: bool,
    has_lastfm: bool,
    ctx: ArtistCtx<Seq<char>>,
    a: ArtistAnswers,
)
    requires
        a.loaded == Ok::<Option<ArtistCtx<Seq<char>>>, Seq<char>>(Some(ctx)),
        artist_findings(force, has_lastfm, ctx, a).image_url is Some,
        metadata::write_outcome(0, a.written) is Ok,
    ensures
        super::publishes(
            super::EntityKind::Artist,
            super::job_end(job, artist_outcome(force, has_lastfm, a)),
        ),
{
}

/// What an artist job finds: the MBID where the artist has none; an image where
/// the artist has none or a refresh is forced; a bio likewise, where Last.fm is
/// configured. Each is what the provider answered, and nothing where it failed.
pub proof fn law_what_an_artist_job_finds(
    force: bool,
    has_lastfm: bool,
    ctx: ArtistCtx<Seq<char>>,
    a: ArtistAnswers,
)
    ensures
        ({
            let found = artist_findings(force, has_lastfm, ctx, a);
            &&& ctx.mbid is Some ==> found.mbid is None
            &&& ctx.mbid is None ==> match a.found {
                Ok(Some(hit)) => found.mbid == Some(hit.id),
                _ => found.mbid is None,
            }
            &&& ctx.image_url is Some && !force ==> found.image_url is None
            &&& ctx.image_url is None || force ==> match a.image {
                Ok(image) => found.image_url == image,
                Err(_) => found.image_url is None,
            }
            &&& !has_lastfm || (ctx.bio is Some && !force) ==> found.bio is None
            &&& has_lastfm && (ctx.bio is None || force) ==> match a.bio {
                Ok(bio) => found.bio == bio,
                Err(_) => found.bio is None,
            }
        }),
{
}

/// An artist job notes the failures that are worth another attempt, of the
/// providers that it asked, in the order in which it asked them.
pub proof fn law_what_an_artist_job_notes(
    force: bool,
    has_lastfm: bool,
    ctx: ArtistCtx<Seq<char>>,
    a: ArtistAnswers,
)
    ensures
        ({
            let of_search = if let Err(ProviderError::Transient(message)) = a.found {
                seq![message]
            } else {
                Seq::empty()
            };
            let of_image = if let Err(ProviderError::Transient(message)) = a.image {
                seq![message]
            } else {
                Seq::empty()
            };
            let of_bio = if let Err(ProviderError::Transient(message)) = a.bio {
                seq![message]
            } else {
                Seq::empty()
            };
            let none = Seq::<Seq<char>>::empty();
            artist_errors(force, has_lastfm, ctx, a) == (if ctx.mbid is None {
                of_search
            } else {
                none
            }) + (if ctx.image_url is None || force {
                of_image
            } else {
                none
            }) + (if has_lastfm && (ctx.bio is None || force) {
                of_bio
            } else {
                none
            })
        }),
{
}

/// What was found is written to the artist that the job is about, overwriting
/// where a refresh is forced; whether an image is among it is kept in mind.
pub proof fn law_artist_writes(force: bool, run: ArtistRunView)
    ensures
        artist_write(force, run) matches ArtistStep::Apply { batch, transient, image } && {
            &&& batch.writes == seq![
                CatalogWrite::<Seq<char>>::Artist {
                    artist_id: run.ctx.id,
                    artist: run.meta,
                    overwrite: force,
                },
            ]
            &&& batch.next == 0
            &&& batch.with_mbid
            &&& transient == run.transient
            &&& image == (run.meta.image_url is Some)
        },
{
}

/// What comes of an artist job: what was noted on the way, once the write came
/// off; a job whose artist is gone is done; what fails in the database fails it.
pub proof fn law_artist_outcomes(
    force: bool,
    has_lastfm: bool,
    ctx: ArtistCtx<Seq<char>>,
    a: ArtistAnswers,
)
    ensures
        ({
            let outcome = artist_outcome(force, has_lastfm, a);
            &&& a.loaded matches Err(error) ==> outcome == Err::<
                Processed<Seq<Seq<char>>>,
                Seq<char>,
            >(error)
            &&& a.loaded == Ok::<Option<ArtistCtx<Seq<char>>>, Seq<char>>(None) ==> outcome == Ok::<
                Processed<Seq<Seq<char>>>,
                Seq<char>,
            >(Processed::EntityGone)
            &&& a.loaded == Ok::<Option<ArtistCtx<Seq<char>>>, Seq<char>>(Some(ctx)) ==> match
                metadata::write_outcome(0, a.written) {
                Ok(()) => outcome == Ok::<Processed<Seq<Seq<char>>>, Seq<char>>(
                    Processed::Done {
                        transient: artist_errors(force, has_lastfm, ctx, a),
                        image: artist_findings(force, has_lastfm, ctx, a).image_url is Some,
                    },
                ),
                Err(error) => outcome == Err::<Processed<Seq<Seq<char>>>, Seq<char>>(error),
            }
        }),
{
}

/// The artist is asked for by name; a bio by the MBID that is known or was just
/// found, where there is one.
pub proof fn law_what_an_artist_job_asks(run: ArtistRunView, key: Seq<char>, other: Option<Seq<char>>)
    ensures
        artist_asks(ArtistStep::Search { run }, other) == Some(
            super::ProviderRequestView::MusicBrainz {
                get: musicbrainz::artist_search(run.ctx.name),
            },
        ),
        artist_asks(ArtistStep::Image { run }, other) == Some(
            super::ProviderRequestView::Deezer {
                get: deezer::artist_search(run.ctx.name),
                wanted: run.ctx.name,
            },
        ),
        artist_asks(ArtistStep::Bio { run }, Some(key)) == Some(
            super::ProviderRequestView::Lastfm {
                get: lastfm::bio_request(
                    key,
                    run.ctx.name,
                    if run.ctx.mbid is Some {
                        run.ctx.mbid
                    } else {
                        run.meta.mbid
                    },
                ),
            },
        ),
        artist_asks(ArtistStep::Bio { run }, None) is None,
{
}

/// What the log says of the image after a forced refresh.
pub proof fn law_image_reports(new: Seq<char>, current: Seq<char>)
    ensures
        image_report_text(Some(new), Some(new)) == "re-fetched, unchanged"@,
        new != current ==> image_report_text(Some(new), Some(current)) == "updated"@,
        image_report_text(Some(new), None) == "added"@,
        image_report_text(None, Some(current)) == "kept (provider returned none)"@,
        image_report_text(None, None) == "none found"@,
{
}

/// What the log says of the bio after a forced refresh.
pub proof fn law_bio_reports(
    found: bool,
    present: bool,
    skipped: &'static str,
    res: &'static str,
)
    requires
        call_ensures(bio_report, (false, found, present), skipped),
        call_ensures(bio_report, (true, found, present), res),
    ensures
        skipped@ == "skipped (LASTFM_API_KEY not set)"@,
        found ==> res@ == "fetched"@,
        !found && present ==> res@ == "kept (provider returned none)"@,
        !found && !present ==> res@ == "none found"@,
{
}

} // verus!
