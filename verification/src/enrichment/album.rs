//! Album jobs: MBID, release date and cover of an album.

use super::Processed;
use crate::ids::Uuid;
use crate::metadata;
use crate::metadata::{AlbumMetadata, CatalogWrite, WriteBatch, WriteFailure};
use crate::providers::coverart;
use crate::providers::coverart::CoverKind;
use crate::providers::deezer;
use crate::providers::musicbrainz;
use crate::providers::musicbrainz::Release;
use crate::providers::ProviderError;
use crate::text;
use crate::time::CalendarDate;
use vstd::prelude::*;
use vstd::string::*;

verus! {

#[derive(Debug, PartialEq, Eq)]
pub struct AlbumCtx<S = String> {
    pub id: i64,
    pub title: S,
    pub mbid: Option<Uuid>,
    pub image_url: Option<S>,
    pub release_date: Option<CalendarDate>,
    pub artist_name: S,
}

impl DeepView for AlbumCtx {
    type V = AlbumCtx<Seq<char>>;

    open spec fn deep_view(&self) -> AlbumCtx<Seq<char>> {
        AlbumCtx {
            id: self.id,
            title: self.title@,
            mbid: self.mbid,
            image_url: self.image_url.deep_view(),
            release_date: self.release_date,
            artist_name: self.artist_name@,
        }
    }
}

/// What an album job has found so far.
#[derive(Debug, PartialEq, Eq)]
pub struct AlbumRun<S = String, L = Vec<String>> {
    pub ctx: AlbumCtx<S>,
    pub meta: AlbumMetadata<S>,
    pub release_group: Option<Uuid>,
    pub transient: L,
}

impl DeepView for AlbumRun {
    type V = AlbumRun<Seq<char>, Seq<Seq<char>>>;

    open spec fn deep_view(&self) -> AlbumRun<Seq<char>, Seq<Seq<char>>> {
        AlbumRun {
            ctx: self.ctx.deep_view(),
            meta: self.meta.deep_view(),
            release_group: self.release_group,
            transient: self.transient.deep_view(),
        }
    }
}

/// Where an album job stands.
#[derive(Debug, PartialEq, Eq)]
#[allow(inconsistent_fields)]
pub enum AlbumStep<S = String, L = Vec<String>, W = Vec<CatalogWrite>> {
    /// Read the album.
    Load { id: i64 },
    /// Search MusicBrainz by title and artist.
    Search { run: AlbumRun<S, L> },
    /// Ask the Cover Art Archive for a cover of the release.
    ReleaseCover { run: AlbumRun<S, L>, mbid: Uuid },
    /// Ask MusicBrainz for the release group.
    Group { run: AlbumRun<S, L>, mbid: Uuid },
    /// Ask the Cover Art Archive for a cover of the release group.
    GroupCover { run: AlbumRun<S, L>, group: Uuid },
    /// Ask Deezer for a cover.
    Fallback { run: AlbumRun<S, L> },
    /// Write what was found.
    Apply { batch: WriteBatch<W>, transient: L, image: bool },
    Done { result: Result<Processed<L>, S> },
}

#[derive(Debug, PartialEq, Eq)]
pub enum AlbumReply<S = String> {
    Loaded(Result<Option<AlbumCtx<S>>, S>),
    Release(Result<Option<Release<S>>, ProviderError<S>>),
    /// A cover, from the archive or from Deezer.
    Cover(Result<Option<S>, ProviderError<S>>),
    Group(Result<Option<Uuid>, ProviderError<S>>),
    Written(Result<(), WriteFailure<S>>),
}

pub type AlbumStepView = AlbumStep<Seq<char>, Seq<Seq<char>>, Seq<CatalogWrite<Seq<char>>>>;

pub type AlbumRunView = AlbumRun<Seq<char>, Seq<Seq<char>>>;

impl DeepView for AlbumStep {
    type V = AlbumStep<Seq<char>, Seq<Seq<char>>, Seq<CatalogWrite<Seq<char>>>>;

    open spec fn deep_view(&self) -> AlbumStep<
        Seq<char>,
        Seq<Seq<char>>,
        Seq<CatalogWrite<Seq<char>>>,
    > {
        match *self {
            AlbumStep::Load { id } => AlbumStep::Load { id },
            AlbumStep::Search { run } => AlbumStep::Search { run: run.deep_view() },
            AlbumStep::ReleaseCover { run, mbid } => AlbumStep::ReleaseCover {
                run: run.deep_view(),
                mbid,
            },
            AlbumStep::Group { run, mbid } => AlbumStep::Group { run: run.deep_view(), mbid },
            AlbumStep::GroupCover { run, group } => AlbumStep::GroupCover {
                run: run.deep_view(),
                group,
            },
            AlbumStep::Fallback { run } => AlbumStep::Fallback { run: run.deep_view() },
            AlbumStep::Apply { batch, transient, image } => AlbumStep::Apply {
                batch: batch.deep_view(),
                transient: transient.deep_view(),
                image,
            },
            AlbumStep::Done { result } => AlbumStep::Done { result: text::result_view(result) },
        }
    }
}

impl DeepView for AlbumReply {
    type V = AlbumReply<Seq<char>>;

    open spec fn deep_view(&self) -> AlbumReply<Seq<char>> {
        match *self {
            AlbumReply::Loaded(r) => AlbumReply::Loaded(text::result_view(r)),
            AlbumReply::Release(r) => AlbumReply::Release(text::result_view(r)),
            AlbumReply::Cover(r) => AlbumReply::Cover(text::result_view(r)),
            AlbumReply::Group(r) => AlbumReply::Group(text::result_view(r)),
            AlbumReply::Written(r) => AlbumReply::Written(text::result_view(r)),
        }
    }
}

/// An album job after its searches: what was found is written.
pub open spec fn album_write(force: bool, run: AlbumRunView) -> AlbumStepView {
    AlbumStep::Apply {
        batch: WriteBatch {
            writes: seq![
                CatalogWrite::Album { album_id: run.ctx.id, album: run.meta, overwrite: force },
            ],
            next: 0,
            with_mbid: true,
        },
        transient: run.transient,
        image: run.meta.image_url is Some,
    }
}

/// After the archive, Deezer is asked where it had no cover.
pub open spec fn album_after_archive(force: bool, run: AlbumRunView) -> AlbumStepView {
    if run.meta.image_url is None {
        AlbumStep::Fallback { run }
    } else {
        album_write(force, run)
    }
}

/// After the release group was looked for, its cover is asked for.
pub open spec fn album_after_group(force: bool, run: AlbumRunView) -> AlbumStepView {
    match run.release_group {
        Some(group) => AlbumStep::GroupCover { run, group },
        None => album_after_archive(force, run),
    }
}

/// After the search, the cover is asked for, if there is none yet or a refresh
/// is forced: the archive by release, where there is an MBID, else Deezer.
pub open spec fn album_after_search(force: bool, run: AlbumRunView) -> AlbumStepView {
    if run.ctx.image_url is None || force {
        match metadata::first_of(run.ctx.mbid, run.meta.mbid) {
            Some(mbid) => AlbumStep::ReleaseCover { run, mbid },
            None => album_after_archive(force, run),
        }
    } else {
        album_write(force, run)
    }
}

/// How the search for an album begins.
pub open spec fn album_begin(force: bool, ctx: AlbumCtx<Seq<char>>) -> AlbumStepView {
    let run = AlbumRun {
        ctx,
        meta: metadata::no_album_metadata(),
        release_group: None,
        transient: Seq::<Seq<char>>::empty(),
    };
    if ctx.mbid is None {
        AlbumStep::Search { run }
    } else {
        album_after_search(force, run)
    }
}

/// What a search adds to what an album job has found.
pub open spec fn album_searched(
    run: AlbumRunView,
    r: Result<Option<Release<Seq<char>>>, ProviderError<Seq<char>>>,
) -> AlbumRunView {
    let transient = super::noted_answer(run.transient, r);
    match super::contribution(r) {
        Some(release) => AlbumRun {
            meta: AlbumMetadata {
                mbid: Some(release.id),
                release_date: match release.date {
                    Some(date) => musicbrainz::mb_date(date),
                    None => None,
                },
                ..run.meta
            },
            release_group: match release.release_group {
                Some(group) => Some(group.id),
                None => None,
            },
            transient,
            ..run
        },
        None => AlbumRun { transient, ..run },
    }
}

/// What the archive's answer about the release leads to. The release may have
/// no art where its group has (any edition's cover).
pub open spec fn album_release_cover(
    force: bool,
    run: AlbumRunView,
    mbid: Uuid,
    r: Result<Option<Seq<char>>, ProviderError<Seq<char>>>,
) -> AlbumStepView {
    match r {
        Ok(Some(url)) => album_write(
            force,
            AlbumRun { meta: AlbumMetadata { image_url: Some(url), ..run.meta }, ..run },
        ),
        Ok(None) => if run.release_group is None {
            AlbumStep::Group { run, mbid }
        } else {
            album_after_group(force, run)
        },
        Err(e) => album_after_archive(
            force,
            AlbumRun { transient: super::noted(run.transient, e), ..run },
        ),
    }
}

/// What a cover adds to what an album job has found.
pub open spec fn album_covered(
    run: AlbumRunView,
    r: Result<Option<Seq<char>>, ProviderError<Seq<char>>>,
) -> AlbumRunView {
    AlbumRun {
        meta: AlbumMetadata {
            image_url: match r {
                Ok(found) => found,
                Err(_) => run.meta.image_url,
            },
            ..run.meta
        },
        transient: super::noted_answer(run.transient, r),
        ..run
    }
}

/// One step of an album job.
pub open spec fn album_next(
    force: bool,
    step: AlbumStepView,
    reply: AlbumReply<Seq<char>>,
) -> AlbumStepView {
    match (step, reply) {
        (AlbumStep::Load { .. }, AlbumReply::Loaded(r)) => match r {
            Ok(Some(ctx)) => album_begin(force, ctx),
            Ok(None) => AlbumStep::Done { result: Ok(Processed::EntityGone) },
            Err(error) => AlbumStep::Done { result: Err(error) },
        },
        (AlbumStep::Search { run }, AlbumReply::Release(r)) => album_after_search(
            force,
            album_searched(run, r),
        ),
        (AlbumStep::ReleaseCover { run, mbid }, AlbumReply::Cover(r)) => album_release_cover(
            force,
            run,
            mbid,
            r,
        ),
        (AlbumStep::Group { run, .. }, AlbumReply::Group(r)) => album_after_group(
            force,
            AlbumRun {
                release_group: super::contribution(r),
                transient: super::noted_answer(run.transient, r),
                ..run
            },
        ),
        (AlbumStep::GroupCover { run, .. }, AlbumReply::Cover(r)) => album_after_archive(
            force,
            album_covered(run, r),
        ),
        (AlbumStep::Fallback { run }, AlbumReply::Cover(r)) => album_write(
            force,
            album_covered(run, r),
        ),
        (
            AlbumStep::Apply { batch, transient, image },
            AlbumReply::Written(r),
        ) => match super::applied(metadata::batch_next(batch, r), transient, image) {
            Ok(batch) => AlbumStep::Apply { batch, transient, image },
            Err(result) => AlbumStep::Done { result },
        },
        _ => step,
    }
}

fn write_album(force: bool, run: AlbumRun) -> (res: AlbumStep)
    ensures
        res.deep_view() == album_write(force, run.deep_view()),
{
    let image: bool = run.meta.image_url.is_some();
    let writes: Vec<CatalogWrite> = vec![
        CatalogWrite::Album { album_id: run.ctx.id, album: run.meta, overwrite: force },
    ];
    proof {
        assert(writes.deep_view() =~= seq![
            CatalogWrite::Album {
                album_id: run.ctx.id,
                album: run.meta.deep_view(),
                overwrite: force,
            },
        ]);
    }
    AlbumStep::Apply {
        batch: WriteBatch { writes, next: 0, with_mbid: true },
        transient: run.transient,
        image,
    }
}

fn after_archive(force: bool, run: AlbumRun) -> (res: AlbumStep)
    ensures
        res.deep_view() == album_after_archive(force, run.deep_view()),
{
    if run.meta.image_url.is_none() {
        AlbumStep::Fallback { run }
    } else {
        write_album(force, run)
    }
}

fn after_group(force: bool, run: AlbumRun) -> (res: AlbumStep)
    ensures
        res.deep_view() == album_after_group(force, run.deep_view()),
{
    match run.release_group {
        Some(group) => AlbumStep::GroupCover { run, group },
        None => after_archive(force, run),
    }
}

fn after_album_search(force: bool, run: AlbumRun) -> (res: AlbumStep)
    ensures
        res.deep_view() == album_after_search(force, run.deep_view()),
{
    if run.ctx.image_url.is_none() || force {
        let effective_mbid: Option<Uuid> = match run.ctx.mbid {
            Some(mbid) => Some(mbid),
            None => run.meta.mbid,
        };
        match effective_mbid {
            Some(mbid) => AlbumStep::ReleaseCover { run, mbid },
            None => after_archive(force, run),
        }
    } else {
        write_album(force, run)
    }
}

/// Adds a cover to what an album job has found.
fn cover(run: AlbumRun, r: Result<Option<String>, ProviderError>) -> (res: AlbumRun)
    ensures
        res.deep_view() == album_covered(run.deep_view(), text::result_view(r)),
{
    let mut run = run;
    match r {
        Ok(found) => {
            run.meta.image_url = found;
        },
        Err(e) => {
            super::note(&mut run.transient, e);
        },
    }
    run
}

/// Begins a job for the album of that id. [`advance_album`] carries it on.
pub fn enrich_album(id: i64) -> (res: AlbumStep)
    ensures
        res.deep_view() == (AlbumStepView::Load { id }),
{
    AlbumStep::Load { id }
}

/// Takes the answer to the open question of an album job.
pub fn advance_album(force: bool, step: AlbumStep, reply: AlbumReply) -> (res: AlbumStep)
    ensures
        res.deep_view() == album_next(force, step.deep_view(), reply.deep_view()),
{
    match (step, reply) {
        (AlbumStep::Load { .. }, AlbumReply::Loaded(r)) => match r {
            Ok(Some(ctx)) => {
                let transient: Vec<String> = Vec::new();
                let unknown: bool = ctx.mbid.is_none();
                let run = AlbumRun {
                    ctx,
                    meta: AlbumMetadata::default(),
                    release_group: None,
                    transient,
                };
                proof {
                    assert(transient.deep_view() =~= Seq::<Seq<char>>::empty());
                }
                if unknown {
                    AlbumStep::Search { run }
                } else {
                    after_album_search(force, run)
                }
            },
            Ok(None) => AlbumStep::Done { result: Ok(Processed::EntityGone) },
            Err(error) => AlbumStep::Done { result: Err(error) },
        },
        (AlbumStep::Search { run }, AlbumReply::Release(r)) => {
            let mut run = run;
            match super::take_answer(&mut run.transient, r) {
                Some(release) => {
                    run.meta.mbid = Some(release.id);
                    run.meta.release_date = match &release.date {
                        Some(date) => musicbrainz::parse_mb_date(date.as_str()),
                        None => None,
                    };
                    run.release_group = match release.release_group {
                        Some(group) => Some(group.id),
                        None => None,
                    };
                },
                None => {},
            }
            after_album_search(force, run)
        },
        (AlbumStep::ReleaseCover { run, mbid }, AlbumReply::Cover(r)) => {
            let mut run = run;
            match r {
                Ok(Some(url)) => {
                    run.meta.image_url = Some(url);
                    write_album(force, run)
                },
                Ok(None) => if run.release_group.is_none() {
                    AlbumStep::Group { run, mbid }
                } else {
                    after_group(force, run)
                },
                Err(e) => {
                    super::note(&mut run.transient, e);
                    after_archive(force, run)
                },
            }
        },
        (AlbumStep::Group { run, .. }, AlbumReply::Group(r)) => {
            let mut run = run;
            run.release_group = super::take_answer(&mut run.transient, r);
            after_group(force, run)
        },
        (AlbumStep::GroupCover { run, .. }, AlbumReply::Cover(r)) => after_archive(
            force,
            cover(run, r),
        ),
        (AlbumStep::Fallback { run }, AlbumReply::Cover(r)) => write_album(force, cover(run, r)),
        (AlbumStep::Apply { batch, transient, image }, AlbumReply::Written(r)) => {
            match super::finish(metadata::advance_batch(batch, r), transient, image) {
                Ok((batch, transient)) => AlbumStep::Apply { batch, transient, image },
                Err(result) => AlbumStep::Done { result },
            }
        },
        (step, _) => step,
    }
}

/// The request that answers the question which is open in `step`, where it is one
/// for a provider.
pub open spec fn album_asks(step: AlbumStepView) -> Option<super::ProviderRequestView> {
    match step {
        AlbumStep::Search { run } => Some(
            super::ProviderRequest::MusicBrainz {
                get: musicbrainz::release_search(run.ctx.title, run.ctx.artist_name),
            },
        ),
        AlbumStep::ReleaseCover { mbid, .. } => Some(
            super::ProviderRequest::CoverArt {
                url: coverart::cover_url(CoverKind::Release, mbid),
            },
        ),
        AlbumStep::Group { mbid, .. } => Some(
            super::ProviderRequest::MusicBrainz { get: musicbrainz::release_lookup(mbid) },
        ),
        AlbumStep::GroupCover { group, .. } => Some(
            super::ProviderRequest::CoverArt {
                url: coverart::cover_url(CoverKind::ReleaseGroup, group),
            },
        ),
        AlbumStep::Fallback { run } => Some(
            super::ProviderRequest::Deezer {
                get: deezer::album_search(run.ctx.artist_name, run.ctx.title),
                wanted: run.ctx.title,
            },
        ),
        _ => None,
    }
}

/// The request that answers the open question of an album job: which release it
/// is by title and artist, its group and its covers by MBID, and Deezer's cover
/// by artist and title.
pub fn album_request(step: &AlbumStep) -> (res: Option<super::ProviderRequest>)
    ensures
        res.deep_view() == album_asks(step.deep_view()),
{
    match step {
        AlbumStep::Search { run } => Some(
            super::ProviderRequest::MusicBrainz {
                get: musicbrainz::search_release(
                    run.ctx.title.as_str(),
                    run.ctx.artist_name.as_str(),
                ),
            },
        ),
        AlbumStep::ReleaseCover { mbid, .. } => Some(
            super::ProviderRequest::CoverArt {
                url: coverart::front_cover_url(CoverKind::Release, *mbid),
            },
        ),
        AlbumStep::Group { mbid, .. } => Some(
            super::ProviderRequest::MusicBrainz { get: musicbrainz::lookup_release_group(*mbid) },
        ),
        AlbumStep::GroupCover { group, .. } => Some(
            super::ProviderRequest::CoverArt {
                url: coverart::front_cover_url(CoverKind::ReleaseGroup, *group),
            },
        ),
        AlbumStep::Fallback { run } => Some(
            super::ProviderRequest::Deezer {
                get: deezer::album_cover(run.ctx.artist_name.as_str(), run.ctx.title.as_str()),
                wanted: run.ctx.title.clone(),
            },
        ),
        _ => None,
    }
}

/// What would answer each question of an album job.
pub struct AlbumAnswers {
    pub loaded: Result<Option<AlbumCtx<Seq<char>>>, Seq<char>>,
    pub release: Result<Option<Release<Seq<char>>>, ProviderError<Seq<char>>>,
    pub release_cover: Result<Option<Seq<char>>, ProviderError<Seq<char>>>,
    pub group: Result<Option<Uuid>, ProviderError<Seq<char>>>,
    pub group_cover: Result<Option<Seq<char>>, ProviderError<Seq<char>>>,
    pub fallback: Result<Option<Seq<char>>, ProviderError<Seq<char>>>,
    pub written: metadata::WriteAnswers,
}

/// What an album job finds. The MBID and the date come from a search, where the
/// MBID was unknown. The cover comes, where there was none or a refresh is
/// forced, from the first of these that has one: the archive's entry for the
/// release, its entry for the release group (asked only where the release has
/// no art), and Deezer.
pub open spec fn album_found(force: bool, ctx: AlbumCtx<Seq<char>>, a: AlbumAnswers) -> AlbumRunView {
    let begun = AlbumRun {
        ctx,
        meta: metadata::no_album_metadata(),
        release_group: None,
        transient: Seq::<Seq<char>>::empty(),
    };
    let searched = album_searched(begun, super::asked(ctx.mbid is None, a.release));
    let wanted = ctx.image_url is None || force;
    let keyed = wanted && metadata::first_of(ctx.mbid, searched.meta.mbid) is Some;
    let release_cover = super::asked(keyed, a.release_cover);
    let artless = keyed && a.release_cover == Ok::<Option<Seq<char>>, ProviderError<Seq<char>>>(
        None,
    );
    let group_answer = super::asked(artless && searched.release_group is None, a.group);
    let group = metadata::first_of(searched.release_group, super::contribution(group_answer));
    let group_cover = super::asked(artless && group is Some, a.group_cover);
    let archived = metadata::first_of(
        super::contribution(release_cover),
        super::contribution(group_cover),
    );
    let fallback = super::asked(wanted && archived is None, a.fallback);
    AlbumRun {
        ctx,
        meta: AlbumMetadata {
            image_url: metadata::first_of(archived, super::contribution(fallback)),
            ..searched.meta
        },
        release_group: group,
        transient: super::noted_answer(
            super::noted_answer(
                super::noted_answer(
                    super::noted_answer(searched.transient, release_cover),
                    group_answer,
                ),
                group_cover,
            ),
            fallback,
        ),
    }
}

/// What comes of an album job.
pub open spec fn album_outcome(force: bool, a: AlbumAnswers) -> Result<
    Processed<Seq<Seq<char>>>,
    Seq<char>,
> {
    match a.loaded {
        Err(error) => Err(error),
        Ok(None) => Ok(Processed::EntityGone),
        Ok(Some(ctx)) => match metadata::write_outcome(0, a.written) {
            Ok(()) => Ok(
                Processed::Done {
                    transient: album_found(force, ctx, a).transient,
                    image: album_found(force, ctx, a).meta.image_url is Some,
                },
            ),
            Err(error) => Err(error),
        },
    }
}

/// The answer to the question that is open in `step`.
pub open spec fn album_reply(step: AlbumStepView, a: AlbumAnswers) -> AlbumReply<Seq<char>> {
    match step {
        AlbumStep::Load { .. } => AlbumReply::Loaded(a.loaded),
        AlbumStep::Search { .. } => AlbumReply::Release(a.release),
        AlbumStep::ReleaseCover { .. } => AlbumReply::Cover(a.release_cover),
        AlbumStep::Group { .. } => AlbumReply::Group(a.group),
        AlbumStep::GroupCover { .. } => AlbumReply::Cover(a.group_cover),
        AlbumStep::Fallback { .. } => AlbumReply::Cover(a.fallback),
        AlbumStep::Apply { batch, .. } => AlbumReply::Written(
            if batch.with_mbid {
                (a.written.with_mbid)(batch.next as int)
            } else {
                (a.written.without_mbid)(batch.next as int)
            },
        ),
        AlbumStep::Done { .. } => AlbumReply::Written(Ok(())),
    }
}

/// The state after `n` questions were answered.
pub open spec fn album_run(
    force: bool,
    step: AlbumStepView,
    a: AlbumAnswers,
    n: nat,
) -> AlbumStepView
    decreases n,
{
    if n == 0 {
        step
    } else {
        album_run(force, album_next(force, step, album_reply(step, a)), a, (n - 1) as nat)
    }
}

proof fn lemma_album_settled(force: bool, step: AlbumStepView, a: AlbumAnswers, n: nat)
    requires
        step is Done,
    ensures
        album_run(force, step, a, n) == step,
    decreases n,
{
    if n > 0 {
        lemma_album_settled(force, step, a, (n - 1) as nat);
    }
}

proof fn lemma_album_run_continues(
    force: bool,
    step: AlbumStepView,
    a: AlbumAnswers,
    m: nat,
    n: nat,
)
    ensures
        album_run(force, step, a, m + n) == album_run(
            force,
            album_run(force, step, a, m),
            a,
            n,
        ),
    decreases m,
{
    if m > 0 {
        let next = album_next(force, step, album_reply(step, a));
        lemma_album_run_continues(force, next, a, (m - 1) as nat, n);
    }
}

proof fn lemma_album_written(force: bool, run: AlbumRunView, a: AlbumAnswers, n: nat)
    requires
        n >= 2,
    ensures
        album_run(force, album_write(force, run), a, n) == (AlbumStepView::Done {
            result: match metadata::write_outcome(0, a.written) {
                Ok(()) => Ok(
                    Processed::Done {
                        transient: run.transient,
                        image: run.meta.image_url is Some,
                    },
                ),
                Err(error) => Err(error),
            },
        }),
{
    reveal_with_fuel(album_run, 3);
    let s0 = album_write(force, run);
    let s1 = album_next(force, s0, album_reply(s0, a));
    let s2 = album_next(force, s1, album_reply(s1, a));
    if s1 is Done {
        lemma_album_settled(force, s1, a, (n - 1) as nat);
    } else {
        lemma_album_settled(force, s2, a, (n - 2) as nat);
    }
}

/// The searches of an album job, from the one for its cover on.
proof fn lemma_album_cover_searches(
    force: bool,
    searched: AlbumRunView,
    a: AlbumAnswers,
) -> (n: nat)
    requires
        searched.meta.image_url is None,
    ensures
        n <= 4,
        ({
            let ctx = searched.ctx;
            let wanted = ctx.image_url is None || force;
            let keyed = wanted && metadata::first_of(ctx.mbid, searched.meta.mbid) is Some;
            let release_cover = super::asked(keyed, a.release_cover);
            let artless = keyed && a.release_cover == Ok::<
                Option<Seq<char>>,
                ProviderError<Seq<char>>,
            >(None);
            let group_answer = super::asked(artless && searched.release_group is None, a.group);
            let group = metadata::first_of(
                searched.release_group,
                super::contribution(group_answer),
            );
            let group_cover = super::asked(artless && group is Some, a.group_cover);
            let archived = metadata::first_of(
                super::contribution(release_cover),
                super::contribution(group_cover),
            );
            let fallback = super::asked(wanted && archived is None, a.fallback);
            album_run(force, album_after_search(force, searched), a, n) == album_write(
                force,
                AlbumRun {
                    ctx,
                    meta: AlbumMetadata {
                        image_url: metadata::first_of(archived, super::contribution(fallback)),
                        ..searched.meta
                    },
                    release_group: group,
                    transient: super::noted_answer(
                        super::noted_answer(
                            super::noted_answer(
                                super::noted_answer(searched.transient, release_cover),
                                group_answer,
                            ),
                            group_cover,
                        ),
                        fallback,
                    ),
                },
            )
        }),
{
    reveal_with_fuel(album_run, 5);
    let s0 = album_after_search(force, searched);
    let s1 = album_next(force, s0, album_reply(s0, a));
    let s2 = album_next(force, s1, album_reply(s1, a));
    let s3 = album_next(force, s2, album_reply(s2, a));
    if s0 is Apply {
        0
    } else if s1 is Apply {
        1
    } else if s2 is Apply {
        2
    } else if s3 is Apply {
        3
    } else {
        4
    }
}

/// What an album job writes is what its questions turned up: the write that is
/// open after at most six answers carries the findings.
pub proof fn law_album_job_writes_its_findings(
    id: i64,
    force: bool,
    ctx: AlbumCtx<Seq<char>>,
    a: AlbumAnswers,
) -> (n: nat)
    requires
        a.loaded == Ok::<Option<AlbumCtx<Seq<char>>>, Seq<char>>(Some(ctx)),
    ensures
        n <= 6,
        album_run(force, AlbumStep::Load { id }, a, n) == album_write(
            force,
            album_found(force, ctx, a),
        ),
{
    let begun = AlbumRun {
        ctx,
        meta: metadata::no_album_metadata(),
        release_group: None,
        transient: Seq::<Seq<char>>::empty(),
    };
    let searched = album_searched(begun, super::asked(ctx.mbid is None, a.release));
    let m = lemma_album_cover_searches(force, searched, a);
    reveal_with_fuel(album_run, 3);
    let k: nat = if ctx.mbid is None {
        2
    } else {
        1
    };
    assert(album_run(force, AlbumStep::Load { id }, a, k) == album_after_search(force, searched));
    lemma_album_run_continues(force, AlbumStep::Load { id }, a, k, m);
    k + m
}

/// Eight answers bring every album job to the outcome that they determine.
pub proof fn law_album_job(id: i64, force: bool, a: AlbumAnswers, n: nat)
    requires
        n >= 8,
    ensures
        album_run(force, AlbumStep::Load { id }, a, n) == (AlbumStepView::Done {
            result: album_outcome(force, a),
        }),
{
    match a.loaded {
        Ok(Some(ctx)) => {
            let k = law_album_job_writes_its_findings(id, force, ctx, a);
            lemma_album_run_continues(force, AlbumStep::Load { id }, a, k, (n - k) as nat);
            lemma_album_written(force, album_found(force, ctx, a), a, (n - k) as nat);
        },
        _ => {
            let s1 = album_next(force, AlbumStep::Load { id }, AlbumReply::Loaded(a.loaded));
            lemma_album_settled(force, s1, a, (n - 1) as nat);
        },
    }
}

/// Once an album job has found a cover and stored what it found, now-playing is
/// published again, whether or not another provider failed meanwhile.
pub proof fn law_album_cover_is_published(
    job: super::Job<Seq<char>>,
    force: bool,
    ctx: AlbumCtx<Seq<char>>,
    a: AlbumAnswers,
)
    requires
        a.loaded == Ok::<Option<AlbumCtx<Seq<char>>>, Seq<char>>(Some(ctx)),
        album_found(force, ctx, a).meta.image_url is Some,
        metadata::write_outcome(0, a.written) is Ok,
    ensures
        super::publishes(
            super::EntityKind::Album,
            super::job_end(job, album_outcome(force, a)),
        ),
{
}

/// What an album job finds besides a cover: the MBID and the date of the release
/// that was found, where the album has no MBID, and neither where it has one.
pub proof fn law_what_an_album_search_finds(
    force: bool,
    ctx: AlbumCtx<Seq<char>>,
    a: AlbumAnswers,
    release: Release<Seq<char>>,
)
    ensures
        ({
            let found = album_found(force, ctx, a);
            &&& found.ctx == ctx
            &&& ctx.mbid is Some || !(a.release matches Ok(Some(_))) ==> found.meta.mbid is None
                && found.meta.release_date is None
            &&& ctx.mbid is None && a.release == Ok::<
                Option<Release<Seq<char>>>,
                ProviderError<Seq<char>>,
            >(Some(release)) ==> {
                &&& found.meta.mbid == Some(release.id)
                &&& release.date is None ==> found.meta.release_date is None
                &&& release.date matches Some(date) ==> found.meta.release_date
                    == musicbrainz::mb_date(date)
            }
        }),
{
}

/// Where an album has a cover and no refresh is forced, none is looked for.
/// Otherwise the archive's cover of the release counts, where the release is known
/// and has one; where it has none, that of its group; and where neither is to be
/// had, Deezer's.
pub proof fn law_where_a_cover_comes_from(
    force: bool,
    ctx: AlbumCtx<Seq<char>>,
    a: AlbumAnswers,
    url: Seq<char>,
    group: Uuid,
)
    ensures
        ({
            let found = album_found(force, ctx, a).meta.image_url;
            let wanted = ctx.image_url is None || force;
            let known = ctx.mbid is Some || (a.release matches Ok(Some(_)));
            let fallback = match a.fallback {
                Ok(cover) => cover,
                Err(_) => None,
            };
            let artless = a.release_cover == Ok::<Option<Seq<char>>, ProviderError<Seq<char>>>(
                None,
            );
            let searched_group = if ctx.mbid is None {
                match a.release {
                    Ok(Some(release)) => match release.release_group {
                        Some(found) => Some(found.id),
                        None => None,
                    },
                    _ => None,
                }
            } else {
                None
            };
            let grouped = searched_group == Some(group) || (searched_group is None && a.group
                == Ok::<Option<Uuid>, ProviderError<Seq<char>>>(Some(group)));
            let ungrouped = searched_group is None && !(a.group matches Ok(Some(_)));
            &&& !wanted ==> found is None
            &&& wanted && !known ==> found == fallback
            &&& wanted && known && a.release_cover == Ok::<
                Option<Seq<char>>,
                ProviderError<Seq<char>>,
            >(Some(url)) ==> found == Some(url)
            &&& wanted && known && a.release_cover is Err ==> found == fallback
            &&& wanted && known && artless && grouped && a.group_cover == Ok::<
                Option<Seq<char>>,
                ProviderError<Seq<char>>,
            >(Some(url)) ==> found == Some(url)
            &&& wanted && known && artless && grouped && !(a.group_cover matches Ok(Some(_)))
                ==> found == fallback
            &&& wanted && known && artless && ungrouped ==> found == fallback
        }),
{
}

/// An album job notes the failures that are worth another attempt, of the
/// providers that it asked, in the order in which it asked them: the search, where
/// the MBID was unknown; then, for a cover that is wanted, the archive where the
/// release is known, MusicBrainz for the group of a release without art, the
/// archive for the group, and Deezer where the archive had no cover.
pub proof fn law_what_an_album_job_notes(
    force: bool,
    ctx: AlbumCtx<Seq<char>>,
    a: AlbumAnswers,
)
    ensures
        ({
            let none = Seq::<Seq<char>>::empty();
            let of_search = if let Err(ProviderError::Transient(message)) = a.release {
                seq![message]
            } else {
                none
            };
            let of_release = if let Err(ProviderError::Transient(message)) = a.release_cover {
                seq![message]
            } else {
                none
            };
            let of_lookup = if let Err(ProviderError::Transient(message)) = a.group {
                seq![message]
            } else {
                none
            };
            let of_group = if let Err(ProviderError::Transient(message)) = a.group_cover {
                seq![message]
            } else {
                none
            };
            let of_deezer = if let Err(ProviderError::Transient(message)) = a.fallback {
                seq![message]
            } else {
                none
            };
            let wanted = ctx.image_url is None || force;
            let known = ctx.mbid is Some || (a.release matches Ok(Some(_)));
            let artless = wanted && known && a.release_cover == Ok::<
                Option<Seq<char>>,
                ProviderError<Seq<char>>,
            >(None);
            let group_searched = ctx.mbid is None && (a.release matches Ok(Some(release))
                && release.release_group is Some);
            let grouped = artless && (group_searched || (a.group matches Ok(Some(_))));
            let archived = wanted && known && ((a.release_cover matches Ok(Some(_))) || (grouped && (
            a.group_cover matches Ok(Some(_)))));
            album_found(force, ctx, a).transient == (if ctx.mbid is None {
                of_search
            } else {
                none
            }) + (if wanted && known {
                of_release
            } else {
                none
            }) + (if artless && !group_searched {
                of_lookup
            } else {
                none
            }) + (if grouped {
                of_group
            } else {
                none
            }) + (if wanted && !archived {
                of_deezer
            } else {
                none
            })
        }),
{
}

/// What was found is written to the album that the job is about, overwriting where
/// a refresh is forced; whether a cover is among it is kept in mind.
pub proof fn law_album_writes(force: bool, run: AlbumRunView)
    ensures
        album_write(force, run) matches AlbumStep::Apply { batch, transient, image } && {
            &&& batch.writes == seq![
                CatalogWrite::<Seq<char>>::Album {
                    album_id: run.ctx.id,
                    album: run.meta,
                    overwrite: force,
                },
            ]
            &&& batch.next == 0
            &&& batch.with_mbid
            &&& transient == run.transient
            &&& image == (run.meta.image_url is Some)
        },
{
}

/// What comes of an album job: what was noted on the way, once the write came off;
/// a job whose album is gone is done; what fails in the database fails it.
pub proof fn law_album_outcomes(force: bool, ctx: AlbumCtx<Seq<char>>, a: AlbumAnswers)
    ensures
        ({
            let outcome = album_outcome(force, a);
            &&& a.loaded matches Err(error) ==> outcome == Err::<
                Processed<Seq<Seq<char>>>,
                Seq<char>,
            >(error)
            &&& a.loaded == Ok::<Option<AlbumCtx<Seq<char>>>, Seq<char>>(None) ==> outcome == Ok::<
                Processed<Seq<Seq<char>>>,
                Seq<char>,
            >(Processed::EntityGone)
            &&& a.loaded == Ok::<Option<AlbumCtx<Seq<char>>>, Seq<char>>(Some(ctx)) ==> match
                metadata::write_outcome(0, a.written) {
                Ok(()) => outcome == Ok::<Processed<Seq<Seq<char>>>, Seq<char>>(
                    Processed::Done {
                        transient: album_found(force, ctx, a).transient,
                        image: album_found(force, ctx, a).meta.image_url is Some,
                    },
                ),
                Err(error) => outcome == Err::<Processed<Seq<Seq<char>>>, Seq<char>>(error),
            }
        }),
{
}

/// The release is searched for by title and artist, its group and the covers of
/// both are asked for by MBID, and Deezer is asked by artist and title.
pub proof fn law_what_an_album_job_asks(run: AlbumRunView, mbid: Uuid, group: Uuid)
    ensures
        album_asks(AlbumStep::Search { run }) == Some(
            super::ProviderRequestView::MusicBrainz {
                get: musicbrainz::release_search(run.ctx.title, run.ctx.artist_name),
            },
        ),
        album_asks(AlbumStep::ReleaseCover { run, mbid }) == Some(
            super::ProviderRequestView::CoverArt {
                url: coverart::cover_url(CoverKind::Release, mbid),
            },
        ),
        album_asks(AlbumStep::Group { run, mbid }) == Some(
            super::ProviderRequestView::MusicBrainz { get: musicbrainz::release_lookup(mbid) },
        ),
        album_asks(AlbumStep::GroupCover { run, group }) == Some(
            super::ProviderRequestView::CoverArt {
                url: coverart::cover_url(CoverKind::ReleaseGroup, group),
            },
        ),
        album_asks(AlbumStep::Fallback { run }) == Some(
            super::ProviderRequestView::Deezer {
                get: deezer::album_search(run.ctx.artist_name, run.ctx.title),
                wanted: run.ctx.title,
            },
        ),
{
}

/// The MBID whose cover is asked for is the album's own where it has one, and the
/// one that was just found where it has not; the group that is asked for is that
/// of the same release, and the cover of a group that of the group found.
pub proof fn law_covers_are_those_of_the_album(
    force: bool,
    run: AlbumRunView,
    mbid: Uuid,
    group: Uuid,
    none: Result<Option<Seq<char>>, ProviderError<Seq<char>>>,
)
    requires
        run.ctx.image_url is None || force,
        none == Ok::<Option<Seq<char>>, ProviderError<Seq<char>>>(None),
    ensures
        run.ctx.mbid == Some(mbid) ==> album_after_search(force, run) == (
        AlbumStepView::ReleaseCover { run, mbid }),
        run.ctx.mbid is None && run.meta.mbid == Some(mbid) ==> album_after_search(force, run) == (
        AlbumStepView::ReleaseCover { run, mbid }),
        run.release_group is None ==> album_next(
            force,
            AlbumStep::ReleaseCover { run, mbid },
            AlbumReply::Cover(none),
        ) == (AlbumStepView::Group { run, mbid }),
        run.release_group == Some(group) ==> album_next(
            force,
            AlbumStep::ReleaseCover { run, mbid },
            AlbumReply::Cover(none),
        ) == (AlbumStepView::GroupCover { run, group }),
        album_next(
            force,
            AlbumStep::Group { run, mbid },
            AlbumReply::Group(Ok(Some(group))),
        ) == (AlbumStepView::GroupCover {
            run: AlbumRun { release_group: Some(group), ..run },
            group,
        }),
{
}

} // verus!
