//! Metadata enrichment: what a job asks the providers, what it makes of their
//! answers, and what becomes of the job.
//!
//! Providers are asked cheapest-budget last:
//!
//! - MusicBrainz (1 req/s): MBIDs, durations, release dates. Canonical;
//!   everything else keys off the MBIDs it resolves.
//! - Cover Art Archive: album covers by release or release-group MBID.
//! - Deezer: artist images, and album covers the archive doesn't have.
//! - Last.fm (optional): artist bios.
//!
//! Failure model: provider errors are split into transient (retry the job with
//! exponential backoff, keeping whatever fields were already applied) and
//! fatal (treated as no contribution). "No match" is a valid final result.

pub mod album;
pub mod artist;
pub mod track;

use crate::metadata::{BatchStep, CatalogWrite, WriteBatch};
use crate::providers::{HttpGet, HttpGetView, ProviderError, ProviderResult};
use crate::text;
use vstd::arithmetic::power::{lemma_pow0, lemma_pow_increases, pow};
use vstd::prelude::*;
use vstd::string::*;

verus! {

/// A job is given up after this many attempts.
pub const MAX_ATTEMPTS: i32 = 5;

/// What a job asks of a provider.
#[derive(Debug, PartialEq, Eq)]
pub enum ProviderRequest<G = HttpGet, S = String> {
    MusicBrainz { get: G },
    /// Is there a cover at the address?
    CoverArt { url: S },
    /// A hit counts only if it carries the name `wanted`.
    Deezer { get: G, wanted: S },
    Lastfm { get: G },
}

pub type ProviderRequestView = ProviderRequest<HttpGetView, Seq<char>>;

impl DeepView for ProviderRequest {
    type V = ProviderRequest<HttpGetView, Seq<char>>;

    open spec fn deep_view(&self) -> ProviderRequest<HttpGetView, Seq<char>> {
        match *self {
            ProviderRequest::MusicBrainz { get } => ProviderRequest::MusicBrainz {
                get: get.deep_view(),
            },
            ProviderRequest::CoverArt { url } => ProviderRequest::CoverArt { url: url@ },
            ProviderRequest::Deezer { get, wanted } => ProviderRequest::Deezer {
                get: get.deep_view(),
                wanted: wanted@,
            },
            ProviderRequest::Lastfm { get } => ProviderRequest::Lastfm { get: get.deep_view() },
        }
    }
}

/// A claimed enrichment job, ready to be processed by the worker.
#[derive(Debug, PartialEq, Eq)]
pub struct Job<S = String> {
    pub id: i64,
    pub entity_type: S,
    pub entity_id: i64,
    pub attempts: i32,
    pub force: bool,
}

impl DeepView for Job {
    type V = Job<Seq<char>>;

    open spec fn deep_view(&self) -> Job<Seq<char>> {
        Job {
            id: self.id,
            entity_type: self.entity_type@,
            entity_id: self.entity_id,
            attempts: self.attempts,
            force: self.force,
        }
    }
}

/// How a job ended.
#[derive(Debug, PartialEq, Eq)]
pub enum Processed<L = Vec<String>> {
    /// Job ran; carries the transient provider errors encountered (none means
    /// a clean finish), and whether an image was found and stored.
    Done { transient: L, image: bool },
    /// The catalog row no longer exists.
    EntityGone,
}

impl DeepView for Processed {
    type V = Processed<Seq<Seq<char>>>;

    open spec fn deep_view(&self) -> Processed<Seq<Seq<char>>> {
        match *self {
            Processed::Done { transient, image } => Processed::Done {
                transient: transient.deep_view(),
                image,
            },
            Processed::EntityGone => Processed::EntityGone,
        }
    }
}

/// The errors noted so far and, if `err` is transient, its message.
pub open spec fn noted(transient: Seq<Seq<char>>, err: ProviderError<Seq<char>>) -> Seq<Seq<char>> {
    match err {
        ProviderError::Transient(message) => transient.push(message),
        ProviderError::Fatal(_) => transient,
    }
}

/// Transient errors accumulate on the job (it will retry); fatal ones are
/// dropped, since retrying cannot fix them.
pub fn note(transient: &mut Vec<String>, err: ProviderError)
    ensures
        final(transient).deep_view() == noted(old(transient).deep_view(), err.deep_view()),
{
    match err {
        ProviderError::Transient(message) => {
            transient.push(message);
            proof {
                assert(transient.deep_view() =~= old(transient).deep_view().push(message@));
            }
        },
        ProviderError::Fatal(_) => {},
    }
}

/// What an answer adds to the errors noted so far.
pub open spec fn noted_answer<T>(
    transient: Seq<Seq<char>>,
    answer: Result<Option<T>, ProviderError<Seq<char>>>,
) -> Seq<Seq<char>> {
    match answer {
        Ok(_) => transient,
        Err(e) => noted(transient, e),
    }
}

/// What an answer contributes.
pub open spec fn contribution<T>(answer: Result<Option<T>, ProviderError<Seq<char>>>) -> Option<T> {
    match answer {
        Ok(found) => found,
        Err(_) => None,
    }
}

/// Splits an answer into what it contributes and the error to note.
pub(crate) fn take_answer<T>(transient: &mut Vec<String>, answer: ProviderResult<T>) -> (res: Option<T>) where
    T: DeepView,

    ensures
        res.deep_view() == contribution(text::result_view(answer)),
        final(transient).deep_view() == noted_answer(
            old(transient).deep_view(),
            text::result_view(answer),
        ),
{
    match answer {
        Ok(found) => found,
        Err(e) => {
            note(transient, e);
            None
        },
    }
}

/// What becomes of a job whose writes have come to `step`. `image` says whether
/// an image is among what is written.
pub open spec fn applied(
    step: BatchStep<Seq<char>, Seq<CatalogWrite<Seq<char>>>>,
    transient: Seq<Seq<char>>,
    image: bool,
) -> Result<
    WriteBatch<Seq<CatalogWrite<Seq<char>>>>,
    Result<Processed<Seq<Seq<char>>>, Seq<char>>,
> {
    match step {
        BatchStep::Write { batch } => Ok(batch),
        BatchStep::Done { result: Ok(()) } => Err(Ok(Processed::Done { transient, image })),
        BatchStep::Done { result: Err(error) } => Err(Err(error)),
    }
}

/// What becomes of a job whose writes have come to `step`.
pub(crate) fn finish(step: BatchStep, transient: Vec<String>, image: bool) -> (res: Result<
    (WriteBatch, Vec<String>),
    Result<Processed, String>,
>)
    ensures
        match (res, applied(step.deep_view(), transient.deep_view(), image)) {
            (Ok((batch, kept)), Ok(wanted)) => batch.deep_view() == wanted && kept == transient,
            (Err(result), Err(wanted)) => text::result_view(result) == wanted,
            _ => false,
        },
{
    match step {
        BatchStep::Write { batch } => Ok((batch, transient)),
        BatchStep::Done { result: Ok(()) } => Err(Ok(Processed::Done { transient, image })),
        BatchStep::Done { result: Err(error) } => Err(Err(error)),
    }
}

/// An answer to a question that was put; none to one that was not.
pub open spec fn asked<T>(
    put: bool,
    answer: Result<Option<T>, ProviderError<Seq<char>>>,
) -> Result<Option<T>, ProviderError<Seq<char>>> {
    if put {
        answer
    } else {
        Ok(None)
    }
}

// ---------------------------------------------------------------------------
// Jobs
// ---------------------------------------------------------------------------

/// The kind of catalog entity that a job is about.
#[derive(Debug, Clone, Copy, PartialEq, Eq, Structural)]
pub enum EntityKind {
    Artist,
    Album,
    Track,
}

/// The kind that a text names.
pub open spec fn entity_kind(entity_type: Seq<char>) -> Option<EntityKind> {
    if entity_type == "artist"@ {
        Some(EntityKind::Artist)
    } else if entity_type == "album"@ {
        Some(EntityKind::Album)
    } else if entity_type == "track"@ {
        Some(EntityKind::Track)
    } else {
        None
    }
}

/// The kind that a text names.
pub fn parse_entity_kind(entity_type: &str) -> (res: Option<EntityKind>)
    ensures
        res == entity_kind(entity_type@),
{
    if entity_type.eq("artist") {
        Some(EntityKind::Artist)
    } else if entity_type.eq("album") {
        Some(EntityKind::Album)
    } else if entity_type.eq("track") {
        Some(EntityKind::Track)
    } else {
        None
    }
}

/// What becomes of a job after it ran.
#[derive(Debug, PartialEq, Eq)]
pub enum JobEnd<S = String> {
    /// The entity is stamped as enriched, the job is completed, and now-playing
    /// is published again to whoever listens to the entity.
    Enriched,
    /// The job is completed: its entity is gone.
    Gone,
    /// The job is put back, to run again after the backoff. `publish` says that
    /// it has stored an image all the same, so that now-playing is published
    /// again.
    Retry { error: S, attempt: i32, base_delay_secs: u64, publish: bool },
    /// The job has failed for good; `publish` as for a retry.
    Failed { error: S, publish: bool },
}

impl DeepView for JobEnd {
    type V = JobEnd<Seq<char>>;

    open spec fn deep_view(&self) -> JobEnd<Seq<char>> {
        match *self {
            JobEnd::Enriched => JobEnd::Enriched,
            JobEnd::Gone => JobEnd::Gone,
            JobEnd::Retry { error, attempt, base_delay_secs, publish } => JobEnd::Retry {
                error: error@,
                attempt,
                base_delay_secs,
                publish,
            },
            JobEnd::Failed { error, publish } => JobEnd::Failed { error: error@, publish },
        }
    }
}

/// Longest delay before a retry (s).
pub const MAX_BACKOFF_SECS: u64 = 86_400;

/// The delay before retry number `attempt`, without jitter: a minute, five
/// times as long after each attempt, a day at most.
pub open spec fn backoff_base(attempt: int) -> int {
    let delay = 60 * pow(5, (attempt - 1) as nat);
    if delay < MAX_BACKOFF_SECS {
        delay
    } else {
        MAX_BACKOFF_SECS as int
    }
}

/// The delay before retry number `attempt`, without jitter: 1 min, 5 min,
/// 25 min, about 2 h, then on up to 24 h.
pub fn backoff_base_secs(attempt: i32) -> (res: u64)
    requires
        attempt >= 1,
    ensures
        res == backoff_base(attempt as int),
{
    proof {
        reveal(pow);
        reveal_with_fuel(pow, 6);
        assert(pow(5, 0) == 1);
        assert(pow(5, 1) == 5);
        assert(pow(5, 2) == 25);
        assert(pow(5, 3) == 125);
        assert(pow(5, 4) == 625);
        assert(pow(5, 5) == 3125);
        if attempt >= 6 {
            lemma_pow_increases(5, 5, (attempt - 1) as nat);
        }
    }
    if attempt == 1 {
        60
    } else if attempt == 2 {
        300
    } else if attempt == 3 {
        1_500
    } else if attempt == 4 {
        7_500
    } else if attempt == 5 {
        37_500
    } else {
        MAX_BACKOFF_SECS
    }
}

/// The texts in a row, with `separator` between them.
pub open spec fn joined(parts: Seq<Seq<char>>, separator: Seq<char>) -> Seq<char>
    decreases parts.len(),
{
    if parts.len() == 0 {
        Seq::empty()
    } else if parts.len() == 1 {
        parts[0]
    } else {
        joined(parts.drop_last(), separator) + separator + parts.last()
    }
}

fn join_texts(parts: &Vec<String>, separator: &str) -> (res: String)
    ensures
        res@ == joined(parts.deep_view(), separator@),
{
    let ghost all = parts.deep_view();
    let mut out = String::new();
    let mut i: usize = 0;
    while i < parts.len()
        invariant
            i <= parts@.len(),
            all == parts.deep_view(),
            out@ == joined(all.take(i as int), separator@),
        decreases parts@.len() - i,
    {
        proof {
            assert(all.take(i as int + 1).drop_last() =~= all.take(i as int));
            assert(all.take(i as int + 1).last() == parts@[i as int]@);
            assert(all.take(i as int + 1)[0] == all[0]);
        }
        if i > 0 {
            out = out.concat(separator).concat(parts[i].as_str());
        } else {
            out = parts[i].clone();
        }
        i = i + 1;
    }
    proof {
        assert(all.take(i as int) =~= all);
    }
    out
}

/// A job whose attempt failed runs again, unless it has used up its attempts.
/// `publish` says whether it has stored an image all the same.
pub open spec fn retry_end(job: Job<Seq<char>>, error: Seq<char>, publish: bool) -> JobEnd<
    Seq<char>,
> {
    let attempt = job.attempts + 1;
    if attempt >= MAX_ATTEMPTS {
        JobEnd::Failed { error, publish }
    } else {
        JobEnd::Retry {
            error,
            attempt: attempt as i32,
            base_delay_secs: backoff_base(attempt) as u64,
            publish,
        }
    }
}

/// What becomes of a job: it is done only when no transient error was met; a
/// database failure is retried like one.
pub open spec fn job_end(
    job: Job<Seq<char>>,
    result: Result<Processed<Seq<Seq<char>>>, Seq<char>>,
) -> JobEnd<Seq<char>> {
    match result {
        Ok(Processed::Done { transient, image }) => if transient.len() == 0 {
            JobEnd::Enriched
        } else {
            retry_end(job, joined(transient, "; "@), image)
        },
        Ok(Processed::EntityGone) => JobEnd::Gone,
        Err(error) => retry_end(job, "db error: "@ + error, false),
    }
}

/// Decides whether a job whose attempt failed runs again.
pub fn retry_or_fail(job: &Job, error: String, publish: bool) -> (res: JobEnd)
    requires
        job.attempts >= 0,
    ensures
        res.deep_view() == retry_end(job.deep_view(), error@, publish),
{
    if job.attempts >= MAX_ATTEMPTS - 1 {
        JobEnd::Failed { error, publish }
    } else {
        let attempt: i32 = job.attempts + 1;
        JobEnd::Retry { error, attempt, base_delay_secs: backoff_base_secs(attempt), publish }
    }
}

/// Decides what becomes of a job of a known kind, given how it ended.
pub fn settle(job: &Job, result: Result<Processed, String>) -> (res: JobEnd)
    requires
        job.attempts >= 0,
    ensures
        res.deep_view() == job_end(job.deep_view(), text::result_view(result)),
{
    match result {
        Ok(Processed::Done { transient, image }) => if transient.len() == 0 {
            JobEnd::Enriched
        } else {
            let error = join_texts(&transient, "; ");
            retry_or_fail(job, error, image)
        },
        Ok(Processed::EntityGone) => JobEnd::Gone,
        Err(error) => retry_or_fail(job, text::join2("db error: ", error.as_str()), false),
    }
}

/// Begins to process a job: its kind says which procedure it takes. A job of
/// an unknown kind has failed.
pub fn process(job: &Job) -> (res: Result<EntityKind, JobEnd>)
    ensures
        match entity_kind(job.entity_type@) {
            Some(kind) => res == Ok::<EntityKind, JobEnd>(kind),
            None => res matches Err(e) && e.deep_view() == (JobEnd::<Seq<char>>::Failed {
                error: "unknown entity type"@,
                publish: false,
            }),
        },
{
    match parse_entity_kind(job.entity_type.as_str()) {
        Some(kind) => Ok(kind),
        None => Err(JobEnd::Failed { error: "unknown entity type".to_owned(), publish: false }),
    }
}

/// Whether now-playing is published again to whoever listens to the entity
/// after a job: after one that is done or has stored an image, of an entity
/// with artwork, which tracks do not have.
pub open spec fn publishes(kind: EntityKind, end: JobEnd<Seq<char>>) -> bool {
    &&& kind == EntityKind::Artist || kind == EntityKind::Album
    &&& match end {
        JobEnd::Enriched => true,
        JobEnd::Gone => false,
        JobEnd::Retry { publish, .. } => publish,
        JobEnd::Failed { publish, .. } => publish,
    }
}

/// Whether now-playing is published again to whoever listens to the entity.
pub fn republishes(kind: EntityKind, end: &JobEnd) -> (res: bool)
    ensures
        res == publishes(kind, end.deep_view()),
{
    let has_artwork: bool = match kind {
        EntityKind::Artist | EntityKind::Album => true,
        EntityKind::Track => false,
    };
    has_artwork && match end {
        JobEnd::Enriched => true,
        JobEnd::Gone => false,
        JobEnd::Retry { publish, .. } => *publish,
        JobEnd::Failed { publish, .. } => *publish,
    }
}

/// Whether the backfill and re-sweep are due at this tick of the half-hourly
/// maintenance: at startup and every six hours from then on.
pub fn sweep_due(tick: u64) -> (res: bool)
    ensures
        res == (tick % 12 == 0),
{
    tick % 12 == 0
}

/// A failing job runs again with the next attempt number until its attempts
/// are used up; its fifth failure is final.
pub proof fn law_attempts_are_bounded(job: Job<Seq<char>>, error: Seq<char>, publish: bool)
    requires
        0 <= job.attempts < i32::MAX,
    ensures
        retry_end(job, error, publish) is Failed <==> job.attempts >= MAX_ATTEMPTS - 1,
        retry_end(job, error, publish) matches JobEnd::Retry { attempt, .. } ==> attempt
            == job.attempts + 1 && attempt < MAX_ATTEMPTS,
{
}

/// Delays never shrink from one attempt to the next and never exceed a day.
pub proof fn law_backoff_grows(attempt: int)
    requires
        attempt >= 1,
    ensures
        backoff_base(attempt) <= backoff_base(attempt + 1),
        60 <= backoff_base(attempt) <= MAX_BACKOFF_SECS,
{
    lemma_pow_increases(5, (attempt - 1) as nat, attempt as nat);
    lemma_pow_increases(5, 0, (attempt - 1) as nat);
    lemma_pow0(5);
}

/// An entity is stamped as enriched only when every provider gave its final
/// answer: a job with a transient error is retried, a fatal one does not hold
/// it up.
pub proof fn law_enriched_means_no_transient_error(
    job: Job<Seq<char>>,
    result: Result<Processed<Seq<Seq<char>>>, Seq<char>>,
)
    ensures
        job_end(job, result) is Enriched <==> (result matches Ok(Processed::Done { transient, .. })
            && transient.len() == 0),
{
}

/// Once an image of an artist or album is stored, now-playing is published
/// again, whatever else became of the job; a job with a transient error is not
/// done on that account.
pub proof fn law_a_stored_image_is_published(
    job: Job<Seq<char>>,
    kind: EntityKind,
    transient: Seq<Seq<char>>,
)
    requires
        kind == EntityKind::Artist || kind == EntityKind::Album,
    ensures
        ({
            let end = job_end(job, Ok(Processed::Done { transient, image: true }));
            &&& publishes(kind, end)
            &&& transient.len() > 0 ==> end is Retry || end is Failed
        }),
{
}

/// A provider that gave an answer contributes what it answered, and nothing is
/// noted; one that failed contributes nothing, and its failure is noted, after
/// those before it, exactly when it is worth another attempt.
pub proof fn law_what_answers_contribute<T>(
    transient: Seq<Seq<char>>,
    found: Option<T>,
    message: Seq<char>,
)
    ensures
        ({
            let ok = Ok::<Option<T>, ProviderError<Seq<char>>>(found);
            let again = Err::<Option<T>, ProviderError<Seq<char>>>(
                ProviderError::Transient(message),
            );
            let fatal = Err::<Option<T>, ProviderError<Seq<char>>>(ProviderError::Fatal(message));
            &&& contribution(ok) == found
            &&& contribution(again) is None
            &&& contribution(fatal) is None
            &&& noted_answer(transient, ok) == transient
            &&& noted_answer(transient, again) == transient.push(message)
            &&& noted_answer(transient, fatal) == transient
            &&& noted(transient, ProviderError::Transient(message)) == transient.push(message)
            &&& noted(transient, ProviderError::Fatal(message)) == transient
            &&& asked(true, ok) == ok
            &&& asked(false, again) == Ok::<Option<T>, ProviderError<Seq<char>>>(None)
        }),
{
}

/// A job goes on as long as there are writes to be made. It is done, with the
/// errors that were noted, once they are all made, and fails with the first that
/// does.
pub proof fn law_jobs_end_with_their_writes(
    batch: WriteBatch<Seq<CatalogWrite<Seq<char>>>>,
    transient: Seq<Seq<char>>,
    image: bool,
    error: Seq<char>,
)
    ensures
        applied(BatchStep::Write { batch }, transient, image) == Ok::<
            WriteBatch<Seq<CatalogWrite<Seq<char>>>>,
            Result<Processed<Seq<Seq<char>>>, Seq<char>>,
        >(batch),
        applied(BatchStep::Done { result: Ok(()) }, transient, image) == Err::<
            WriteBatch<Seq<CatalogWrite<Seq<char>>>>,
            Result<Processed<Seq<Seq<char>>>, Seq<char>>,
        >(Ok(Processed::Done { transient, image })),
        applied(BatchStep::Done { result: Err(error) }, transient, image) == Err::<
            WriteBatch<Seq<CatalogWrite<Seq<char>>>>,
            Result<Processed<Seq<Seq<char>>>, Seq<char>>,
        >(Err(error)),
{
}

/// A job is about an artist, an album or a track exactly when it says so.
pub proof fn law_entity_kinds(entity_type: Seq<char>)
    ensures
        entity_kind(entity_type) == Some(EntityKind::Artist) <==> entity_type == "artist"@,
        entity_kind(entity_type) == Some(EntityKind::Album) <==> entity_type == "album"@,
        entity_kind(entity_type) == Some(EntityKind::Track) <==> entity_type == "track"@,
{
    reveal_strlit("artist");
    reveal_strlit("album");
    reveal_strlit("track");
    assert("artist"@.len() == 6);
    assert("album"@.len() == 5 && "album"@[0] == 'a');
    assert("track"@.len() == 5 && "track"@[0] == 't');
}

/// The delays: a minute, then five times as long each time, and a day at most.
pub proof fn law_backoff_delays(attempt: int)
    requires
        attempt >= 1,
    ensures
        backoff_base(1) == 60,
        backoff_base(attempt + 1) == if 5 * backoff_base(attempt) < 86_400 {
            5 * backoff_base(attempt)
        } else {
            86_400
        },
{
    lemma_pow0(5);
    reveal(pow);
    assert(pow(5, attempt as nat) == 5 * pow(5, (attempt - 1) as nat));
}

/// Texts are joined in order, with the separator between each two of them.
pub proof fn law_joined_texts(parts: Seq<Seq<char>>, next: Seq<char>, separator: Seq<char>)
    ensures
        joined(Seq::empty(), separator) == Seq::<char>::empty(),
        parts.len() == 0 ==> joined(parts.push(next), separator) == next,
        parts.len() > 0 ==> joined(parts.push(next), separator) == joined(parts, separator)
            + separator + next,
{
    assert(parts.push(next).drop_last() =~= parts);
}

/// A failed attempt is followed by another, with the next number and the delay
/// that goes with it, up to the fifth, which is the last. Why it failed, and
/// whether an image was stored, goes with it.
pub proof fn law_failed_attempts(job: Job<Seq<char>>, error: Seq<char>, publish: bool)
    requires
        job.attempts >= 0,
    ensures
        job.attempts < 4 ==> retry_end(job, error, publish) == (JobEnd::<Seq<char>>::Retry {
            error,
            attempt: (job.attempts + 1) as i32,
            base_delay_secs: backoff_base(job.attempts + 1) as u64,
            publish,
        }),
        job.attempts >= 4 ==> retry_end(job, error, publish) == (JobEnd::<Seq<char>>::Failed {
            error,
            publish,
        }),
{
}

/// What becomes of a job: it is done when no error was noted, and when its entity
/// is gone; else the attempt has failed, with all that was noted or with what the
/// database said.
pub proof fn law_job_ends(
    job: Job<Seq<char>>,
    transient: Seq<Seq<char>>,
    image: bool,
    error: Seq<char>,
)
    ensures
        transient.len() == 0 ==> job_end(job, Ok(Processed::Done { transient, image })) is Enriched,
        transient.len() > 0 ==> job_end(job, Ok(Processed::Done { transient, image }))
            == retry_end(job, joined(transient, "; "@), image),
        job_end(job, Ok(Processed::EntityGone)) is Gone,
        job_end(job, Err(error)) == retry_end(job, "db error: "@ + error, false),
{
}

/// Now-playing is published again after a job of an artist or an album that is
/// done or has stored an image, and after no other.
pub proof fn law_what_is_published_again(
    error: Seq<char>,
    attempt: i32,
    base_delay_secs: u64,
    publish: bool,
    end: JobEnd<Seq<char>>,
)
    ensures
        !publishes(EntityKind::Track, end),
        publishes(EntityKind::Artist, end) == publishes(EntityKind::Album, end),
        publishes(EntityKind::Album, JobEnd::Enriched),
        !publishes(EntityKind::Album, JobEnd::Gone),
        publishes(
            EntityKind::Album,
            JobEnd::Retry { error, attempt, base_delay_secs, publish },
        ) == publish,
        publishes(EntityKind::Album, JobEnd::Failed { error, publish }) == publish,
{
}

/// A job takes the procedure of its kind, and one of an unknown kind fails; sweeps
/// are due at every twelfth tick.
pub proof fn law_processing(job: &Job, res: Result<EntityKind, JobEnd>, tick: u64, due: bool)
    requires
        call_ensures(process, (job,), res),
        call_ensures(sweep_due, (tick,), due),
    ensures
        job.entity_type@ == "artist"@ ==> res == Ok::<EntityKind, JobEnd>(EntityKind::Artist),
        job.entity_type@ == "album"@ ==> res == Ok::<EntityKind, JobEnd>(EntityKind::Album),
        job.entity_type@ == "track"@ ==> res == Ok::<EntityKind, JobEnd>(EntityKind::Track),
        res is Ok ==> job.entity_type@ == "artist"@ || job.entity_type@ == "album"@
            || job.entity_type@ == "track"@,
        res matches Err(end) ==> end.deep_view() == (JobEnd::<Seq<char>>::Failed {
            error: "unknown entity type"@,
            publish: false,
        }),
        due <==> tick % 12 == 0,
{
    law_entity_kinds(job.entity_type@);
}

/// A job that met no transient error is done; one that did is tried again, after
/// the delay of its attempt, until its fifth attempt has failed.
pub proof fn law_settling(job: &Job, transient: Vec<String>, image: bool, res: JobEnd)
    requires
        call_ensures(
            settle,
            (job, Ok::<Processed, String>(Processed::Done { transient, image })),
            res,
        ),
        job.attempts >= 0,
    ensures
        transient@.len() == 0 <==> res is Enriched,
        transient@.len() > 0 && job.attempts >= 4 ==> (res matches JobEnd::Failed {
            error,
            publish,
        } && publish == image && error@ == joined(transient.deep_view(), "; "@)),
        transient@.len() > 0 && job.attempts < 4 ==> (res matches JobEnd::Retry {
            error,
            attempt,
            base_delay_secs,
            publish,
        } && {
            &&& error@ == joined(transient.deep_view(), "; "@)
            &&& attempt == job.attempts + 1
            &&& base_delay_secs == backoff_base(job.attempts + 1)
            &&& publish == image
        }),
{
    assert(transient.deep_view().len() == transient@.len());
    law_failed_attempts(job.deep_view(), joined(transient.deep_view(), "; "@), image);
    law_job_ends(job.deep_view(), transient.deep_view(), image, Seq::empty());
    law_backoff_grows(job.attempts + 1);
}

/// Now-playing is published again after a job of an artist or an album exactly when
/// it is done or has stored an image.
pub proof fn law_republishing(kind: EntityKind, end: &JobEnd, res: bool)
    requires
        call_ensures(republishes, (kind, end), res),
    ensures
        kind == EntityKind::Track ==> !res,
        kind != EntityKind::Track ==> res == match *end {
            JobEnd::Enriched => true,
            JobEnd::Gone => false,
            JobEnd::Retry { publish, .. } => publish,
            JobEnd::Failed { publish, .. } => publish,
        },
{
}

} // verus!
