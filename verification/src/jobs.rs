//! The rows of the enrichment queue and how they change.
//!
//! Worker status writes (complete, reschedule, fail) only apply while the job
//! is still running: if a manual refresh or the stuck-job sweep reset it to
//! pending meanwhile, that reset wins and the job runs again.

use crate::enrichment::EntityKind;
use crate::time::Timestamp;
use vstd::prelude::*;
use vstd::string::*;

verus! {

/// Job priorities; higher runs first.
pub const PRIORITY_BACKFILL: i32 = 10;

pub const PRIORITY_INGEST: i32 = 50;

pub const PRIORITY_REFRESH: i32 = 100;

#[derive(Debug, Clone, Copy, PartialEq, Eq, Structural)]
pub enum JobStatus {
    Pending,
    Running,
    Done,
    Failed,
}

/// The state of a job in the queue.
#[derive(Debug, PartialEq, Eq)]
pub struct JobRow<S = String> {
    pub status: JobStatus,
    pub attempts: i32,
    pub force: bool,
    pub priority: i32,
    pub next_attempt_at: Timestamp,
    pub started_at: Option<Timestamp>,
    pub finished_at: Option<Timestamp>,
    pub last_error: Option<S>,
}

impl DeepView for JobRow {
    type V = JobRow<Seq<char>>;

    open spec fn deep_view(&self) -> JobRow<Seq<char>> {
        JobRow {
            status: self.status,
            attempts: self.attempts,
            force: self.force,
            priority: self.priority,
            next_attempt_at: self.next_attempt_at,
            started_at: self.started_at,
            finished_at: self.finished_at,
            last_error: self.last_error.deep_view(),
        }
    }
}

/// A job that was just put in the queue.
pub open spec fn new_row(priority: i32, force: bool, now: Timestamp) -> JobRow<Seq<char>> {
    JobRow {
        status: JobStatus::Pending,
        attempts: 0,
        force,
        priority,
        next_attempt_at: now,
        started_at: None,
        finished_at: None,
        last_error: None,
    }
}

/// Putting an entity in the queue does nothing when a job for it exists.
pub open spec fn enqueued(
    existing: Option<JobRow<Seq<char>>>,
    priority: i32,
    now: Timestamp,
) -> JobRow<Seq<char>> {
    match existing {
        Some(row) => row,
        None => new_row(priority, false, now),
    }
}

/// A manual refresh resets whatever job exists, even a running one.
pub open spec fn refreshed(existing: Option<JobRow<Seq<char>>>, now: Timestamp) -> JobRow<
    Seq<char>,
> {
    match existing {
        Some(row) => JobRow {
            status: JobStatus::Pending,
            attempts: 0,
            force: true,
            priority: PRIORITY_REFRESH,
            next_attempt_at: now,
            last_error: None,
            finished_at: None,
            ..row
        },
        None => new_row(PRIORITY_REFRESH, true, now),
    }
}

/// The re-sweep puts a finished job back and leaves any other alone.
pub open spec fn reswept(existing: Option<JobRow<Seq<char>>>, now: Timestamp) -> JobRow<Seq<char>> {
    match existing {
        Some(row) => if row.status == JobStatus::Done || row.status == JobStatus::Failed {
            JobRow {
                status: JobStatus::Pending,
                attempts: 0,
                next_attempt_at: now,
                priority: PRIORITY_BACKFILL,
                force: false,
                last_error: None,
                ..row
            }
        } else {
            row
        },
        None => new_row(PRIORITY_BACKFILL, false, now),
    }
}

/// A job is due when it is pending and its time has come.
pub open spec fn due(row: JobRow<Seq<char>>, now: Timestamp) -> bool {
    row.status == JobStatus::Pending && !row.next_attempt_at.later_than(now)
}

/// Claiming a due job marks it running.
pub open spec fn claimed(row: JobRow<Seq<char>>, now: Timestamp) -> JobRow<Seq<char>> {
    if due(row, now) {
        JobRow { status: JobStatus::Running, started_at: Some(now), ..row }
    } else {
        row
    }
}

/// A job that ran to its end.
pub open spec fn completed(row: JobRow<Seq<char>>, now: Timestamp) -> JobRow<Seq<char>> {
    if row.status == JobStatus::Running {
        JobRow {
            status: JobStatus::Done,
            finished_at: Some(now),
            last_error: None,
            ..row
        }
    } else {
        row
    }
}

/// A job that is to run again at `at`.
pub open spec fn rescheduled(row: JobRow<Seq<char>>, error: Seq<char>, at: Timestamp) -> JobRow<
    Seq<char>,
> {
    if row.status == JobStatus::Running {
        JobRow {
            status: JobStatus::Pending,
            attempts: (row.attempts + 1) as i32,
            next_attempt_at: at,
            last_error: Some(error),
            ..row
        }
    } else {
        row
    }
}

/// A job whose retries are exhausted.
pub open spec fn failed(row: JobRow<Seq<char>>, error: Seq<char>, now: Timestamp) -> JobRow<
    Seq<char>,
> {
    if row.status == JobStatus::Running {
        JobRow {
            status: JobStatus::Failed,
            attempts: (row.attempts + 1) as i32,
            finished_at: Some(now),
            last_error: Some(error),
            ..row
        }
    } else {
        row
    }
}

/// A running job that started before `cutoff` was left behind by its worker.
pub open spec fn unstuck(row: JobRow<Seq<char>>, cutoff: Timestamp, now: Timestamp) -> JobRow<
    Seq<char>,
> {
    if row.status == JobStatus::Running && (row.started_at matches Some(started)
        && cutoff.later_than(started)) {
        JobRow { status: JobStatus::Pending, next_attempt_at: now, ..row }
    } else {
        row
    }
}

fn fresh(priority: i32, force: bool, now: Timestamp) -> (res: JobRow)
    ensures
        res.deep_view() == new_row(priority, force, now),
{
    JobRow {
        status: JobStatus::Pending,
        attempts: 0,
        force,
        priority,
        next_attempt_at: now,
        started_at: None,
        finished_at: None,
        last_error: None,
    }
}

/// Enqueues an entity that a scrobble, a now-playing update or the backfill
/// sweep came upon. Does nothing when a job row already exists (pending, done
/// or failed): permanent failures are only retried via manual refresh or the
/// periodic re-sweep.
pub fn enqueue(existing: Option<JobRow>, priority: i32, now: Timestamp) -> (res: JobRow)
    ensures
        res.deep_view() == enqueued(existing.deep_view(), priority, now),
{
    match existing {
        Some(row) => row,
        None => fresh(priority, false, now),
    }
}

/// A catalog entry that a listen refers to, and whether it was enriched.
#[derive(Debug, Clone, Copy, PartialEq, Eq, Structural)]
pub struct CatalogEntry {
    pub id: i64,
    pub enriched: bool,
}

/// The job of an entry that is still to be enriched, if it is.
pub open spec fn due_job(kind: EntityKind, entry: Option<CatalogEntry>) -> Seq<(EntityKind, i64)> {
    match entry {
        Some(entry) => if entry.enriched {
            Seq::empty()
        } else {
            seq![(kind, entry.id)]
        },
        None => Seq::empty(),
    }
}

/// The jobs that a listen asks for: one for each catalog entry it refers to
/// that has not been enriched yet. [`enqueue`] then leaves out those that have a
/// job row already.
pub fn enqueue_for_ingest(
    artist: Option<CatalogEntry>,
    album: Option<CatalogEntry>,
    track: Option<CatalogEntry>,
) -> (res: Vec<(EntityKind, i64)>)
    ensures
        res@ == due_job(EntityKind::Artist, artist) + due_job(EntityKind::Album, album) + due_job(
            EntityKind::Track,
            track,
        ),
{
    let mut jobs: Vec<(EntityKind, i64)> = Vec::new();
    if let Some(entry) = artist {
        if !entry.enriched {
            jobs.push((EntityKind::Artist, entry.id));
        }
    }
    if let Some(entry) = album {
        if !entry.enriched {
            jobs.push((EntityKind::Album, entry.id));
        }
    }
    if let Some(entry) = track {
        if !entry.enriched {
            jobs.push((EntityKind::Track, entry.id));
        }
    }
    jobs
}

/// Requests a forced re-enrichment (manual refresh). Resets any existing job,
/// including one currently running: the in-flight pass was claimed without
/// `force`, so it must run again.
pub fn request_refresh(existing: Option<JobRow>, now: Timestamp) -> (res: JobRow)
    ensures
        res.deep_view() == refreshed(existing.deep_view(), now),
{
    match existing {
        Some(row) => JobRow {
            status: JobStatus::Pending,
            attempts: 0,
            force: true,
            priority: PRIORITY_REFRESH,
            next_attempt_at: now,
            started_at: row.started_at,
            finished_at: None,
            last_error: None,
        },
        None => fresh(PRIORITY_REFRESH, true, now),
    }
}

/// Re-sweep: an entity enriched long ago that is still missing key fields goes
/// back into the queue, unless its job is pending or running.
pub fn resweep(existing: Option<JobRow>, now: Timestamp) -> (res: JobRow)
    ensures
        res.deep_view() == reswept(existing.deep_view(), now),
{
    match existing {
        Some(row) => if row.status == JobStatus::Done || row.status == JobStatus::Failed {
            JobRow {
                status: JobStatus::Pending,
                attempts: 0,
                force: false,
                priority: PRIORITY_BACKFILL,
                next_attempt_at: now,
                started_at: row.started_at,
                finished_at: row.finished_at,
                last_error: None,
            }
        } else {
            row
        },
        None => fresh(PRIORITY_BACKFILL, false, now),
    }
}

/// Claims a due job.
pub fn claim(row: JobRow, now: Timestamp) -> (res: JobRow)
    ensures
        res.deep_view() == claimed(row.deep_view(), now),
{
    if row.status == JobStatus::Pending && !row.next_attempt_at.is_later_than(&now) {
        let mut row = row;
        row.status = JobStatus::Running;
        row.started_at = Some(now);
        row
    } else {
        row
    }
}

/// Marks a running job done.
pub fn complete_job(row: JobRow, now: Timestamp) -> (res: JobRow)
    ensures
        res.deep_view() == completed(row.deep_view(), now),
{
    if row.status == JobStatus::Running {
        let mut row = row;
        row.status = JobStatus::Done;
        row.finished_at = Some(now);
        row.last_error = None;
        row
    } else {
        row
    }
}

/// Reschedules a running job after a transient failure; the attempt counter
/// increments here. `at` comes from the backoff policy.
pub fn reschedule_job(row: JobRow, error: String, at: Timestamp) -> (res: JobRow)
    requires
        row.attempts < i32::MAX,
    ensures
        res.deep_view() == rescheduled(row.deep_view(), error@, at),
{
    if row.status == JobStatus::Running {
        let mut row = row;
        row.status = JobStatus::Pending;
        row.attempts = row.attempts + 1;
        row.next_attempt_at = at;
        row.last_error = Some(error);
        row
    } else {
        row
    }
}

/// Marks a running job permanently failed (retries exhausted). Only a manual
/// refresh or the re-sweep will pick the entity up again.
pub fn fail_job(row: JobRow, error: String, now: Timestamp) -> (res: JobRow)
    requires
        row.attempts < i32::MAX,
    ensures
        res.deep_view() == failed(row.deep_view(), error@, now),
{
    if row.status == JobStatus::Running {
        let mut row = row;
        row.status = JobStatus::Failed;
        row.attempts = row.attempts + 1;
        row.finished_at = Some(now);
        row.last_error = Some(error);
        row
    } else {
        row
    }
}

/// Returns a running job whose worker likely died to pending.
pub fn reset_stuck(row: JobRow, cutoff: Timestamp, now: Timestamp) -> (res: JobRow)
    ensures
        res.deep_view() == unstuck(row.deep_view(), cutoff, now),
{
    let stuck: bool = row.status == JobStatus::Running && match row.started_at {
        Some(started) => cutoff.is_later_than(&started),
        None => false,
    };
    if stuck {
        let mut row = row;
        row.status = JobStatus::Pending;
        row.next_attempt_at = now;
        row
    } else {
        row
    }
}

/// A manual refresh during a pass wins over whatever that pass reports
/// afterwards: the job stays pending and forced.
pub proof fn law_refresh_wins_over_the_running_pass(
    row: JobRow<Seq<char>>,
    now: Timestamp,
    later: Timestamp,
    error: Seq<char>,
)
    ensures
        ({
            let reset = refreshed(Some(row), now);
            &&& reset.status == JobStatus::Pending
            &&& reset.force
            &&& completed(reset, later) == reset
            &&& rescheduled(reset, error, later) == reset
            &&& failed(reset, error, later) == reset
        }),
{
}

/// Status writes of the worker change running jobs only.
pub proof fn law_status_writes_need_a_running_job(
    row: JobRow<Seq<char>>,
    error: Seq<char>,
    now: Timestamp,
)
    requires
        row.status != JobStatus::Running,
    ensures
        completed(row, now) == row,
        rescheduled(row, error, now) == row,
        failed(row, error, now) == row,
{
}

/// Ingesting an entity again never disturbs its job, nor does it revive a
/// failed one.
pub proof fn law_enqueue_is_idempotent(row: JobRow<Seq<char>>, priority: i32, now: Timestamp)
    ensures
        enqueued(Some(row), priority, now) == row,
{
}

/// A claimed job is not claimed again before it was reported on or reset.
pub proof fn law_claimed_once(row: JobRow<Seq<char>>, now: Timestamp, later: Timestamp)
    requires
        due(row, now),
    ensures
        claimed(row, now).status == JobStatus::Running,
        !due(claimed(row, now), later),
        claimed(claimed(row, now), later) == claimed(row, now),
{
}

/// The re-sweep brings a failed job back with a clean slate, and leaves a
/// pending or running one alone.
pub proof fn law_resweep_revives_finished_jobs(row: JobRow<Seq<char>>, now: Timestamp)
    ensures
        row.status == JobStatus::Failed || row.status == JobStatus::Done ==> due(
            reswept(Some(row), now),
            now,
        ) && reswept(Some(row), now).attempts == 0,
        row.status == JobStatus::Pending || row.status == JobStatus::Running ==> reswept(
            Some(row),
            now,
        ) == row,
{
}

/// A refresh that was asked for runs before what a listen brought in, and that
/// before the backfill.
pub proof fn law_priorities()
    ensures
        PRIORITY_REFRESH == 100,
        PRIORITY_INGEST == 50,
        PRIORITY_BACKFILL == 10,
{
}

/// A new job is due at once, untried and without an error; it is forced exactly
/// when it was refreshed into being.
pub proof fn law_new_jobs_are_due(priority: i32, now: Timestamp)
    ensures
        ({
            let row = enqueued(None, priority, now);
            &&& row.status == JobStatus::Pending
            &&& row.attempts == 0
            &&& row.priority == priority
            &&& !row.force
            &&& row.next_attempt_at == now
            &&& row.started_at is None
            &&& row.finished_at is None
            &&& row.last_error is None
            &&& reswept(None, now) == (JobRow { priority: 10, ..row })
            &&& refreshed(None, now) == (JobRow { priority: 100, force: true, ..row })
        }),
{
}

/// A refresh makes any job due at once, as if it had never been tried, before all
/// others and forced. Only when it last started stays on record.
pub proof fn law_refresh_starts_over(row: JobRow<Seq<char>>, now: Timestamp)
    ensures
        ({
            let reset = refreshed(Some(row), now);
            &&& due(reset, now)
            &&& reset.attempts == 0
            &&& reset.force
            &&& reset.priority == 100
            &&& reset.next_attempt_at == now
            &&& reset.last_error is None
            &&& reset.finished_at is None
            &&& reset.started_at == row.started_at
        }),
{
}

/// The re-sweep puts a finished job behind all others, not forced and without its
/// error. When it last started and ended stays on record.
pub proof fn law_resweep_is_a_backfill(row: JobRow<Seq<char>>, now: Timestamp)
    requires
        row.status == JobStatus::Done || row.status == JobStatus::Failed,
    ensures
        ({
            let back = reswept(Some(row), now);
            &&& back.status == JobStatus::Pending
            &&& back.attempts == 0
            &&& !back.force
            &&& back.priority == 10
            &&& back.next_attempt_at == now
            &&& back.last_error is None
            &&& back.started_at == row.started_at
            &&& back.finished_at == row.finished_at
        }),
{
}

/// A job is claimed exactly when it is pending and its time is not still to come;
/// claiming notes when, and changes nothing else.
pub proof fn law_claims(row: JobRow<Seq<char>>, now: Timestamp)
    ensures
        row.status == JobStatus::Pending && (row.next_attempt_at.secs < now.secs || (
        row.next_attempt_at.secs == now.secs && row.next_attempt_at.nanos <= now.nanos))
            ==> claimed(row, now) == (JobRow {
            status: JobStatus::Running,
            started_at: Some(now),
            ..row
        }),
        row.status != JobStatus::Pending || row.next_attempt_at.later_than(now) ==> claimed(
            row,
            now,
        ) == row,
{
}

/// What the worker reports of a running job is noted: that it is done, and when;
/// that it is to be tried again, when, and why; that it failed for good, when, and
/// why. An attempt that failed counts. Whose it is, how urgent and whether forced
/// does not change.
pub proof fn law_reports_are_noted(row: JobRow<Seq<char>>, error: Seq<char>, at: Timestamp)
    requires
        row.status == JobStatus::Running,
        row.attempts < i32::MAX,
    ensures
        completed(row, at) == (JobRow {
            status: JobStatus::Done,
            finished_at: Some(at),
            last_error: None,
            ..row
        }),
        ({
            let again = rescheduled(row, error, at);
            &&& again.status == JobStatus::Pending
            &&& again.attempts == row.attempts + 1
            &&& again.next_attempt_at == at
            &&& again.last_error == Some(error)
            &&& again.force == row.force
            &&& again.priority == row.priority
            &&& again.started_at == row.started_at
            &&& again.finished_at == row.finished_at
        }),
        ({
            let over = failed(row, error, at);
            &&& over.status == JobStatus::Failed
            &&& over.attempts == row.attempts + 1
            &&& over.finished_at == Some(at)
            &&& over.last_error == Some(error)
            &&& over.force == row.force
            &&& over.priority == row.priority
            &&& over.started_at == row.started_at
            &&& over.next_attempt_at == row.next_attempt_at
        }),
{
}

/// A running job that started before the cutoff is due again, with all that was
/// known of it; any other job stays as it is.
pub proof fn law_stuck_jobs_run_again(
    row: JobRow<Seq<char>>,
    started: Timestamp,
    cutoff: Timestamp,
    now: Timestamp,
)
    ensures
        row.status == JobStatus::Running && row.started_at == Some(started) && cutoff.later_than(
            started,
        ) ==> unstuck(row, cutoff, now) == (JobRow {
            status: JobStatus::Pending,
            next_attempt_at: now,
            ..row
        }),
        row.status != JobStatus::Running ==> unstuck(row, cutoff, now) == row,
        row.started_at is None ==> unstuck(row, cutoff, now) == row,
        row.started_at == Some(started) && !cutoff.later_than(started) ==> unstuck(
            row,
            cutoff,
            now,
        ) == row,
{
}

/// A listen asks for a job of an entry exactly when it refers to the entry and
/// the entry has not been enriched.
pub proof fn law_only_unenriched_entries_get_jobs(kind: EntityKind, entry: CatalogEntry)
    ensures
        due_job(kind, None) == Seq::<(EntityKind, i64)>::empty(),
        entry.enriched ==> due_job(kind, Some(entry)) == Seq::<(EntityKind, i64)>::empty(),
        !entry.enriched ==> due_job(kind, Some(entry)) == seq![(kind, entry.id)],
{
}

/// A listen asks for jobs of its artist, its album and its track, in that order,
/// of each that it refers to and that was not enriched.
pub proof fn law_jobs_of_a_listen(
    artist: Option<CatalogEntry>,
    album: Option<CatalogEntry>,
    track: Option<CatalogEntry>,
    res: Vec<(EntityKind, i64)>,
)
    requires
        call_ensures(enqueue_for_ingest, (artist, album, track), res),
    ensures
        ({
            let none = Seq::<(EntityKind, i64)>::empty();
            let of_artist = if artist matches Some(entry) && !entry.enriched {
                seq![(EntityKind::Artist, artist->0.id)]
            } else {
                none
            };
            let of_album = if album matches Some(entry) && !entry.enriched {
                seq![(EntityKind::Album, album->0.id)]
            } else {
                none
            };
            let of_track = if track matches Some(entry) && !entry.enriched {
                seq![(EntityKind::Track, track->0.id)]
            } else {
                none
            };
            res@ == of_artist + of_album + of_track
        }),
{
}

/// What becomes of a job row, in its own columns: a refresh and the re-sweep start
/// it over, a claim starts it, and the worker's report ends it or puts it back.
pub proof fn law_job_rows(
    row: JobRow,
    now: Timestamp,
    error: String,
    at: Timestamp,
    refreshed: JobRow,
    claimed: JobRow,
    completed: JobRow,
    rescheduled: JobRow,
    failed: JobRow,
)
    requires
        call_ensures(request_refresh, (Some(row), now), refreshed),
        call_ensures(claim, (row, now), claimed),
        call_ensures(complete_job, (row, now), completed),
        call_ensures(reschedule_job, (row, error, at), rescheduled),
        call_ensures(fail_job, (row, error, now), failed),
        row.attempts < i32::MAX,
    ensures
        refreshed.status == JobStatus::Pending && refreshed.force && refreshed.attempts == 0
            && refreshed.next_attempt_at == now && refreshed.last_error is None,
        row.status == JobStatus::Pending && !row.next_attempt_at.later_than(now) ==> claimed.status
            == JobStatus::Running && claimed.started_at == Some(now),
        row.status == JobStatus::Running ==> {
            &&& completed.status == JobStatus::Done
            &&& completed.finished_at == Some(now)
            &&& completed.last_error is None
            &&& rescheduled.status == JobStatus::Pending
            &&& rescheduled.attempts == row.attempts + 1
            &&& rescheduled.next_attempt_at == at
            &&& rescheduled.last_error matches Some(told) && told@ == error@
            &&& failed.status == JobStatus::Failed
            &&& failed.attempts == row.attempts + 1
            &&& failed.finished_at == Some(now)
            &&& failed.last_error matches Some(said) && said@ == error@
        },
{
    assert(refreshed.deep_view().last_error is None);
    assert(completed.deep_view() == crate::jobs::completed(row.deep_view(), now));
    assert(rescheduled.deep_view() == crate::jobs::rescheduled(row.deep_view(), error@, at));
    assert(failed.deep_view() == crate::jobs::failed(row.deep_view(), error@, now));
    assert(claimed.deep_view() == crate::jobs::claimed(row.deep_view(), now));
}

} // verus!
