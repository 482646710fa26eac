//! The job registry: identifiers, status lifecycle and the store that owns
//! every job record.
//!
//! A job's lifecycle runs forward along
//! `Queued -> Running -> {Completed | Failed}`. The relation [`advances`]
//! states exactly which single transitions the dispatcher ever performs, and
//! the lemmas below show that it is monotone and that terminal statuses are
//! stable. The store itself records whatever transition it is handed; the
//! dispatcher's contracts guarantee that every transition it commits is an
//! allowed one.

use vstd::prelude::*;

verus! {

/// Lifecycle status of one job.
#[derive(Clone, Copy, PartialEq, Eq, Structural, Debug)]
pub enum JobStatus {
    Queued,
    Running,
    Completed,
    Failed,
}

impl JobStatus {
    /// Position of the status along the forward-only lifecycle.
    pub open spec fn rank(self) -> int {
        match self {
            JobStatus::Queued => 0,
            JobStatus::Running => 1,
            JobStatus::Completed => 2,
            JobStatus::Failed => 2,
        }
    }

    /// A terminal status is never left again.
    pub open spec fn is_terminal(self) -> bool {
        self == JobStatus::Completed || self == JobStatus::Failed
    }

    /// Human-readable form of the status, for reporting layers.
    pub fn as_text(&self) -> (r: &'static str)
        ensures
            r@ == self.text_view(),
    {
        match self {
            JobStatus::Queued => "Queued",
            JobStatus::Running => "Running",
            JobStatus::Completed => "Completed",
            JobStatus::Failed => "Failed",
        }
    }

    /// What [`JobStatus::as_text`] returns.
    pub open spec fn text_view(self) -> Seq<char> {
        match self {
            JobStatus::Queued => "Queued"@,
            JobStatus::Running => "Running"@,
            JobStatus::Completed => "Completed"@,
            JobStatus::Failed => "Failed"@,
        }
    }
}

/// The single transitions a job may take: staying put, being dispatched, or
/// finishing either way. Nothing ever moves backward or leaves a terminal
/// status.
pub open spec fn advances(a: JobStatus, b: JobStatus) -> bool {
    ||| a == b
    ||| (a == JobStatus::Queued && b == JobStatus::Running)
    ||| (a == JobStatus::Running && b == JobStatus::Completed)
    ||| (a == JobStatus::Running && b == JobStatus::Failed)
}

/// An allowed transition never lowers the rank: the lifecycle is forward-only.
pub proof fn lemma_advances_monotone(a: JobStatus, b: JobStatus)
    requires
        advances(a, b),
    ensures
        a.rank() <= b.rank(),
{
}

/// No allowed transition leaves a terminal status: once a reader has seen
/// `Completed` or `Failed`, every later read sees the same status.
pub proof fn lemma_terminal_is_stable(a: JobStatus, b: JobStatus)
    requires
        advances(a, b),
        a.is_terminal(),
    ensures
        b == a,
{
}

/// What a poller can observe of one job: along any sequence of statuses
/// whose consecutive members are allowed transitions, the rank never drops -
/// `Queued` is seen before `Running`, `Running` before a terminal status -
/// and from the first terminal observation on, every observation is the
/// same.
pub proof fn lemma_observation_order(tr: Seq<JobStatus>, i: int, j: int)
    requires
        0 <= i <= j < tr.len(),
        forall|k: int| 0 <= k < tr.len() - 1 ==> #[trigger] advances(tr[k], tr[k + 1]),
    ensures
        tr[i].rank() <= tr[j].rank(),
        tr[i].is_terminal() ==> tr[j] == tr[i],
    decreases j - i,
{
    if i < j {
        lemma_observation_order(tr, i, j - 1);
        let k = j - 1;
        assert(advances(tr[k], tr[k + 1]));
    }
}

/// Snapshot of one job: its status and the message written by the most
/// recent transition.
pub struct JobRecord {
    pub status: JobStatus,
    pub message: Option<String>,
}

impl JobRecord {
    /// The record every job starts from.
    pub open spec fn queued() -> JobRecord {
        JobRecord { status: JobStatus::Queued, message: None }
    }
}

/// The registry mapping job identifiers to job records; the source of truth
/// for status. Identifiers start at 1 and are handed out in submission
/// order; records are never deleted.
///
/// The store itself is a plain sequential structure: the surrounding service
/// makes its three operations linearizable by guarding each whole call with
/// one lock.
pub struct JobStore {
    jobs: Vec<JobRecord>,
}

impl View for JobStore {
    type V = Seq<JobRecord>;

    closed spec fn view(&self) -> Seq<JobRecord> {
        self.jobs@
    }
}

impl JobStore {
    /// Whether `id` was ever returned by [`JobStore::create`] on this store.
    pub open spec fn has_job(self, id: u64) -> bool {
        1 <= id && id <= self@.len()
    }

    /// The record currently held for job `id`.
    pub open spec fn job(self, id: u64) -> JobRecord
        recommends
            self.has_job(id),
    {
        self@[id - 1]
    }

    /// An empty registry.
    pub fn new() -> (s: JobStore)
        ensures
            s@ =~= Seq::<JobRecord>::empty(),
    {
        JobStore { jobs: Vec::new() }
    }

    /// How many jobs have been created so far.
    pub fn len(&self) -> (n: usize)
        ensures
            n == self@.len(),
    {
        self.jobs.len()
    }

    /// Allocates the next identifier and inserts a `Queued` record for it.
    /// Identifiers are consecutive from 1, so two calls never return the
    /// same identifier, and the record is in the store when the call
    /// returns.
    pub fn create(&mut self) -> (id: u64)
        requires
            old(self)@.len() < u64::MAX,
        ensures
            id == old(self)@.len() + 1,
            final(self)@ =~= old(self)@.push(JobRecord::queued()),
            final(self).has_job(id),
            final(self).job(id) == JobRecord::queued(),
    {
        self.jobs.push(JobRecord { status: JobStatus::Queued, message: None });
        self.jobs.len() as u64
    }

    /// Records a transition for job `id`. An identifier never returned by
    /// [`JobStore::create`] is a recoverable anomaly, not a crash: the call
    /// is then a no-op and no existing record changes.
    pub fn update(&mut self, id: u64, status: JobStatus, message: Option<String>)
        ensures
            old(self).has_job(id) ==> final(self)@ =~= old(self)@.update(
                id - 1,
                JobRecord { status, message },
            ),
            !old(self).has_job(id) ==> final(self)@ =~= old(self)@,
    {
        if 1 <= id && id <= self.jobs.len() as u64 {
            let i: usize = (id - 1) as usize;
            self.jobs[i] = JobRecord { status, message };
        }
    }

    /// Returns a snapshot of job `id`, or `None` exactly when the identifier
    /// was never handed out.
    pub fn get(&self, id: u64) -> (r: Option<JobRecord>)
        ensures
            self.has_job(id) ==> r == Some(self.job(id)),
            !self.has_job(id) ==> r is None,
    {
        if 1 <= id && id <= self.jobs.len() as u64 {
            let i: usize = (id - 1) as usize;
            let status = self.jobs[i].status;
            let message = match &self.jobs[i].message {
                Some(m) => Some(m.clone()),
                None => None,
            };
            Some(JobRecord { status, message })
        } else {
            None
        }
    }
}

/// Identifiers are strictly increasing in call order: a `create` on a store
/// of `n0` jobs returns `n0 + 1`, and any later `create` happens on a store
/// that has only grown, so it returns a strictly larger - in particular
/// distinct - identifier.
pub proof fn lemma_create_ids_strictly_increase(n0: int, n1: int, id1: int, id2: int)
    requires
        id1 == n0 + 1,
        id2 == n1 + 1,
        n0 < n1,
    ensures
        id1 < id2,
        id1 != id2,
{
}

} // verus!
