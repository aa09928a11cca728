//! The jobs in memory, the order in which they were queued, and the locks under
//! which they run.

use std::collections::{HashMap, VecDeque};

use vstd::prelude::*;
use vstd::string::*;

use crate::config::{find_project, has_id, is_first_project, ProjectConfig};
use crate::job::{copy_log, log_view, Job, JobLogEntry, JobSummary, JobView, LogEntryView, SummaryView};
use crate::outside::{format_id, hyphenated};
use crate::status::JobStatus;
use crate::text::{join2, join3, opt_text};
use crate::time::Timestamp;

verus! {

broadcast use vstd::std_specs::hash::group_hash_axioms;

/// The jobs, by id; the ids in the order in which they were queued; and the
/// locks that are held.
pub struct StateStore {
    jobs: HashMap<u128, Job>,
    order: VecDeque<u128>,
    active_locks: Vec<String>,
}

/// What a store holds.
#[verifier::ext_equal]
pub struct StoreView {
    pub jobs: Map<u128, JobView>,
    pub order: Seq<u128>,
    pub locks: Set<Seq<char>>,
}

impl View for StateStore {
    type V = StoreView;

    closed spec fn view(&self) -> StoreView {
        StoreView {
            jobs: self.jobs@.map_values(|job: Job| job@),
            order: self.order@,
            locks: lock_texts(self.active_locks@).to_set(),
        }
    }
}

impl JobView {
    /// The job in another stage.
    pub open spec fn in_stage(self, stage: Seq<char>) -> JobView {
        JobView { current_stage: Some(stage), ..self }
    }

    /// The job with one more log line.
    pub open spec fn logged(self, entry: LogEntryView) -> JobView {
        JobView { logs: self.logs.push(entry), ..self }
    }

    /// The job once a worker has started it.
    pub open spec fn started(self, now: Timestamp) -> JobView {
        JobView {
            status: JobStatus::Running,
            started_at: Some(now),
            current_stage: Some("preparing"@),
            ..self
        }
    }

    /// The job once it has succeeded.
    pub open spec fn completed(self, now: Timestamp) -> JobView {
        JobView {
            status: JobStatus::Success,
            finished_at: Some(now),
            current_stage: Some("completed"@),
            ..self
        }
    }

    /// The job once it has ended with an error, in the stage where it stood.
    pub open spec fn ended(self, status: JobStatus, error: Seq<char>, now: Timestamp) -> JobView {
        JobView { status, finished_at: Some(now), error: Some(error), ..self }
    }

    /// The job once its cancellation is asked for: a job that still waits is
    /// cancelled at once, another is left as it is.
    pub open spec fn cancelled(self, now: Timestamp) -> JobView {
        if self.status == JobStatus::Queued {
            JobView {
                status: JobStatus::Cancelled,
                finished_at: Some(now),
                current_stage: Some("cancelled"@),
                ..self
            }
        } else {
            self
        }
    }

    /// The job with the digest of its image, where none was known.
    pub open spec fn with_digest(self, digest: Seq<char>) -> JobView {
        match self.image_digest {
            Some(_) => self,
            None => JobView { image_digest: Some(digest), ..self },
        }
    }
}

/// What became of a job that a worker picked.
#[derive(Debug)]
pub enum BeginOutcome {
    /// It had been cancelled, and is not run.
    AlreadyCancelled,
    /// Another job runs on its branch; it has to be tried again after this many
    /// seconds.
    WaitForLock { retry_secs: u64 },
    /// It runs, for the project at this position and under this lock.
    Started { project: usize, repo_lock: String },
}

/// Why a job could not be run.
#[derive(Debug)]
pub enum RunError {
    JobNotFound(u128),
    ProjectMissing(String),
    QueueClosed,
}

impl RunError {
    /// The message of the error.
    pub open spec fn message_text(self) -> Seq<char> {
        match self {
            RunError::JobNotFound(id) => "job not found: "@ + hyphenated(id),
            RunError::ProjectMissing(project) => "project config missing: "@ + project@,
            RunError::QueueClosed => "channel closed"@,
        }
    }

    /// Describes the error.
    pub fn message(&self) -> (message: String)
        ensures
            message@ == self.message_text(),
    {
        match self {
            RunError::JobNotFound(id) => join2("job not found: ", format_id(*id).as_str()),
            RunError::ProjectMissing(project) => join2(
                "project config missing: ",
                project.as_str(),
            ),
            RunError::QueueClosed => "channel closed".to_owned(),
        }
    }

    /// The error that is kept with a job that could not be run.
    pub fn internal_message(&self) -> (message: String)
        ensures
            message@ == "internal error: "@ + self.message_text(),
    {
        join2("internal error: ", self.message().as_str())
    }
}

/// The texts of the locks that are held.
spec fn lock_texts(locks: Seq<String>) -> Seq<Seq<char>> {
    locks.map_values(|lock: String| lock@)
}

impl StoreView {
    /// A store without jobs.
    pub open spec fn empty() -> StoreView {
        StoreView { jobs: Map::empty(), order: Seq::empty(), locks: Set::empty() }
    }

    /// Whether the order lists exactly the jobs that are there, each job under
    /// its own id.
    pub open spec fn valid(self) -> bool {
        &&& forall|id: u128| #[trigger] self.jobs.contains_key(id) <==> self.order.contains(id)
        &&& forall|id: u128| #[trigger] self.jobs.contains_key(id) ==> self.jobs[id].id == id
        &&& self.jobs.dom().finite()
    }

    /// The store with the job `id`, if it is there, changed by `change`.
    pub open spec fn update(self, id: u128, change: spec_fn(JobView) -> JobView) -> StoreView {
        if self.jobs.contains_key(id) {
            StoreView { jobs: self.jobs.insert(id, change(self.jobs[id])), ..self }
        } else {
            self
        }
    }

    /// The store with a job added at the end of the order.
    pub open spec fn added(self, job: JobView) -> StoreView {
        StoreView {
            jobs: self.jobs.insert(job.id, job),
            order: self.order.push(job.id),
            ..self
        }
    }

    /// The summaries of the jobs, the one queued last first.
    pub open spec fn newest_first(self) -> Seq<SummaryView> {
        self.order.reverse().map_values(|id: u128| self.jobs[id].summary())
    }

    /// The number of jobs in a state.
    pub open spec fn count(self, status: JobStatus) -> nat {
        self.jobs.dom().filter(|id: u128| self.jobs[id].status == status).len()
    }
}

impl StateStore {
    /// Whether the store's parts agree with each other.
    pub closed spec fn wf(&self) -> bool {
        &&& self@.valid()
        &&& lock_texts(self.active_locks@).no_duplicates()
    }

    /// A store without jobs.
    pub fn new() -> (store: StateStore)
        ensures
            store.wf(),
            store@ == StoreView::empty(),
    {
        let store = StateStore {
            jobs: HashMap::new(),
            order: VecDeque::new(),
            active_locks: Vec::new(),
        };
        assert(store@ =~= StoreView::empty());
        store
    }

    /// Adds a job at the end of the order.
    pub(crate) fn add(&mut self, job: Job)
        requires
            old(self).wf(),
        ensures
            final(self).wf(),
            final(self)@ == old(self)@.added(job@),
    {
        let id = job.id;
        self.order.push_back(id);
        self.jobs.insert(id, job);
        proof {
            assert(self@ =~= old(self)@.added(job@));
            let before = old(self)@;
            assert forall|key: u128| #[trigger]
                self@.jobs.contains_key(key) <==> self@.order.contains(key) by {
                assert(before.jobs.contains_key(key) <==> before.order.contains(key));
                if key == id {
                    assert(self@.order[before.order.len() as int] == id);
                } else if before.order.contains(key) {
                    let i = choose|i: int| 0 <= i < before.order.len() && before.order[i] == key;
                    assert(self@.order[i] == key);
                }
            }
        }
    }

    /// Puts a changed job in the place of the job with its id.
    fn put_back(&mut self, id: u128, job: Job, Ghost(before): Ghost<StoreView>)
        requires
            before.valid(),
            before.jobs.contains_key(id),
            job@.id == id,
            old(self)@ == (StoreView { jobs: before.jobs.remove(id), ..before }),
            lock_texts(old(self).active_locks@).no_duplicates(),
        ensures
            final(self).wf(),
            final(self)@ == (StoreView { jobs: before.jobs.insert(id, job@), ..before }),
    {
        self.jobs.insert(id, job);
        proof {
            let after = StoreView { jobs: before.jobs.insert(id, job@), ..before };
            assert(self@.jobs =~= old(self)@.jobs.insert(id, job@));
            assert(before.jobs.remove(id).insert(id, job@) =~= after.jobs);
            assert(self@ =~= after);
            assert forall|key: u128| #[trigger]
                self@.jobs.contains_key(key) <==> self@.order.contains(key) by {
                assert(before.jobs.contains_key(key) <==> before.order.contains(key));
            }
            assert forall|key: u128| #[trigger] self@.jobs.contains_key(key) implies self@.jobs[key].id
                == key by {
                assert(before.jobs.contains_key(key));
            }
        }
    }

    /// Takes the job `id` out to be changed; it has to be put back.
    fn take_out(&mut self, id: u128) -> (job: Option<Job>)
        requires
            old(self).wf(),
        ensures
            lock_texts(final(self).active_locks@).no_duplicates(),
            match job {
                Some(job) => {
                    &&& old(self)@.jobs.contains_key(id)
                    &&& job@ == old(self)@.jobs[id]
                    &&& job@.id == id
                    &&& final(self)@ == (StoreView {
                        jobs: old(self)@.jobs.remove(id),
                        ..old(self)@
                    })
                },
                None => !old(self)@.jobs.contains_key(id) && final(self)@ == old(self)@
                    && final(self).wf(),
            },
    {
        let job = self.jobs.remove(&id);
        proof {
            assert(self@.jobs =~= old(self)@.jobs.remove(id));
            if job is None {
                assert(self@.jobs =~= old(self)@.jobs);
                assert(self@ =~= old(self)@);
            } else {
                assert(old(self)@.jobs.contains_key(id));
            }
        }
        job
    }

    /// The job with an id.
    pub fn get_job(&self, id: u128) -> (job: Option<&Job>)
        requires
            self.wf(),
        ensures
            match job {
                Some(job) => self@.jobs.contains_key(id) && job@ == self@.jobs[id] && job.id == id,
                None => !self@.jobs.contains_key(id),
            },
    {
        self.jobs.get(&id)
    }
}

/// Law: a store whose parts agree lists exactly the jobs that it holds, each under
/// its own id.
pub proof fn store_lists_its_jobs(store: &StateStore)
    requires
        store.wf(),
    ensures
        store@.valid(),
        forall|i: int|
            0 <= i < store@.order.len() ==> store@.jobs.contains_key(#[trigger] store@.order[i]),
{
    assert forall|i: int| 0 <= i < store@.order.len() implies store@.jobs.contains_key(
        #[trigger] store@.order[i],
    ) by {
        assert(store@.order.contains(store@.order[i]));
    }
}

/// The store and the outcome once a worker has picked the job `id` at the time
/// `now`.
pub open spec fn began(
    before: StoreView,
    projects: Seq<ProjectConfig>,
    id: u128,
    now: Timestamp,
    after: StoreView,
    outcome: Result<BeginOutcome, RunError>,
) -> bool {
    let job = before.jobs[id];
    if !before.jobs.contains_key(id) {
        after == before && outcome == Err::<BeginOutcome, RunError>(RunError::JobNotFound(id))
    } else if job.status == JobStatus::Cancelled {
        after == before && outcome == Ok::<BeginOutcome, RunError>(BeginOutcome::AlreadyCancelled)
    } else if is_first_project(projects, has_id(job.project_id), None) {
        &&& after == before
        &&& outcome matches Err(RunError::ProjectMissing(project)) && project@ == job.project_id
    } else if before.locks.contains(job.lock()) {
        &&& after == before.update(id, |job: JobView| job.in_stage("waiting_lock"@))
        &&& outcome == Ok::<BeginOutcome, RunError>(BeginOutcome::WaitForLock { retry_secs: 2 })
    } else {
        &&& after == (StoreView {
            locks: before.locks.insert(job.lock()),
            ..before.update(id, |job: JobView| job.started(now))
        })
        &&& outcome matches Ok(BeginOutcome::Started { project, repo_lock })
            && is_first_project(projects, has_id(job.project_id), Some(project))
            && repo_lock@ == job.lock()
    }
}

impl StateStore {
    /// Finds the position of a lock among those that are held.
    fn find_lock(&self, lock: &String) -> (found: Option<usize>)
        ensures
            match found {
                Some(at) => at < self.active_locks@.len() && self.active_locks@[at as int]@ == lock@
                    && self@.locks.contains(lock@),
                None => !self@.locks.contains(lock@),
            },
    {
        let mut i: usize = 0;
        while i < self.active_locks.len()
            invariant
                i <= self.active_locks@.len(),
                forall|j: int| 0 <= j < i ==> (#[trigger] self.active_locks@[j])@ != lock@,
            decreases self.active_locks@.len() - i,
        {
            if self.active_locks[i] == *lock {
                proof {
                    assert(lock_texts(self.active_locks@)[i as int] == lock@);
                }
                return Some(i);
            }
            i += 1;
        }
        proof {
            if lock_texts(self.active_locks@).contains(lock@) {
                let j = choose|j: int|
                    0 <= j < lock_texts(self.active_locks@).len() && lock_texts(
                        self.active_locks@,
                    )[j] == lock@;
                assert(self.active_locks@[j]@ == lock@);
            }
        }
        None
    }

    /// Takes a lock that is free.
    fn hold_lock(&mut self, lock: String)
        requires
            old(self).wf(),
            !old(self)@.locks.contains(lock@),
        ensures
            final(self).wf(),
            final(self)@ == (StoreView { locks: old(self)@.locks.insert(lock@), ..old(self)@ }),
    {
        self.active_locks.push(lock);
        proof {
            let before = lock_texts(old(self).active_locks@);
            let after = lock_texts(self.active_locks@);
            assert(after =~= before.push(lock@));
            assert(!before.contains(lock@));
            assert forall|text: Seq<char>| #[trigger]
                after.to_set().contains(text) <==> before.to_set().insert(lock@).contains(text) by {
                if before.contains(text) {
                    let i = choose|i: int| 0 <= i < before.len() && before[i] == text;
                    assert(after[i] == text);
                }
                if text == lock@ {
                    assert(after[before.len() as int] == text);
                }
            }
            assert(after.to_set() =~= before.to_set().insert(lock@));
            assert(self@ =~= StoreView {
                locks: old(self)@.locks.insert(lock@),
                ..old(self)@
            });
        }
    }

    /// Gives a lock back.
    pub fn release_lock(&mut self, lock: &String)
        requires
            old(self).wf(),
        ensures
            final(self).wf(),
            final(self)@ == (StoreView { locks: old(self)@.locks.remove(lock@), ..old(self)@ }),
    {
        match self.find_lock(lock) {
            Some(at) => {
                let _ = self.active_locks.remove(at);
                proof {
                    let before = lock_texts(old(self).active_locks@);
                    let after = lock_texts(self.active_locks@);
                    assert(after =~= before.remove(at as int));
                    assert forall|text: Seq<char>| #[trigger]
                        after.to_set().contains(text) <==> before.to_set().remove(
                            lock@,
                        ).contains(text) by {
                        if after.contains(text) {
                            let i = choose|i: int| 0 <= i < after.len() && after[i] == text;
                            if i < at {
                                assert(before[i] == text);
                            } else {
                                assert(before[i + 1] == text);
                            }
                            assert(before[at as int] == lock@);
                        }
                        if before.contains(text) && text != lock@ {
                            let i = choose|i: int| 0 <= i < before.len() && before[i] == text;
                            if i < at {
                                assert(after[i] == text);
                            } else {
                                assert(after[i - 1] == text);
                            }
                        }
                    }
                    assert(after.to_set() =~= before.to_set().remove(lock@));
                    assert(self@ =~= StoreView {
                        locks: old(self)@.locks.remove(lock@),
                        ..old(self)@
                    });
                }
            },
            None => {
                proof {
                    assert(self@.locks.remove(lock@) =~= self@.locks);
                    assert(self@ =~= StoreView { locks: self@.locks.remove(lock@), ..self@ });
                }
            },
        }
    }

    /// Starts the job `id` for a worker, at the time `now`, unless it was
    /// cancelled, has no project, or another job runs on its branch.
    pub fn begin_job_at(
        &mut self,
        projects: &Vec<ProjectConfig>,
        id: u128,
        now: Timestamp,
    ) -> (outcome: Result<BeginOutcome, RunError>)
        requires
            old(self).wf(),
        ensures
            final(self).wf(),
            began(old(self)@, projects@, id, now, final(self)@, outcome),
    {
        let (status, project_id, repo_lock) = match self.get_job(id) {
            None => {
                return Err(RunError::JobNotFound(id));
            },
            Some(job) => (
                job.status,
                job.project_id.clone(),
                join3(job.repository.as_str(), ":", job.branch.as_str()),
            ),
        };
        if status == JobStatus::Cancelled {
            return Ok(BeginOutcome::AlreadyCancelled);
        }
        let project = match find_project(projects, project_id.as_str()) {
            None => {
                return Err(RunError::ProjectMissing(project_id));
            },
            Some(project) => project,
        };
        proof {
            assert(has_id(project_id@)(projects@[project as int]));
        }
        if self.find_lock(&repo_lock).is_some() {
            self.set_stage(id, "waiting_lock");
            return Ok(BeginOutcome::WaitForLock { retry_secs: 2 });
        }
        let ghost before = self@;
        match self.take_out(id) {
            Some(job) => {
                let mut job = job;
                job.status = JobStatus::Running;
                job.started_at = Some(now);
                job.current_stage = Some("preparing".to_owned());
                self.put_back(id, job, Ghost(before));
            },
            None => {},
        }
        let lock = repo_lock.clone();
        self.hold_lock(lock);
        Ok(BeginOutcome::Started { project, repo_lock })
    }

    /// Starts the job `id` for a worker now.
    pub fn begin_job(&mut self, projects: &Vec<ProjectConfig>, id: u128) -> (outcome: Result<
        BeginOutcome,
        RunError,
    >)
        requires
            old(self).wf(),
        ensures
            final(self).wf(),
            exists|now: Timestamp|
                now.valid() && now.is_reading() && #[trigger] began(
                    old(self)@,
                    projects@,
                    id,
                    now,
                    final(self)@,
                    outcome,
                ),
    {
        let now = Timestamp::now();
        self.begin_job_at(projects, id, now)
    }

    /// Sets the stage of a job.
    pub fn set_stage(&mut self, id: u128, stage: &str)
        requires
            old(self).wf(),
        ensures
            final(self).wf(),
            final(self)@ == old(self)@.update(id, |job: JobView| job.in_stage(stage@)),
    {
        let ghost before = self@;
        match self.take_out(id) {
            Some(job) => {
                let mut job = job;
                job.current_stage = Some(stage.to_owned());
                self.put_back(id, job, Ghost(before));
            },
            None => {},
        }
    }

    /// Adds a line to the log of a job.
    pub fn append_log(&mut self, id: u128, entry: JobLogEntry)
        requires
            old(self).wf(),
        ensures
            final(self).wf(),
            final(self)@ == old(self)@.update(id, |job: JobView| job.logged(entry@)),
    {
        let ghost before = self@;
        match self.take_out(id) {
            Some(job) => {
                let mut job = job;
                let ghost logs = job.logs@;
                job.logs.push(entry);
                assert(log_view(job.logs@) =~= log_view(logs).push(entry@));
                self.put_back(id, job, Ghost(before));
            },
            None => {},
        }
    }

    /// Marks a job as succeeded at the time `now`.
    pub fn complete_job_at(&mut self, id: u128, now: Timestamp)
        requires
            old(self).wf(),
        ensures
            final(self).wf(),
            final(self)@ == old(self)@.update(id, |job: JobView| job.completed(now)),
    {
        let ghost before = self@;
        match self.take_out(id) {
            Some(job) => {
                let mut job = job;
                job.status = JobStatus::Success;
                job.finished_at = Some(now);
                job.current_stage = Some("completed".to_owned());
                self.put_back(id, job, Ghost(before));
            },
            None => {},
        }
    }

    /// Marks a job as ended with an error at the time `now`.
    pub fn end_job_at(&mut self, id: u128, status: JobStatus, error: String, now: Timestamp)
        requires
            old(self).wf(),
        ensures
            final(self).wf(),
            final(self)@ == old(self)@.update(id, |job: JobView| job.ended(status, error@, now)),
    {
        let ghost before = self@;
        match self.take_out(id) {
            Some(job) => {
                let mut job = job;
                job.status = status;
                job.finished_at = Some(now);
                job.error = Some(error);
                self.put_back(id, job, Ghost(before));
            },
            None => {},
        }
    }

    /// Marks a job as ended with an error now.
    pub fn end_job(&mut self, id: u128, status: JobStatus, error: String)
        requires
            old(self).wf(),
        ensures
            final(self).wf(),
            exists|now: Timestamp|
                #![trigger now.valid()]
                now.valid() && now.is_reading() && final(self)@ == old(self)@.update(
                    id,
                    |job: JobView| job.ended(status, error@, now),
                ),
    {
        let now = Timestamp::now();
        self.end_job_at(id, status, error, now);
    }

    /// Marks a job as failed now.
    pub fn fail_job(&mut self, id: u128, error: String)
        requires
            old(self).wf(),
        ensures
            final(self).wf(),
            exists|now: Timestamp|
                #![trigger now.valid()]
                now.valid() && now.is_reading() && final(self)@ == old(self)@.update(
                    id,
                    |job: JobView| job.ended(JobStatus::Failed, error@, now),
                ),
    {
        self.end_job(id, JobStatus::Failed, error);
    }

    /// Asks for the cancellation of a job at the time `now`; says whether the job
    /// is there.
    pub fn cancel_job_at(&mut self, id: u128, now: Timestamp) -> (found: bool)
        requires
            old(self).wf(),
        ensures
            final(self).wf(),
            found == old(self)@.jobs.contains_key(id),
            final(self)@ == old(self)@.update(id, |job: JobView| job.cancelled(now)),
    {
        let ghost before = self@;
        match self.take_out(id) {
            Some(job) => {
                let mut job = job;
                if job.status == JobStatus::Queued {
                    job.status = JobStatus::Cancelled;
                    job.finished_at = Some(now);
                    job.current_stage = Some("cancelled".to_owned());
                }
                self.put_back(id, job, Ghost(before));
                true
            },
            None => false,
        }
    }

    /// Asks for the cancellation of a job now; says whether the job is there.
    pub fn cancel_job(&mut self, id: u128) -> (found: bool)
        requires
            old(self).wf(),
        ensures
            final(self).wf(),
            found == old(self)@.jobs.contains_key(id),
            exists|now: Timestamp|
                #![trigger now.valid()]
                now.valid() && now.is_reading() && final(self)@ == old(self)@.update(
                    id,
                    |job: JobView| job.cancelled(now),
                ),
    {
        let now = Timestamp::now();
        self.cancel_job_at(id, now)
    }

    /// Keeps the digest of a job's image, where none was known.
    pub fn set_digest(&mut self, id: u128, digest: String)
        requires
            old(self).wf(),
        ensures
            final(self).wf(),
            final(self)@ == old(self)@.update(id, |job: JobView| job.with_digest(digest@)),
    {
        let ghost before = self@;
        match self.take_out(id) {
            Some(job) => {
                let mut job = job;
                if job.image_digest.is_none() {
                    job.image_digest = Some(digest);
                }
                self.put_back(id, job, Ghost(before));
            },
            None => {},
        }
    }

    /// Whether there is a job with an id.
    pub fn contains_job(&self, id: u128) -> (found: bool)
        requires
            self.wf(),
        ensures
            found == self@.jobs.contains_key(id),
    {
        self.get_job(id).is_some()
    }

    /// The log of a job, empty where there is no such job.
    pub fn job_logs(&self, id: u128) -> (logs: Vec<JobLogEntry>)
        requires
            self.wf(),
        ensures
            log_view(logs@) == if self@.jobs.contains_key(id) {
                self@.jobs[id].logs
            } else {
                Seq::empty()
            },
    {
        match self.get_job(id) {
            Some(job) => copy_log(&job.logs),
            None => {
                let logs: Vec<JobLogEntry> = Vec::new();
                assert(log_view(logs@) =~= Seq::empty());
                logs
            },
        }
    }
}

/// The answer to a health probe.
#[derive(Debug)]
pub struct HealthResponse {
    pub ok: bool,
    pub queued: usize,
    pub running: usize,
}

proof fn lemma_filter_insert(s: Set<u128>, id: u128, pred: spec_fn(u128) -> bool)
    requires
        s.finite(),
        !s.contains(id),
    ensures
        s.insert(id).filter(pred).len() == s.filter(pred).len() + if pred(id) {
            1int
        } else {
            0int
        },
        s.filter(pred).len() <= s.len(),
{
    s.lemma_len_filter(pred);
    if pred(id) {
        assert(s.insert(id).filter(pred) =~= s.filter(pred).insert(id));
    } else {
        assert(s.insert(id).filter(pred) =~= s.filter(pred));
    }
}

/// The store that a list of stored jobs gives: the jobs in their order, without
/// those that were running, and no locks.
pub open spec fn restored(jobs: Seq<JobView>) -> StoreView
    decreases jobs.len(),
{
    if jobs.len() == 0 {
        StoreView::empty()
    } else if jobs.last().status == JobStatus::Running {
        restored(jobs.drop_last())
    } else {
        restored(jobs.drop_last()).added(jobs.last())
    }
}

/// What a list of jobs says.
pub open spec fn job_views(jobs: Seq<Job>) -> Seq<JobView> {
    jobs.map_values(|job: Job| job@)
}

/// What a list of summaries says.
pub open spec fn summary_views(jobs: Seq<JobSummary>) -> Seq<SummaryView> {
    jobs.map_values(|job: JobSummary| job@)
}

/// Builds the store from the stored jobs, the oldest first. A job that was
/// running when it was stored is left out.
pub fn restore_store(jobs: Vec<Job>) -> (store: StateStore)
    ensures
        store.wf(),
        store@ == restored(job_views(jobs@)),
{
    let mut store = StateStore::new();
    let ghost views = job_views(jobs@);
    let mut i: usize = 0;
    assert(views.take(0) =~= Seq::<JobView>::empty());
    while i < jobs.len()
        invariant
            i <= jobs@.len(),
            views == job_views(jobs@),
            store.wf(),
            store@ == restored(views.take(i as int)),
        decreases jobs@.len() - i,
    {
        proof {
            assert(views.take(i + 1).drop_last() =~= views.take(i as int));
            assert(views.take(i + 1).last() == jobs@[i as int]@);
        }
        if jobs[i].status != JobStatus::Running {
            store.add(jobs[i].clone());
        }
        i += 1;
    }
    assert(views.take(i as int) =~= views);
    store
}

impl StateStore {
    /// Counts the jobs that wait and those that run.
    pub fn health(&self) -> (response: HealthResponse)
        requires
            self.wf(),
        ensures
            response.ok,
            response.queued == self@.count(JobStatus::Queued),
            response.running == self@.count(JobStatus::Running),
    {
        let mut queued: usize = 0;
        let mut running: usize = 0;
        let ghost is_queued = |id: u128| self@.jobs[id].status == JobStatus::Queued;
        let ghost is_running = |id: u128| self@.jobs[id].status == JobStatus::Running;
        let ghost mut seen: Set<u128> = Set::empty();
        let total = self.jobs.len();
        proof {
            seen.lemma_len_filter(is_queued);
            seen.lemma_len_filter(is_running);
        }
        for id in it: self.jobs.keys()
            invariant
                total == self.jobs@.dom().len(),
                it.seq().unref().to_set() == self.jobs@.dom(),
                it.seq().no_duplicates(),
                it.seq().len() == total,
                seen.finite(),
                seen.subset_of(self.jobs@.dom()),
                seen.len() == it.index(),
                forall|k: u128| #[trigger]
                    seen.contains(k) <==> exists|i: int|
                        0 <= i < it.index() && *(#[trigger] it.seq()[i]) == k,
                is_queued == (|id: u128| self@.jobs[id].status == JobStatus::Queued),
                is_running == (|id: u128| self@.jobs[id].status == JobStatus::Running),
                queued == seen.filter(is_queued).len(),
                running == seen.filter(is_running).len(),
        {
            proof {
                assert(it.seq()[it.index() as int] == id);
                assert(!seen.contains(*id));
                lemma_filter_insert(seen, *id, is_queued);
                lemma_filter_insert(seen, *id, is_running);
                assert(it.seq().unref()[it.index() as int] == *id);
                assert(self.jobs@.dom().contains(*id));
            }
            match self.jobs.get(id) {
                Some(job) => match job.status {
                    JobStatus::Queued => {
                        queued += 1;
                    },
                    JobStatus::Running => {
                        running += 1;
                    },
                    _ => {},
                },
                None => {},
            }
            proof {
                seen = seen.insert(*id);
            }
        }
        proof {
            vstd::set_lib::lemma_subset_equality(seen, self.jobs@.dom());
            assert(self@.jobs.dom() =~= self.jobs@.dom());
        }
        HealthResponse { ok: true, queued, running }
    }

    /// The summaries of all jobs, the one queued last first.
    pub fn list_jobs(&self) -> (jobs: Vec<JobSummary>)
        requires
            self.wf(),
        ensures
            summary_views(jobs@) == self@.newest_first(),
    {
        let mut jobs: Vec<JobSummary> = Vec::new();
        let count = self.order.len();
        let mut i: usize = count;
        while i > 0
            invariant
                self.wf(),
                i <= count == self.order@.len(),
                summary_views(jobs@) == self@.newest_first().take(count - i),
            decreases i,
        {
            let id = self.order[i - 1];
            proof {
                assert(self@.order.contains(id));
                assert(self@.jobs.contains_key(id));
                assert(self@.newest_first().take(count - i + 1) =~= self@.newest_first().take(
                    count - i,
                ).push(self@.jobs[id].summary()));
            }
            match self.get_job(id) {
                Some(job) => {
                    let ghost before = jobs@;
                    let summary = JobSummary::from(job);
                    jobs.push(summary);
                    assert(summary_views(jobs@) =~= summary_views(before).push(summary@));
                },
                None => {},
            }
            i -= 1;
        }
        assert(self@.newest_first().take(count as int) =~= self@.newest_first());
        jobs
    }

    /// The summaries of the fifty jobs that were queued last, the last one first.
    pub fn dashboard_jobs(&self) -> (jobs: Vec<JobSummary>)
        requires
            self.wf(),
        ensures
            summary_views(jobs@) == if self@.order.len() <= 50 {
                self@.newest_first()
            } else {
                self@.newest_first().take(50)
            },
    {
        let mut jobs = self.list_jobs();
        let ghost all = jobs@;
        jobs.truncate(50);
        proof {
            if all.len() > 50 {
                assert(summary_views(jobs@) =~= summary_views(all).take(50));
            }
        }
        jobs
    }
}

/// Law: each change to a job touches the fields that it is about, and leaves every
/// other field as it is.
pub proof fn changes_touch_only_their_fields(
    job: JobView,
    stage: Seq<char>,
    entry: LogEntryView,
    status: JobStatus,
    error: Seq<char>,
    digest: Seq<char>,
    now: Timestamp,
)
    ensures
        job.in_stage(stage) == (JobView { current_stage: Some(stage), ..job }),
        job.logged(entry) == (JobView { logs: job.logs + seq![entry], ..job }),
        job.started(now) == (JobView {
            status: JobStatus::Running,
            started_at: Some(now),
            current_stage: Some("preparing"@),
            ..job
        }),
        job.completed(now) == (JobView {
            status: JobStatus::Success,
            finished_at: Some(now),
            current_stage: Some("completed"@),
            ..job
        }),
        job.ended(status, error, now) == (JobView {
            status,
            finished_at: Some(now),
            error: Some(error),
            ..job
        }),
        job.status == JobStatus::Queued ==> job.cancelled(now) == (JobView {
            status: JobStatus::Cancelled,
            finished_at: Some(now),
            current_stage: Some("cancelled"@),
            ..job
        }),
        job.status != JobStatus::Queued ==> job.cancelled(now) == job,
        job.image_digest is None ==> job.with_digest(digest) == (JobView {
            image_digest: Some(digest),
            ..job
        }),
        job.image_digest is Some ==> job.with_digest(digest) == job,
{
    assert(job.logged(entry).logs =~= job.logs + seq![entry]);
}

/// Law: a change to a job that is there changes that job alone; one to a job that is
/// not there changes nothing.
pub proof fn update_touches_one_job(
    store: StoreView,
    id: u128,
    change: spec_fn(JobView) -> JobView,
    other: u128,
)
    ensures
        store.update(id, change).order == store.order,
        store.update(id, change).locks == store.locks,
        !store.jobs.contains_key(id) ==> store.update(id, change) == store,
        store.jobs.contains_key(id) ==> store.update(id, change).jobs[id] == change(
            store.jobs[id],
        ),
        store.update(id, change).jobs.contains_key(other) <==> store.jobs.contains_key(other),
        other != id && store.jobs.contains_key(other) ==> store.update(id, change).jobs[other]
            == store.jobs[other],
{
}

/// Law: a job that is added stands under its id and last in the order; every other
/// job, and every lock, is as it was.
pub proof fn added_job_comes_last(store: StoreView, job: JobView, other: u128)
    ensures
        store.added(job).jobs.contains_key(job.id),
        store.added(job).jobs[job.id] == job,
        store.added(job).order == store.order + seq![job.id],
        store.added(job).locks == store.locks,
        other != job.id ==> (store.added(job).jobs.contains_key(other)
            <==> store.jobs.contains_key(other)),
        other != job.id && store.jobs.contains_key(other) ==> store.added(job).jobs[other]
            == store.jobs[other],
{
    assert(store.added(job).order =~= store.order + seq![job.id]);
}

/// Law: a picked job that is there, not cancelled, and whose project is configured
/// starts exactly where its lock, `repository:branch`, is free; it takes the lock, and
/// every other job stays as it was.
pub proof fn job_starts_where_its_branch_is_free(
    before: StoreView,
    projects: Seq<ProjectConfig>,
    id: u128,
    now: Timestamp,
    after: StoreView,
    outcome: Result<BeginOutcome, RunError>,
    at: usize,
)
    requires
        began(before, projects, id, now, after, outcome),
        before.jobs.contains_key(id),
        before.jobs[id].status != JobStatus::Cancelled,
        at < projects.len(),
        projects[at as int].id@ == before.jobs[id].project_id,
        forall|i: int| 0 <= i < at ==> (#[trigger] projects[i]).id@ != before.jobs[id].project_id,
    ensures
        ({
            let job = before.jobs[id];
            let lock = job.repository + ":"@ + job.branch;
            if before.locks.contains(lock) {
                &&& outcome == Ok::<BeginOutcome, RunError>(
                    BeginOutcome::WaitForLock { retry_secs: 2 },
                )
                &&& after.locks == before.locks
                &&& after.jobs == before.jobs.insert(
                    id,
                    JobView { current_stage: Some("waiting_lock"@), ..job },
                )
                &&& after.order == before.order
            } else {
                &&& outcome is Ok
                &&& outcome->Ok_0 is Started
                &&& outcome->Ok_0->project == at
                &&& outcome->Ok_0->repo_lock@ == lock
                &&& after.locks == before.locks.insert(lock)
                &&& after.jobs == before.jobs.insert(
                    id,
                    JobView {
                        status: JobStatus::Running,
                        started_at: Some(now),
                        current_stage: Some("preparing"@),
                        ..job
                    },
                )
                &&& after.order == before.order
            }
        }),
{
    let wanted = has_id(before.jobs[id].project_id);
    assert(wanted(projects[at as int]));
    assert forall|i: int| 0 <= i < at implies !wanted(#[trigger] projects[i]) by {}
    if let Ok(BeginOutcome::Started { project, .. }) = outcome {
        assert(wanted(projects[project as int]));
    }
}

/// Law: a picked job that is not there, was cancelled, or has no project leaves the
/// store as it is.
pub proof fn job_that_cannot_start_changes_nothing(
    before: StoreView,
    projects: Seq<ProjectConfig>,
    id: u128,
    now: Timestamp,
    after: StoreView,
    outcome: Result<BeginOutcome, RunError>,
)
    requires
        began(before, projects, id, now, after, outcome),
    ensures
        !before.jobs.contains_key(id) ==> after == before && outcome == Err::<
            BeginOutcome,
            RunError,
        >(RunError::JobNotFound(id)),
        before.jobs.contains_key(id) && before.jobs[id].status == JobStatus::Cancelled ==> after
            == before && outcome == Ok::<BeginOutcome, RunError>(BeginOutcome::AlreadyCancelled),
        before.jobs.contains_key(id) && before.jobs[id].status != JobStatus::Cancelled && (forall|
            i: int,
        |
            0 <= i < projects.len() ==> (#[trigger] projects[i]).id@
                != before.jobs[id].project_id) ==> after == before && outcome is Err
            && outcome->Err_0 is ProjectMissing && outcome->Err_0->ProjectMissing_0@
            == before.jobs[id].project_id,
{
    let wanted = has_id(before.jobs[id].project_id);
    if forall|i: int|
        0 <= i < projects.len() ==> (#[trigger] projects[i]).id@ != before.jobs[id].project_id {
        assert forall|i: int| 0 <= i < projects.len() implies !wanted(#[trigger] projects[i]) by {}
    }
}

/// Law: the list shows each job once, the one queued last first, and each field of a
/// summary is the field of the same name of its job.
pub proof fn listed_jobs_show_their_fields(store: StoreView, jobs: Seq<JobSummary>, i: int)
    requires
        summary_views(jobs) == store.newest_first(),
        0 <= i < jobs.len(),
    ensures
        jobs.len() == store.order.len(),
        ({
            let job = store.jobs[store.order[store.order.len() - 1 - i]];
            let shown = jobs[i];
            &&& shown.id == job.id
            &&& shown.project_id@ == job.project_id
            &&& shown.repository@ == job.repository
            &&& shown.branch@ == job.branch
            &&& shown.sha@ == job.sha
            &&& shown.image_reference@ == job.image_reference
            &&& opt_text(shown.image_digest) == job.image_digest
            &&& shown.status == job.status
            &&& shown.created_at == job.created_at
            &&& shown.started_at == job.started_at
            &&& shown.finished_at == job.finished_at
            &&& opt_text(shown.current_stage) == job.current_stage
            &&& opt_text(shown.error) == job.error
        }),
{
    let order = store.order.reverse();
    assert(order.len() == store.order.len());
    assert(summary_views(jobs).len() == jobs.len());
    assert(store.newest_first().len() == order.len());
    assert(summary_views(jobs)[i] == jobs[i]@);
    assert(store.newest_first()[i] == store.jobs[order[i]].summary());
}

/// Law: a job that is added counts once, in its own state, and not in another; no job
/// is counted in an empty store.
pub proof fn added_job_is_counted(store: StoreView, job: JobView, status: JobStatus)
    requires
        store.jobs.dom().finite(),
        !store.jobs.contains_key(job.id),
    ensures
        StoreView::empty().count(status) == 0,
        store.added(job).count(status) == store.count(status) + if job.status == status {
            1int
        } else {
            0int
        },
{
    let empty = StoreView::empty();
    assert(empty.jobs.dom().filter(|id: u128| empty.jobs[id].status == status) =~= Set::<
        u128,
    >::empty());
    let after = store.added(job);
    let old_set = store.jobs.dom().filter(|id: u128| store.jobs[id].status == status);
    let new_set = after.jobs.dom().filter(|id: u128| after.jobs[id].status == status);
    store.jobs.dom().lemma_len_filter(|id: u128| store.jobs[id].status == status);
    if job.status == status {
        assert(new_set =~= old_set.insert(job.id));
    } else {
        assert(new_set =~= old_set);
    }
}

/// Law: a job that changes its state is no longer counted in the old one, and is in
/// the new one.
pub proof fn changed_job_is_counted(
    store: StoreView,
    id: u128,
    change: spec_fn(JobView) -> JobView,
    status: JobStatus,
)
    requires
        store.jobs.dom().finite(),
        store.jobs.contains_key(id),
    ensures
        store.update(id, change).count(status) == store.count(status) + (if change(
            store.jobs[id],
        ).status == status {
            1int
        } else {
            0int
        }) - (if store.jobs[id].status == status {
            1int
        } else {
            0int
        }),
{
    let after = store.update(id, change);
    let rest = store.jobs.dom().remove(id).filter(|key: u128| store.jobs[key].status == status);
    let old_set = store.jobs.dom().filter(|key: u128| store.jobs[key].status == status);
    let new_set = after.jobs.dom().filter(|key: u128| after.jobs[key].status == status);
    store.jobs.dom().remove(id).lemma_len_filter(|key: u128| store.jobs[key].status == status);
    if store.jobs[id].status == status {
        assert(old_set =~= rest.insert(id));
    } else {
        assert(old_set =~= rest);
    }
    if after.jobs[id].status == status {
        assert(new_set =~= rest.insert(id));
    } else {
        assert(new_set =~= rest);
    }
}

/// Law: an error that keeps a job from being run names the job or the project.
pub proof fn run_errors_name_their_cause(id: u128, project: String)
    ensures
        RunError::JobNotFound(id).message_text() == "job not found: "@ + hyphenated(id),
        RunError::ProjectMissing(project).message_text() == "project config missing: "@
            + project@,
        RunError::QueueClosed.message_text() == "channel closed"@,
{
}

/// Law: what is said of a list of jobs, or of summaries, is what is said of each, in
/// their order.
pub proof fn lists_are_seen_in_their_order(jobs: Seq<Job>, summaries: Seq<JobSummary>, i: int)
    ensures
        job_views(jobs).len() == jobs.len(),
        0 <= i < jobs.len() ==> job_views(jobs)[i] == jobs[i]@,
        summary_views(summaries).len() == summaries.len(),
        0 <= i < summaries.len() ==> summary_views(summaries)[i] == summaries[i]@,
{
}

} // verus!
