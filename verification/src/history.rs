//! What holds of the store and of the runs of its jobs over whole histories.

use vstd::prelude::*;

use crate::config::{has_id, ProjectConfig};
use crate::job::{other_branch_means_other_lock, JobView, LogEntryView};
use crate::run::{
    after_flag, after_health, after_pipeline, applied, begin_run, ends_job, failure_effects,
    failure_status, job_ends_once, run_effects, run_result, start_effects, success_effects, wrap_up_effects,
    EffectView, Phase, RunView,
};
use crate::status::JobStatus;
use crate::store::{began, restored, BeginOutcome, RunError, StoreView};
use crate::time::Timestamp;

verus! {

/// A change to one job that is not an effect of its run: a step or a log line of
/// its pipeline, the digest of its image, a cancellation, or an error that kept a
/// worker from running it.
pub enum JobChange {
    Stage(Seq<char>),
    Log(LogEntryView),
    Digest(Seq<char>),
    Cancel(Timestamp),
    Fail { error: Seq<char>, now: Timestamp },
}

impl JobChange {
    /// What the change makes of a job.
    pub open spec fn of(self, job: JobView) -> JobView {
        match self {
            JobChange::Stage(stage) => job.in_stage(stage),
            JobChange::Log(entry) => job.logged(entry),
            JobChange::Digest(digest) => job.with_digest(digest),
            JobChange::Cancel(now) => job.cancelled(now),
            JobChange::Fail { error, now } => job.ended(JobStatus::Failed, error, now),
        }
    }
}

/// The run of a job: its lock, how its pipeline and its health check have ended and
/// whether the job was found to be cancelled, as far as this is known, and how many
/// of the things that it calls for have been done.
#[verifier::ext_equal]
pub struct RunState {
    pub id: u128,
    pub lock: Seq<char>,
    pub pipeline: Option<Result<(), Seq<char>>>,
    pub health: Option<Result<Option<u16>, Seq<char>>>,
    pub cancelled: Option<bool>,
    pub done: nat,
}

impl RunState {
    /// Where the run stands, and all that it has called for so far.
    pub open spec fn progress(self) -> (RunView, Seq<EffectView>) {
        let (begun, first) = begin_run(self.lock);
        match self.pipeline {
            None => (begun, first),
            Some(outcome) => {
                let (ran, second) = after_pipeline(begun, outcome);
                let (checked, third) = match self.health {
                    Some(outcome) => after_health(ran, outcome),
                    None => (ran, Seq::empty()),
                };
                let (ended, fourth) = match self.cancelled {
                    Some(cancelled) => after_flag(checked, cancelled),
                    None => (checked, Seq::empty()),
                };
                (ended, first + second + third + fourth)
            },
        }
    }

    /// What the run waits for once all that it has called for is done.
    pub open spec fn phase(self) -> Phase {
        self.progress().0.phase
    }

    /// All that the run has called for so far.
    pub open spec fn issued(self) -> Seq<EffectView> {
        self.progress().1
    }

    /// Whether all that the run has called for is done.
    pub open spec fn drained(self) -> bool {
        self.done == self.issued().len()
    }

    /// Whether what is known of the run has come in the order in which a run asks
    /// for it.
    pub open spec fn valid(self) -> bool {
        &&& self.health is Some ==> (self.pipeline matches Some(Ok(_)))
        &&& self.cancelled is Some ==> {
            ||| self.pipeline matches Some(Err(_))
            ||| self.health matches Some(Err(_))
        }
        &&& self.done <= self.issued().len()
    }

    /// Whether the pipeline or the health check of the run is not over.
    pub open spec fn under_way(self) -> bool {
        self.phase() == Phase::Pipeline || self.phase() == Phase::Healthcheck
    }

    /// Whether the run has not given its lock back.
    pub open spec fn holds_lock(self) -> bool {
        !self.issued().take(self.done as int).contains(EffectView::ReleaseLock(self.lock))
    }
}

/// A run that has just begun.
pub open spec fn new_run(id: u128, lock: Seq<char>) -> RunState {
    RunState { id, lock, pipeline: None, health: None, cancelled: None, done: 0 }
}

/// The store, and the runs in the order in which they began.
#[verifier::ext_equal]
pub struct System {
    pub store: StoreView,
    pub runs: Seq<RunState>,
}

/// Something that happens.
pub enum Operation {
    /// A new job is queued, under an id that no job has.
    Add(JobView),
    /// A worker picks a job.
    Begin { id: u128, now: Timestamp, outcome: Result<BeginOutcome, RunError> },
    /// A job is changed.
    Change { id: u128, change: JobChange },
    /// The next thing that a run has called for is done.
    Perform { run: int, now: Timestamp },
    /// The pipeline of a run ends.
    PipelineEnded { run: int, result: Result<(), Seq<char>> },
    /// The health check of a run ends.
    HealthEnded { run: int, answer: Result<Option<u16>, Seq<char>> },
    /// A run learns whether its job was cancelled.
    FlagRead { run: int, cancelled: bool },
}

/// Whether a run has done all that it called for and waits for this.
pub open spec fn waits_for(system: System, run: int, phase: Phase) -> bool {
    &&& 0 <= run < system.runs.len()
    &&& system.runs[run].drained()
    &&& system.runs[run].phase() == phase
}

/// Whether an operation leads from one system to another.
pub open spec fn stepped(
    projects: Seq<ProjectConfig>,
    before: System,
    operation: Operation,
    after: System,
) -> bool {
    match operation {
        Operation::Add(job) => {
            &&& !before.store.jobs.contains_key(job.id)
            &&& after.store == before.store.added(job)
            &&& after.runs == before.runs
        },
        Operation::Begin { id, now, outcome } => {
            &&& began(before.store, projects, id, now, after.store, outcome)
            &&& after.runs == match outcome {
                Ok(BeginOutcome::Started { repo_lock, .. }) => before.runs.push(
                    new_run(id, repo_lock@),
                ),
                _ => before.runs,
            }
        },
        Operation::Change { id, change } => {
            &&& after.store == before.store.update(id, |job: JobView| change.of(job))
            &&& after.runs == before.runs
        },
        Operation::Perform { run, now } => {
            let state = before.runs[run];
            &&& 0 <= run < before.runs.len()
            &&& state.done < state.issued().len()
            &&& after.store == applied(
                before.store,
                state.id,
                state.issued()[state.done as int],
                now,
            )
            &&& after.runs == before.runs.update(run, RunState { done: state.done + 1, ..state })
        },
        Operation::PipelineEnded { run, result } => {
            &&& waits_for(before, run, Phase::Pipeline)
            &&& after.store == before.store
            &&& after.runs == before.runs.update(
                run,
                RunState { pipeline: Some(result), ..before.runs[run] },
            )
        },
        Operation::HealthEnded { run, answer } => {
            &&& waits_for(before, run, Phase::Healthcheck)
            &&& after.store == before.store
            &&& after.runs == before.runs.update(
                run,
                RunState { health: Some(answer), ..before.runs[run] },
            )
        },
        Operation::FlagRead { run, cancelled } => {
            &&& waits_for(before, run, Phase::CancelFlag)
            &&& after.store == before.store
            &&& after.runs == before.runs.update(
                run,
                RunState { cancelled: Some(cancelled), ..before.runs[run] },
            )
        },
    }
}

/// Whether the operations lead from each system to the next.
pub open spec fn history(
    projects: Seq<ProjectConfig>,
    systems: Seq<System>,
    operations: Seq<Operation>,
) -> bool {
    &&& systems.len() == operations.len() + 1
    &&& forall|i: int|
        0 <= i < operations.len() ==> stepped(
            projects,
            #[trigger] systems[i],
            operations[i],
            systems[i + 1],
        )
}

/// Whether no job runs and no lock is held, as it is when the server starts.
pub open spec fn at_rest(system: System) -> bool {
    &&& system.runs.len() == 0
    &&& system.store.locks == Set::<Seq<char>>::empty()
}

/// Whether the locks that are held are those of the runs that have not given theirs
/// back, and no two of these share a lock.
pub open spec fn locks_agree(system: System) -> bool {
    &&& forall|i: int| 0 <= i < system.runs.len() ==> (#[trigger] system.runs[i]).valid()
    &&& forall|i: int|
        0 <= i < system.runs.len() && (#[trigger] system.runs[i]).holds_lock()
            ==> system.store.locks.contains(system.runs[i].lock)
    &&& forall|lock: Seq<char>| #[trigger]
        system.store.locks.contains(lock) ==> exists|i: int|
            0 <= i < system.runs.len() && (#[trigger] system.runs[i]).holds_lock()
                && system.runs[i].lock == lock
    &&& forall|i: int, j: int|
        0 <= i < system.runs.len() && 0 <= j < system.runs.len() && i != j && (
        #[trigger] system.runs[i]).holds_lock() && (#[trigger] system.runs[j]).holds_lock()
            ==> system.runs[i].lock != system.runs[j].lock
}

/// What a run has called for: the three things before its pipeline while that or the
/// health check is not over; afterwards its lock is given back as the fifth thing,
/// and its job is marked as ended as the seventh.
proof fn lemma_issued(state: RunState)
    requires
        state.valid(),
    ensures
        state.under_way() <==> state.issued().len() == 3,
        !state.under_way() <==> state.issued().len() >= 6,
        state.under_way() ==> state.issued() == start_effects(),
        forall|k: int| 0 <= k < state.issued().len() ==> {
            &&& (#[trigger] state.issued()[k] is ReleaseLock <==> k == 4)
            &&& (ends_job(state.issued()[k]) <==> k == 6)
            &&& k == 4 ==> state.issued()[k] == EffectView::ReleaseLock(state.lock)
        },
        state.holds_lock() <==> state.done <= 4,
{
    let issued = state.issued();
    let (begun, first) = begin_run(state.lock);
    assert(first == start_effects());
    match state.pipeline {
        None => {},
        Some(Err(error)) => {
            match state.cancelled {
                None => {
                    assert(issued =~= first + wrap_up_effects(state.lock));
                },
                Some(cancelled) => {
                    assert(issued =~= first + wrap_up_effects(state.lock) + failure_effects(
                        error,
                        cancelled,
                    ));
                },
            }
        },
        Some(Ok(_)) => {
            match state.health {
                None => {
                    assert(issued =~= first);
                },
                Some(Ok(status)) => {
                    assert(issued =~= first + wrap_up_effects(state.lock) + success_effects(
                        status,
                    ));
                },
                Some(Err(error)) => {
                    match state.cancelled {
                        None => {
                            assert(issued =~= first + wrap_up_effects(state.lock));
                        },
                        Some(cancelled) => {
                            assert(issued =~= first + wrap_up_effects(state.lock)
                                + failure_effects(error, cancelled));
                        },
                    }
                },
            }
        },
    }
    let done = issued.take(state.done as int);
    let release = EffectView::ReleaseLock(state.lock);
    if state.done > 4 {
        assert(done[4] == release);
    } else if done.contains(release) {
        let k = choose|k: int| 0 <= k < done.len() && done[k] == release;
        assert(issued[k] is ReleaseLock);
    }
}

proof fn lemma_step_keeps_locks(
    projects: Seq<ProjectConfig>,
    before: System,
    operation: Operation,
    after: System,
)
    requires
        stepped(projects, before, operation, after),
        locks_agree(before),
    ensures
        locks_agree(after),
{
    assert forall|i: int| 0 <= i < before.runs.len() implies {
        &&& (#[trigger] before.runs[i]).valid()
        &&& before.runs[i].holds_lock() <==> before.runs[i].done <= 4
    } by {
        lemma_issued(before.runs[i]);
    }
    match operation {
        Operation::Add(_) => {
            assert(after.store.locks == before.store.locks);
        },
        Operation::Change { id, change } => {
            assert(after.store.locks == before.store.locks);
        },
        Operation::Begin { id, now, outcome } => {
            if let Ok(BeginOutcome::Started { project, repo_lock }) = outcome {
                let fresh = new_run(id, repo_lock@);
                let last = before.runs.len() as int;
                lemma_issued(fresh);
                assert(after.runs[last] == fresh);
                assert(forall|i: int| 0 <= i < last ==> after.runs[i] == before.runs[i]);
                assert forall|lock: Seq<char>| #[trigger]
                    after.store.locks.contains(lock) implies exists|i: int|
                    0 <= i < after.runs.len() && (#[trigger] after.runs[i]).holds_lock()
                        && after.runs[i].lock == lock by {
                    if lock == repo_lock@ {
                        assert(after.runs[last].holds_lock());
                    } else {
                        assert(before.store.locks.contains(lock));
                        let i = choose|i: int|
                            0 <= i < before.runs.len() && (
                            #[trigger] before.runs[i]).holds_lock() && before.runs[i].lock == lock;
                        assert(after.runs[i] == before.runs[i]);
                    }
                }
            } else {
                assert(after.store.locks == before.store.locks);
            }
        },
        Operation::Perform { run, now } => {
            let state = before.runs[run];
            let next = RunState { done: state.done + 1, ..state };
            assert(next.progress() == state.progress());
            lemma_issued(state);
            lemma_issued(next);
            let effect = state.issued()[state.done as int];
            assert(after.runs[run] == next);
            assert(forall|i: int|
                0 <= i < before.runs.len() && i != run ==> after.runs[i] == before.runs[i]);
            if state.done == 4 {
                assert(effect == EffectView::ReleaseLock(state.lock));
                assert(after.store.locks == before.store.locks.remove(state.lock));
            } else {
                assert(!(effect is ReleaseLock));
                assert(after.store.locks == before.store.locks);
            }
            assert forall|lock: Seq<char>| #[trigger]
                after.store.locks.contains(lock) implies exists|i: int|
                0 <= i < after.runs.len() && (#[trigger] after.runs[i]).holds_lock()
                    && after.runs[i].lock == lock by {
                assert(before.store.locks.contains(lock));
                let i = choose|i: int|
                    0 <= i < before.runs.len() && (#[trigger] before.runs[i]).holds_lock()
                        && before.runs[i].lock == lock;
                assert(after.runs[i].holds_lock());
            }
        },
        Operation::PipelineEnded { run, result } => {
            let next = RunState { pipeline: Some(result), ..before.runs[run] };
            lemma_event_keeps_locks(before, run, next, after);
        },
        Operation::HealthEnded { run, answer } => {
            let state = before.runs[run];
            let next = RunState { health: Some(answer), ..state };
            lemma_issued(state);
            assert(state.pipeline matches Some(Ok(_)));
            lemma_event_keeps_locks(before, run, next, after);
        },
        Operation::FlagRead { run, cancelled } => {
            let next = RunState { cancelled: Some(cancelled), ..before.runs[run] };
            lemma_event_keeps_locks(before, run, next, after);
        },
    }
}

proof fn lemma_event_keeps_locks(before: System, run: int, next: RunState, after: System)
    requires
        locks_agree(before),
        0 <= run < before.runs.len(),
        next.done == before.runs[run].done,
        next.lock == before.runs[run].lock,
        next.valid(),
        after.store == before.store,
        after.runs == before.runs.update(run, next),
    ensures
        locks_agree(after),
{
    assert forall|i: int| 0 <= i < before.runs.len() implies {
        &&& (#[trigger] after.runs[i]).valid()
        &&& after.runs[i].lock == before.runs[i].lock
        &&& after.runs[i].holds_lock() <==> before.runs[i].holds_lock()
    } by {
        lemma_issued(before.runs[i]);
        lemma_issued(after.runs[i]);
    }
    assert forall|lock: Seq<char>| #[trigger] after.store.locks.contains(lock) implies exists|i: int|
        0 <= i < after.runs.len() && (#[trigger] after.runs[i]).holds_lock() && after.runs[i].lock
            == lock by {
        let i = choose|i: int|
            0 <= i < before.runs.len() && (#[trigger] before.runs[i]).holds_lock()
                && before.runs[i].lock == lock;
        assert(after.runs[i].holds_lock());
    }
}

/// Law: at every time the locks that are held are exactly those of the runs that have
/// not given theirs back, and no two of these share a lock.
pub proof fn locks_belong_to_runs(
    projects: Seq<ProjectConfig>,
    systems: Seq<System>,
    operations: Seq<Operation>,
    to: int,
)
    requires
        history(projects, systems, operations),
        at_rest(systems[0]),
        0 <= to < systems.len(),
    ensures
        locks_agree(systems[to]),
    decreases to,
{
    if to > 0 {
        locks_belong_to_runs(projects, systems, operations, to - 1);
        assert(stepped(projects, systems[to - 1], operations[to - 1], systems[to - 1 + 1]));
        lemma_step_keeps_locks(projects, systems[to - 1], operations[to - 1], systems[to]);
    }
}

/// Whether every run is that of a job that is there, under the lock
/// `repository:branch` of that job.
pub open spec fn runs_have_their_jobs(system: System) -> bool {
    forall|i: int|
        0 <= i < system.runs.len() ==> {
            let run = #[trigger] system.runs[i];
            let job = system.store.jobs[run.id];
            &&& system.store.jobs.contains_key(run.id)
            &&& run.lock == job.repository + ":"@ + job.branch
        }
}

/// Law: at every time each run is that of a job that is there, under the lock made of the
/// repository and the branch of that job.
pub proof fn runs_hold_the_locks_of_their_jobs(
    projects: Seq<ProjectConfig>,
    systems: Seq<System>,
    operations: Seq<Operation>,
    to: int,
)
    requires
        history(projects, systems, operations),
        at_rest(systems[0]),
        0 <= to < systems.len(),
    ensures
        runs_have_their_jobs(systems[to]),
    decreases to,
{
    if to > 0 {
        let before = systems[to - 1];
        let operation = operations[to - 1];
        let after = systems[to];
        runs_hold_the_locks_of_their_jobs(projects, systems, operations, to - 1);
        assert(stepped(projects, before, operation, systems[to - 1 + 1]));
        assert forall|i: int| 0 <= i < after.runs.len() implies {
            let run = #[trigger] after.runs[i];
            let job = after.store.jobs[run.id];
            &&& after.store.jobs.contains_key(run.id)
            &&& run.lock == job.repository + ":"@ + job.branch
        } by {
            if i < before.runs.len() {
                let run = before.runs[i];
                assert(after.runs[i].id == run.id && after.runs[i].lock == run.lock);
                lemma_step_keeps_jobs(projects, before, operation, after, run.id);
                let earlier = before.store.jobs[run.id];
                let later = after.store.jobs[run.id];
                assert(later.request().repository == earlier.request().repository);
                assert(later.request().branch == earlier.request().branch);
            }
        }
    }
}

/// Law: of two runs of jobs of the same branch of the same repository, or under the same
/// lock, at most one is in its pipeline or its health check at a time.
pub proof fn one_job_runs_per_branch(
    projects: Seq<ProjectConfig>,
    systems: Seq<System>,
    operations: Seq<Operation>,
    to: int,
    first: int,
    second: int,
)
    requires
        history(projects, systems, operations),
        at_rest(systems[0]),
        0 <= to < systems.len(),
        0 <= first < systems[to].runs.len(),
        0 <= second < systems[to].runs.len(),
        first != second,
        systems[to].runs[first].lock == systems[to].runs[second].lock || {
            let a = systems[to].store.jobs[systems[to].runs[first].id];
            let b = systems[to].store.jobs[systems[to].runs[second].id];
            a.repository == b.repository && a.branch == b.branch
        },
    ensures
        !(systems[to].runs[first].under_way() && systems[to].runs[second].under_way()),
{
    runs_hold_the_locks_of_their_jobs(projects, systems, operations, to);
    locks_belong_to_runs(projects, systems, operations, to);
    lemma_issued(systems[to].runs[first]);
    lemma_issued(systems[to].runs[second]);
}

/// Law: a run gives back its own lock, which it has held until then, and does so only
/// once its pipeline and its health check are over.
pub proof fn lock_is_released_by_its_run(
    projects: Seq<ProjectConfig>,
    systems: Seq<System>,
    operations: Seq<Operation>,
    at: int,
    run: int,
    now: Timestamp,
)
    requires
        history(projects, systems, operations),
        at_rest(systems[0]),
        0 <= at < operations.len(),
        operations[at] == (Operation::Perform { run, now }),
        systems[at].runs[run].issued()[systems[at].runs[run].done as int] is ReleaseLock,
    ensures
        ({
            let state = systems[at].runs[run];
            &&& state.issued()[state.done as int] == EffectView::ReleaseLock(state.lock)
            &&& state.holds_lock()
            &&& !state.under_way()
            &&& systems[at].store.locks.contains(state.lock)
            &&& systems[at + 1].store.locks == systems[at].store.locks.remove(state.lock)
        }),
{
    locks_belong_to_runs(projects, systems, operations, at);
    assert(stepped(projects, systems[at], operations[at], systems[at + 1]));
    lemma_issued(systems[at].runs[run]);
}

/// Law: a lock that was held and is free after an operation was given back by a run:
/// nothing else frees a lock.
pub proof fn only_runs_release_locks(
    projects: Seq<ProjectConfig>,
    before: System,
    operation: Operation,
    after: System,
    lock: Seq<char>,
)
    requires
        stepped(projects, before, operation, after),
        before.store.locks.contains(lock),
        !after.store.locks.contains(lock),
    ensures
        operation matches Operation::Perform { run, .. } && before.runs[run].issued()[
            before.runs[run].done as int] == EffectView::ReleaseLock(lock),
{
}

/// Law: a run that has finished has called for exactly what its pipeline, its health
/// check and the cancellation of its job call for.
pub proof fn finished_run_did_what_it_calls_for(
    state: RunState,
    health: Result<Option<u16>, Seq<char>>,
    cancelled: bool,
)
    requires
        state.valid(),
        state.phase() == Phase::Finished,
        state.health is Some ==> state.health == Some(health),
        state.cancelled is Some ==> state.cancelled == Some(cancelled),
    ensures
        state.pipeline is Some,
        state.issued() == run_effects(state.lock, state.pipeline->0, health, cancelled),
{
    assert(state.issued() =~= run_effects(state.lock, state.pipeline->0, health, cancelled));
}

/// Law: the step with which a run marks its job as ended gives the job the state that
/// the outcome of the run calls for.
pub proof fn job_ends_as_its_run_does(
    projects: Seq<ProjectConfig>,
    before: System,
    after: System,
    run: int,
    now: Timestamp,
)
    requires
        stepped(projects, before, Operation::Perform { run, now }, after),
        before.runs[run].valid(),
        ends_job(before.runs[run].issued()[before.runs[run].done as int]),
        before.store.jobs.contains_key(before.runs[run].id),
    ensures
        ({
            let state = before.runs[run];
            let job = after.store.jobs[state.id];
            &&& state.phase() == Phase::Finished
            &&& job.finished_at == Some(now)
            &&& match run_result(
                state.pipeline->0,
                state.health.unwrap_or(Ok::<Option<u16>, Seq<char>>(None)),
            ) {
                Ok(_) => job.status == JobStatus::Success,
                Err(error) => {
                    &&& state.cancelled is Some
                    &&& job.status == failure_status(state.cancelled->0)
                    &&& job.error == Some(error)
                },
            }
        }),
{
    let state = before.runs[run];
    lemma_issued(state);
    let health = state.health.unwrap_or(Ok::<Option<u16>, Seq<char>>(None));
    let cancelled = state.cancelled.unwrap_or(false);
    if state.phase() == Phase::Finished {
        finished_run_did_what_it_calls_for(state, health, cancelled);
        job_ends_once(state.lock, state.pipeline->0, health, cancelled, 6);
    }
}

/// Whether an operation may give the job `id` another state: a worker picks it or
/// fails to, or a run of it marks it as ended.
pub open spec fn may_restate(before: System, operation: Operation, id: u128) -> bool {
    match operation {
        Operation::Begin { id: picked, .. } => picked == id,
        Operation::Change { id: changed, change } => changed == id && change is Fail,
        Operation::Perform { run, .. } => before.runs[run].id == id && ends_job(
            before.runs[run].issued()[before.runs[run].done as int],
        ),
        _ => false,
    }
}

/// Law: a job that does not wait keeps its state, the time of its end and its error,
/// whatever happens, until a worker picks it or a run of it ends.
pub proof fn settled_job_stays_settled(
    projects: Seq<ProjectConfig>,
    systems: Seq<System>,
    operations: Seq<Operation>,
    id: u128,
    from: int,
    to: int,
)
    requires
        history(projects, systems, operations),
        0 <= from <= to < systems.len(),
        systems[from].store.jobs.contains_key(id),
        systems[from].store.jobs[id].status != JobStatus::Queued,
        forall|k: int|
            from <= k < to ==> !may_restate(#[trigger] systems[k], operations[k], id),
    ensures
        systems[to].store.jobs.contains_key(id),
        systems[to].store.jobs[id].status == systems[from].store.jobs[id].status,
        systems[to].store.jobs[id].finished_at == systems[from].store.jobs[id].finished_at,
        systems[to].store.jobs[id].error == systems[from].store.jobs[id].error,
    decreases to - from,
{
    if from < to {
        let before = systems[from];
        assert(stepped(projects, before, operations[from], systems[from + 1]));
        assert(!may_restate(before, operations[from], id));
        settled_job_stays_settled(projects, systems, operations, id, from + 1, to);
    }
}

/// Law: a job that starts becomes running, and its lock, repository and branch, is
/// held from then on.
pub proof fn started_job_holds_its_lock(
    projects: Seq<ProjectConfig>,
    before: StoreView,
    id: u128,
    now: Timestamp,
    after: StoreView,
    outcome: Result<BeginOutcome, RunError>,
)
    requires
        began(before, projects, id, now, after, outcome),
        outcome matches Ok(BeginOutcome::Started { .. }),
    ensures
        before.jobs.contains_key(id),
        after.jobs[id].status == JobStatus::Running,
        !before.locks.contains(before.jobs[id].lock()),
        after.locks == before.locks.insert(before.jobs[id].lock()),
        outcome->Ok_0->repo_lock@ == before.jobs[id].lock(),
{
}

/// Law: a job that was cancelled while it waited is not started: the worker that
/// picks it leaves everything as it is.
pub proof fn cancelled_job_is_not_started(
    projects: Seq<ProjectConfig>,
    before: StoreView,
    id: u128,
    cancelled_at: Timestamp,
    now: Timestamp,
    after: StoreView,
    outcome: Result<BeginOutcome, RunError>,
)
    requires
        before.jobs.contains_key(id),
        before.jobs[id].status == JobStatus::Queued,
        began(
            before.update(id, |job: JobView| job.cancelled(cancelled_at)),
            projects,
            id,
            now,
            after,
            outcome,
        ),
    ensures
        after == before.update(id, |job: JobView| job.cancelled(cancelled_at)),
        outcome == Ok::<BeginOutcome, RunError>(BeginOutcome::AlreadyCancelled),
{
}

/// Whether a job has come from another by operations on it: it asks for the same,
/// its log starts with the earlier log, and a digest that was known is the same.
pub open spec fn grew_from(job: JobView, earlier: JobView) -> bool {
    &&& job.request() == earlier.request()
    &&& earlier.logs.is_prefix_of(job.logs)
    &&& earlier.image_digest is Some ==> job.image_digest == earlier.image_digest
}

proof fn lemma_step_keeps_jobs(
    projects: Seq<ProjectConfig>,
    before: System,
    operation: Operation,
    after: System,
    id: u128,
)
    requires
        stepped(projects, before, operation, after),
        before.store.jobs.contains_key(id),
    ensures
        after.store.jobs.contains_key(id),
        grew_from(after.store.jobs[id], before.store.jobs[id]),
        before.store.order.is_prefix_of(after.store.order),
{
    let earlier = before.store.jobs[id];
    let job = after.store.jobs[id];
    let order = before.store.order;
    assert(earlier.logs =~= earlier.logs.subrange(0, earlier.logs.len() as int));
    assert(order =~= order.subrange(0, order.len() as int));
    match operation {
        Operation::Add(_) => {
            assert(order =~= after.store.order.subrange(0, order.len() as int));
        },
        Operation::Change { id: changed, change } => {
            if changed == id && change is Log {
                assert(earlier.logs =~= job.logs.subrange(0, earlier.logs.len() as int));
            }
        },
        Operation::Perform { run, now } => {
            let state = before.runs[run];
            if state.id == id && state.issued()[state.done as int] is Log {
                assert(earlier.logs =~= job.logs.subrange(0, earlier.logs.len() as int));
            }
        },
        _ => {},
    }
    assert(job.request() =~= earlier.request());
}

/// Law: no job ever disappears. What it asks for, a digest that is known, and the
/// lines of its log stay as they are, and the order in which the jobs were queued
/// only grows.
pub proof fn jobs_are_kept(
    projects: Seq<ProjectConfig>,
    systems: Seq<System>,
    operations: Seq<Operation>,
    id: u128,
    from: int,
    to: int,
)
    requires
        history(projects, systems, operations),
        0 <= from <= to < systems.len(),
        systems[from].store.jobs.contains_key(id),
    ensures
        systems[to].store.jobs.contains_key(id),
        grew_from(systems[to].store.jobs[id], systems[from].store.jobs[id]),
        systems[from].store.order.is_prefix_of(systems[to].store.order),
    decreases to - from,
{
    let first = systems[from].store;
    assert(first.jobs[id].logs =~= first.jobs[id].logs.subrange(
        0,
        first.jobs[id].logs.len() as int,
    ));
    assert(first.order =~= first.order.subrange(0, first.order.len() as int));
    if from < to {
        let next = systems[from + 1].store;
        let last = systems[to].store;
        assert(stepped(projects, systems[from], operations[from], systems[from + 1]));
        lemma_step_keeps_jobs(projects, systems[from], operations[from], systems[from + 1], id);
        jobs_are_kept(projects, systems, operations, id, from + 1, to);
        lemma_prefix_is_transitive(first.jobs[id].logs, next.jobs[id].logs, last.jobs[id].logs);
        lemma_prefix_is_transitive(first.order, next.order, last.order);
    }
}

proof fn lemma_prefix_is_transitive<T>(a: Seq<T>, b: Seq<T>, c: Seq<T>)
    requires
        a.is_prefix_of(b),
        b.is_prefix_of(c),
    ensures
        a.is_prefix_of(c),
{
    assert forall|i: int| 0 <= i < a.len() implies a[i] == c[i] by {
        assert(a[i] == b.subrange(0, a.len() as int)[i]);
        assert(b[i] == c.subrange(0, b.len() as int)[i]);
    }
    assert(a =~= c.subrange(0, a.len() as int));
}

proof fn lemma_step_keeps_validity(
    projects: Seq<ProjectConfig>,
    before: System,
    operation: Operation,
    after: System,
)
    requires
        stepped(projects, before, operation, after),
        before.store.valid(),
        before.store.order.no_duplicates(),
    ensures
        after.store.valid(),
        after.store.order.no_duplicates(),
{
    let old_store = before.store;
    let new_store = after.store;
    match operation {
        Operation::Add(job) => {
            assert forall|key: u128| #[trigger]
                new_store.jobs.contains_key(key) <==> new_store.order.contains(key) by {
                assert(old_store.jobs.contains_key(key) <==> old_store.order.contains(key));
                if key == job.id {
                    assert(new_store.order[old_store.order.len() as int] == key);
                } else if old_store.order.contains(key) {
                    let i = choose|i: int|
                        0 <= i < old_store.order.len() && old_store.order[i] == key;
                    assert(new_store.order[i] == key);
                }
            }
            assert(!old_store.order.contains(job.id));
        },
        _ => {
            assert(new_store.order == old_store.order);
            assert(new_store.jobs.dom() =~= old_store.jobs.dom());
            assert forall|key: u128| #[trigger]
                new_store.jobs.contains_key(key) implies new_store.jobs[key].id == key by {
                assert(old_store.jobs.contains_key(key));
                lemma_step_keeps_jobs(projects, before, operation, after, key);
                assert(new_store.jobs[key].request().id == old_store.jobs[key].request().id);
            }
            assert forall|key: u128| #[trigger]
                new_store.jobs.contains_key(key) <==> new_store.order.contains(key) by {
                assert(old_store.jobs.contains_key(key) <==> old_store.order.contains(key));
            }
        },
    }
}

/// Law: where the ids of new jobs are fresh, the order always lists each job that
/// is there, and each once, if it does so at first.
pub proof fn order_lists_each_job_once(
    projects: Seq<ProjectConfig>,
    systems: Seq<System>,
    operations: Seq<Operation>,
    to: int,
)
    requires
        history(projects, systems, operations),
        systems[0].store.valid(),
        systems[0].store.order.no_duplicates(),
        0 <= to < systems.len(),
    ensures
        systems[to].store.valid(),
        systems[to].store.order.no_duplicates(),
    decreases to,
{
    if to > 0 {
        order_lists_each_job_once(projects, systems, operations, to - 1);
        assert(stepped(projects, systems[to - 1], operations[to - 1], systems[to - 1 + 1]));
        lemma_step_keeps_validity(projects, systems[to - 1], operations[to - 1], systems[to]);
    }
}

/// The ids of the jobs that were not running, in their order.
pub open spec fn settled_ids(jobs: Seq<JobView>) -> Seq<u128>
    decreases jobs.len(),
{
    if jobs.len() == 0 {
        Seq::empty()
    } else if jobs.last().status == JobStatus::Running {
        settled_ids(jobs.drop_last())
    } else {
        settled_ids(jobs.drop_last()).push(jobs.last().id)
    }
}

/// Law: after a restart no lock is held and no job is running; the jobs that were
/// not running are there, in their order.
pub proof fn restored_store_is_at_rest(jobs: Seq<JobView>)
    ensures
        restored(jobs).locks == Set::<Seq<char>>::empty(),
        restored(jobs).order == settled_ids(jobs),
        forall|id: u128| #[trigger] restored(jobs).jobs.contains_key(id) ==> restored(
            jobs,
        ).jobs[id].status != JobStatus::Running && jobs.contains(restored(jobs).jobs[id]),
    decreases jobs.len(),
{
    if jobs.len() > 0 {
        let earlier = jobs.drop_last();
        restored_store_is_at_rest(earlier);
        assert forall|id: u128| #[trigger] restored(jobs).jobs.contains_key(id) implies restored(
            jobs,
        ).jobs[id].status != JobStatus::Running && jobs.contains(restored(jobs).jobs[id]) by {
            let job = restored(jobs).jobs[id];
            if restored(earlier).jobs.contains_key(id) && job == restored(earlier).jobs[id] {
                let i = choose|i: int| 0 <= i < earlier.len() && earlier[i] == job;
                assert(jobs[i] == job);
            } else {
                assert(jobs[jobs.len() - 1] == job);
            }
        }
    }
}

/// Law: a stored job that was not running is there after a restart, as it was
/// stored, where no other stored job has its id.
pub proof fn settled_job_is_restored(jobs: Seq<JobView>, at: int)
    requires
        0 <= at < jobs.len(),
        jobs[at].status != JobStatus::Running,
        forall|i: int| 0 <= i < jobs.len() && i != at ==> (#[trigger] jobs[i]).id != jobs[at].id,
    ensures
        restored(jobs).jobs.contains_key(jobs[at].id),
        restored(jobs).jobs[jobs[at].id] == jobs[at],
    decreases jobs.len(),
{
    let earlier = jobs.drop_last();
    if at < jobs.len() - 1 {
        assert forall|i: int| 0 <= i < earlier.len() && i != at implies (#[trigger] earlier[i]).id
            != earlier[at].id by {
            assert(earlier[i] == jobs[i]);
        }
        settled_job_is_restored(earlier, at);
        assert(jobs[jobs.len() - 1].id != jobs[at].id);
    }
}

/// Law: where no two stored jobs share an id, the store after a restart lists each job
/// that is there, and each once; so does an empty store.
pub proof fn restored_store_lists_each_job_once(jobs: Seq<JobView>)
    requires
        forall|i: int, j: int|
            0 <= i < jobs.len() && 0 <= j < jobs.len() && i != j ==> (#[trigger] jobs[i]).id != (
            #[trigger] jobs[j]).id,
    ensures
        restored(jobs).valid(),
        restored(jobs).order.no_duplicates(),
        StoreView::empty().valid(),
        StoreView::empty().order.no_duplicates(),
    decreases jobs.len(),
{
    if jobs.len() > 0 {
        let earlier = jobs.drop_last();
        let last = jobs.last();
        assert forall|i: int, j: int|
            0 <= i < earlier.len() && 0 <= j < earlier.len() && i != j implies (
        #[trigger] earlier[i]).id != (#[trigger] earlier[j]).id by {
            assert(earlier[i] == jobs[i] && earlier[j] == jobs[j]);
        }
        restored_store_lists_each_job_once(earlier);
        if last.status != JobStatus::Running {
            let before = restored(earlier);
            let after = restored(jobs);
            restored_store_is_at_rest(earlier);
            if before.jobs.contains_key(last.id) {
                let stored = before.jobs[last.id];
                let i = choose|i: int| 0 <= i < earlier.len() && earlier[i] == stored;
                assert(jobs[i].id == jobs[jobs.len() - 1].id);
            }
            assert forall|key: u128| #[trigger]
                after.jobs.contains_key(key) <==> after.order.contains(key) by {
                assert(before.jobs.contains_key(key) <==> before.order.contains(key));
                if key == last.id {
                    assert(after.order[before.order.len() as int] == key);
                } else if before.order.contains(key) {
                    let i = choose|i: int| 0 <= i < before.order.len() && before.order[i] == key;
                    assert(after.order[i] == key);
                }
            }
            assert(!before.order.contains(last.id));
        }
    }
}

/// Law: while a run is in its pipeline or its health check, another job of the same branch
/// of the same repository, whatever else it is, waits when a worker picks it: it is not
/// started, and is to be tried again after two seconds.
pub proof fn job_waits_while_its_branch_is_busy(
    projects: Seq<ProjectConfig>,
    systems: Seq<System>,
    operations: Seq<Operation>,
    at: int,
    run: int,
    id: u128,
    now: Timestamp,
    outcome: Result<BeginOutcome, RunError>,
    project: int,
)
    requires
        history(projects, systems, operations),
        at_rest(systems[0]),
        0 <= at < operations.len(),
        operations[at] == (Operation::Begin { id, now, outcome }),
        0 <= run < systems[at].runs.len(),
        systems[at].runs[run].under_way(),
        systems[at].store.jobs.contains_key(id),
        systems[at].store.jobs[id].status != JobStatus::Cancelled,
        systems[at].store.jobs[id].repository
            == systems[at].store.jobs[systems[at].runs[run].id].repository,
        systems[at].store.jobs[id].branch
            == systems[at].store.jobs[systems[at].runs[run].id].branch,
        0 <= project < projects.len(),
        projects[project].id@ == systems[at].store.jobs[id].project_id,
    ensures
        outcome == Ok::<BeginOutcome, RunError>(BeginOutcome::WaitForLock { retry_secs: 2 }),
        systems[at + 1].runs == systems[at].runs,
        systems[at + 1].store.jobs[id].status == systems[at].store.jobs[id].status,
        systems[at + 1].store.jobs[id].started_at == systems[at].store.jobs[id].started_at,
        systems[at + 1].store.jobs[id].current_stage == Some("waiting_lock"@),
{
    let before = systems[at];
    assert(stepped(projects, before, operations[at], systems[at + 1]));
    locks_belong_to_runs(projects, systems, operations, at);
    runs_hold_the_locks_of_their_jobs(projects, systems, operations, at);
    lemma_issued(before.runs[run]);
    let lock = before.runs[run].lock;
    assert(before.store.locks.contains(lock));
    assert(before.store.jobs[id].lock() == lock);
    let wanted = has_id(before.store.jobs[id].project_id);
    assert(wanted(projects[project]));
}

/// Law: a job that waits, and whose project is configured, starts when a worker picks it
/// where every run that has not given its lock back is that of another branch or
/// repository, no colon standing in the names of the repositories.
pub proof fn job_starts_while_other_branches_are_busy(
    projects: Seq<ProjectConfig>,
    systems: Seq<System>,
    operations: Seq<Operation>,
    at: int,
    id: u128,
    now: Timestamp,
    outcome: Result<BeginOutcome, RunError>,
    project: int,
)
    requires
        history(projects, systems, operations),
        at_rest(systems[0]),
        0 <= at < operations.len(),
        operations[at] == (Operation::Begin { id, now, outcome }),
        systems[at].store.jobs.contains_key(id),
        systems[at].store.jobs[id].status != JobStatus::Cancelled,
        !systems[at].store.jobs[id].repository.contains(':'),
        0 <= project < projects.len(),
        projects[project].id@ == systems[at].store.jobs[id].project_id,
        forall|i: int|
            0 <= i < systems[at].runs.len() && (#[trigger] systems[at].runs[i]).holds_lock() ==> {
                let busy = systems[at].store.jobs[systems[at].runs[i].id];
                let job = systems[at].store.jobs[id];
                &&& !busy.repository.contains(':')
                &&& busy.repository != job.repository || busy.branch != job.branch
            },
    ensures
        outcome matches Ok(BeginOutcome::Started { .. }),
        systems[at + 1].store.jobs[id].status == JobStatus::Running,
        systems[at + 1].store.jobs[id].started_at == Some(now),
        systems[at + 1].runs.len() == systems[at].runs.len() + 1,
        systems[at + 1].runs.last().id == id,
{
    let before = systems[at];
    let job = before.store.jobs[id];
    assert(stepped(projects, before, operations[at], systems[at + 1]));
    locks_belong_to_runs(projects, systems, operations, at);
    runs_hold_the_locks_of_their_jobs(projects, systems, operations, at);
    if before.store.locks.contains(job.lock()) {
        let i = choose|i: int|
            0 <= i < before.runs.len() && (#[trigger] before.runs[i]).holds_lock()
                && before.runs[i].lock == job.lock();
        other_branch_means_other_lock(before.store.jobs[before.runs[i].id], job);
    }
    let wanted = has_id(job.project_id);
    assert(wanted(projects[project]));
}

/// The time at which an operation dates something, if it does.
pub open spec fn dated(operation: Operation) -> Option<Timestamp> {
    match operation {
        Operation::Add(job) => Some(job.created_at),
        Operation::Begin { now, .. } => Some(now),
        Operation::Change { change, .. } => match change {
            JobChange::Log(entry) => Some(entry.ts),
            JobChange::Cancel(now) => Some(now),
            JobChange::Fail { now, .. } => Some(now),
            _ => None,
        },
        Operation::Perform { now, .. } => Some(now),
        _ => None,
    }
}

/// Whether nothing in a job is dated after a time.
pub open spec fn nothing_after(job: JobView, time: Timestamp) -> bool {
    &&& job.created_at.upto(time)
    &&& job.started_at is Some ==> job.started_at->0.upto(time)
    &&& job.finished_at is Some ==> job.finished_at->0.upto(time)
    &&& forall|i: int| 0 <= i < job.logs.len() ==> (#[trigger] job.logs[i]).ts.upto(time)
}

/// Whether the clock does not go back: no operation is dated before an earlier one or
/// before something in the jobs that were there at first; and new jobs are new.
pub open spec fn clock_goes_on(systems: Seq<System>, operations: Seq<Operation>) -> bool {
    &&& forall|i: int, j: int|
        0 <= i <= j < operations.len() && dated(#[trigger] operations[i]) is Some && dated(
            #[trigger] operations[j],
        ) is Some ==> dated(operations[i])->0.upto(dated(operations[j])->0)
    &&& forall|id: u128, j: int|
        #![trigger systems[0].store.jobs[id], operations[j]]
        systems[0].store.jobs.contains_key(id) && 0 <= j < operations.len() && dated(
            operations[j],
        ) is Some ==> nothing_after(systems[0].store.jobs[id], dated(operations[j])->0)
    &&& forall|i: int|
        0 <= i < operations.len() ==> (#[trigger] operations[i] matches Operation::Add(job) ==> {
            &&& job.started_at is None
            &&& job.finished_at is None
            &&& job.logs.len() == 0
        })
}

/// Law: with a clock that does not go back, nothing in a job is dated after an operation
/// that is still to come.
pub proof fn jobs_are_dated_in_the_past(
    projects: Seq<ProjectConfig>,
    systems: Seq<System>,
    operations: Seq<Operation>,
    id: u128,
    to: int,
    next: int,
)
    requires
        history(projects, systems, operations),
        clock_goes_on(systems, operations),
        0 <= to <= next < operations.len(),
        dated(operations[next]) is Some,
        systems[to].store.jobs.contains_key(id),
    ensures
        nothing_after(systems[to].store.jobs[id], dated(operations[next])->0),
    decreases to,
{
    let time = dated(operations[next])->0;
    if to == 0 {
        assert(nothing_after(systems[0].store.jobs[id], dated(operations[next])->0));
    } else {
        let before = systems[to - 1];
        let operation = operations[to - 1];
        let job = systems[to].store.jobs[id];
        assert(stepped(projects, before, operation, systems[to - 1 + 1]));
        if dated(operation) is Some {
            assert(dated(operation)->0.upto(time));
        }
        if before.store.jobs.contains_key(id) {
            jobs_are_dated_in_the_past(projects, systems, operations, id, to - 1, next);
            let earlier = before.store.jobs[id];
            assert forall|i: int| 0 <= i < job.logs.len() implies (
            #[trigger] job.logs[i]).ts.upto(time) by {
                if i < earlier.logs.len() {
                    assert(job.logs[i] == earlier.logs[i]);
                }
            }
        }
    }
}

/// Law: with a clock that does not go back, a job that a run marks as ended ends at the
/// time of that step, which is not before the job was made, started, or last logged.
pub proof fn job_ends_after_it_began(
    projects: Seq<ProjectConfig>,
    systems: Seq<System>,
    operations: Seq<Operation>,
    at: int,
    run: int,
    now: Timestamp,
)
    requires
        history(projects, systems, operations),
        clock_goes_on(systems, operations),
        0 <= at < operations.len(),
        operations[at] == (Operation::Perform { run, now }),
        ends_job(systems[at].runs[run].issued()[systems[at].runs[run].done as int]),
        systems[at].store.jobs.contains_key(systems[at].runs[run].id),
    ensures
        ({
            let job = systems[at + 1].store.jobs[systems[at].runs[run].id];
            &&& job.finished_at == Some(now)
            &&& job.created_at.upto(now)
            &&& job.started_at is Some ==> job.started_at->0.upto(now)
            &&& forall|i: int| 0 <= i < job.logs.len() ==> (#[trigger] job.logs[i]).ts.upto(now)
        }),
{
    let id = systems[at].runs[run].id;
    assert(stepped(projects, systems[at], operations[at], systems[at + 1]));
    jobs_are_dated_in_the_past(projects, systems, operations, id, at, at);
}

/// Law: with a clock that does not go back, the lines of a job's log stand in the order of
/// their times, if they do so at first.
pub proof fn log_is_in_the_order_of_time(
    projects: Seq<ProjectConfig>,
    systems: Seq<System>,
    operations: Seq<Operation>,
    id: u128,
    to: int,
    i: int,
    j: int,
)
    requires
        history(projects, systems, operations),
        clock_goes_on(systems, operations),
        0 <= to < systems.len(),
        systems[to].store.jobs.contains_key(id),
        systems[0].store.jobs.contains_key(id) ==> forall|m: int, n: int|
            0 <= m <= n < systems[0].store.jobs[id].logs.len() ==> (
            #[trigger] systems[0].store.jobs[id].logs[m]).ts.upto(
                (#[trigger] systems[0].store.jobs[id].logs[n]).ts,
            ),
        0 <= i <= j < systems[to].store.jobs[id].logs.len(),
    ensures
        systems[to].store.jobs[id].logs[i].ts.upto(systems[to].store.jobs[id].logs[j].ts),
    decreases to,
{
    if to > 0 {
        let before = systems[to - 1];
        let operation = operations[to - 1];
        let job = systems[to].store.jobs[id];
        assert(stepped(projects, before, operation, systems[to - 1 + 1]));
        if before.store.jobs.contains_key(id) {
            let earlier = before.store.jobs[id];
            if j < earlier.logs.len() {
                log_is_in_the_order_of_time(projects, systems, operations, id, to - 1, i, j);
                assert(job.logs[i] == earlier.logs[i] && job.logs[j] == earlier.logs[j]);
            } else {
                assert(dated(operation) is Some && job.logs[j].ts == dated(operation)->0);
                jobs_are_dated_in_the_past(
                    projects,
                    systems,
                    operations,
                    id,
                    to - 1,
                    to - 1,
                );
                if i < earlier.logs.len() {
                    assert(job.logs[i] == earlier.logs[i]);
                }
            }
        }
    }
}

/// Law: the jobs that are there after a restart stand in the order in which they were
/// stored.
pub proof fn restored_jobs_keep_their_order(jobs: Seq<JobView>, i: int, j: int)
    requires
        0 <= i < j < jobs.len(),
        jobs[i].status != JobStatus::Running,
        jobs[j].status != JobStatus::Running,
    ensures
        exists|p: int, q: int|
            0 <= p < q < restored(jobs).order.len() && #[trigger] restored(jobs).order[p]
                == jobs[i].id && #[trigger] restored(jobs).order[q] == jobs[j].id,
    decreases jobs.len(),
{
    let earlier = jobs.drop_last();
    let order = restored(jobs).order;
    let shorter = restored(earlier).order;
    if j < jobs.len() - 1 {
        restored_jobs_keep_their_order(earlier, i, j);
        let (p, q) = choose|p: int, q: int|
            0 <= p < q < shorter.len() && #[trigger] shorter[p] == earlier[i].id
                && #[trigger] shorter[q] == earlier[j].id;
        assert(order[p] == jobs[i].id && order[q] == jobs[j].id);
    } else {
        lemma_restored_job_is_listed(earlier, i);
        let p = choose|p: int| 0 <= p < shorter.len() && #[trigger] shorter[p] == earlier[i].id;
        let q = shorter.len() as int;
        assert(order[p] == jobs[i].id && order[q] == jobs[j].id);
    }
}

proof fn lemma_restored_job_is_listed(jobs: Seq<JobView>, i: int)
    requires
        0 <= i < jobs.len(),
        jobs[i].status != JobStatus::Running,
    ensures
        exists|p: int|
            0 <= p < restored(jobs).order.len() && #[trigger] restored(jobs).order[p] == jobs[i].id,
    decreases jobs.len(),
{
    let earlier = jobs.drop_last();
    let order = restored(jobs).order;
    let shorter = restored(earlier).order;
    if i < jobs.len() - 1 {
        lemma_restored_job_is_listed(earlier, i);
        let p = choose|p: int| 0 <= p < shorter.len() && #[trigger] shorter[p] == earlier[i].id;
        assert(order[p] == jobs[i].id);
    } else {
        assert(order[shorter.len() as int] == jobs[i].id);
    }
}

} // verus!
