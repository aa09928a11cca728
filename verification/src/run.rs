//! The run of a job that a worker has started: what is done, and in which order,
//! until it has ended.

use vstd::prelude::*;
use vstd::string::*;

use crate::job::{JobLogEntry, JobView, LogEntryView, LogLine, LogLineView};
use crate::queue::log_line_at;
use crate::status::{DeploymentStatus, JobStatus};
use crate::store::{StateStore, StoreView};
use crate::text::{join4, opt_text};
use crate::time::Timestamp;

verus! {

/// One thing to be done for a job.
#[derive(Debug)]
pub enum Effect {
    /// Make it possible to tell the job that it is cancelled.
    RegisterCancelFlag,
    /// Store the job.
    Persist,
    /// Write this to its log.
    Log(LogLine),
    /// Find the digest of its image.
    HydrateArtifact,
    /// Let other jobs run on its branch.
    ReleaseLock(String),
    /// Stop telling the job that it is cancelled.
    DropCancelFlag,
    /// Mark it as succeeded.
    Complete,
    /// Mark it as ended with an error.
    End { status: JobStatus, error: String },
    /// Store what became of it.
    RecordDeployment {
        result: DeploymentStatus,
        healthcheck_status: Option<u16>,
        healthcheck_error: Option<String>,
    },
}

/// One thing to be done for a job, with texts as sequences of characters.
pub enum EffectView {
    RegisterCancelFlag,
    Persist,
    Log(LogLineView),
    HydrateArtifact,
    ReleaseLock(Seq<char>),
    DropCancelFlag,
    Complete,
    End { status: JobStatus, error: Seq<char> },
    RecordDeployment {
        result: DeploymentStatus,
        healthcheck_status: Option<u16>,
        healthcheck_error: Option<Seq<char>>,
    },
}

impl View for Effect {
    type V = EffectView;

    open spec fn view(&self) -> EffectView {
        match self {
            Effect::RegisterCancelFlag => EffectView::RegisterCancelFlag,
            Effect::Persist => EffectView::Persist,
            Effect::Log(line) => EffectView::Log(line@),
            Effect::HydrateArtifact => EffectView::HydrateArtifact,
            Effect::ReleaseLock(lock) => EffectView::ReleaseLock(lock@),
            Effect::DropCancelFlag => EffectView::DropCancelFlag,
            Effect::Complete => EffectView::Complete,
            Effect::End { status, error } => EffectView::End { status: *status, error: error@ },
            Effect::RecordDeployment { result, healthcheck_status, healthcheck_error } =>
                EffectView::RecordDeployment {
                    result: *result,
                    healthcheck_status: *healthcheck_status,
                    healthcheck_error: opt_text(*healthcheck_error),
                },
        }
    }
}

/// What a list of things to be done says.
pub open spec fn effect_views(effects: Seq<Effect>) -> Seq<EffectView> {
    effects.map_values(|effect: Effect| effect@)
}

/// What is done before the pipeline of a job.
pub open spec fn start_effects() -> Seq<EffectView> {
    seq![
        EffectView::RegisterCancelFlag,
        EffectView::Persist,
        EffectView::Log(
            LogLineView {
                level: "info"@,
                stage: "worker"@,
                message: "Job picked by worker"@,
            },
        ),
    ]
}

/// What is done once the pipeline and the health check are over, however they
/// ended.
pub open spec fn wrap_up_effects(lock: Seq<char>) -> Seq<EffectView> {
    seq![
        EffectView::HydrateArtifact,
        EffectView::ReleaseLock(lock),
        EffectView::DropCancelFlag,
    ]
}

/// What is done for a job that has succeeded.
pub open spec fn success_effects(healthcheck_status: Option<u16>) -> Seq<EffectView> {
    seq![
        EffectView::Complete,
        EffectView::Log(
            LogLineView {
                level: "info"@,
                stage: "system"@,
                message: "Job finished successfully"@,
            },
        ),
        EffectView::Persist,
        EffectView::RecordDeployment {
            result: DeploymentStatus::Success,
            healthcheck_status,
            healthcheck_error: None,
        },
    ]
}

/// The state in which a job ends that did not succeed.
pub open spec fn failure_status(cancelled: bool) -> JobStatus {
    if cancelled {
        JobStatus::Cancelled
    } else {
        JobStatus::Failed
    }
}

/// The line that tells how a job ended that did not succeed.
pub open spec fn failure_line(error: Seq<char>, cancelled: bool) -> LogLineView {
    LogLineView {
        level: if cancelled {
            "warn"@
        } else {
            "error"@
        },
        stage: "system"@,
        message: "Job finished with "@ + failure_status(cancelled).variant() + ": "@ + error,
    }
}

/// What is done for a job that did not succeed. A cancelled job leaves no
/// deployment behind.
pub open spec fn failure_effects(error: Seq<char>, cancelled: bool) -> Seq<EffectView> {
    let marked = seq![
        EffectView::End { status: failure_status(cancelled), error },
        EffectView::Log(failure_line(error, cancelled)),
        EffectView::Persist,
    ];
    if cancelled {
        marked
    } else {
        marked.push(
            EffectView::RecordDeployment {
                result: DeploymentStatus::Failed,
                healthcheck_status: None,
                healthcheck_error: Some(error),
            },
        )
    }
}

/// What the run of a job waits for.
#[derive(Clone, Copy, Debug, PartialEq, Eq, Structural)]
pub enum Phase {
    /// The end of the pipeline.
    Pipeline,
    /// The end of the health check.
    Healthcheck,
    /// Whether the job was cancelled.
    CancelFlag,
    /// Nothing: the job has ended.
    Finished,
}

/// The run of a job that a worker has started.
#[derive(Debug)]
pub struct JobRun {
    repo_lock: String,
    phase: Phase,
    error: String,
}

/// Where a run stands: the lock under which the job runs, what the run waits for,
/// and why the job did not succeed, where it did not.
#[verifier::ext_equal]
pub struct RunView {
    pub lock: Seq<char>,
    pub phase: Phase,
    pub error: Seq<char>,
}

impl View for JobRun {
    type V = RunView;

    closed spec fn view(&self) -> RunView {
        RunView { lock: self.repo_lock@, phase: self.phase, error: self.error@ }
    }
}

/// The beginning of a run, and what is done then.
pub open spec fn begin_run(lock: Seq<char>) -> (RunView, Seq<EffectView>) {
    (RunView { lock, phase: Phase::Pipeline, error: Seq::empty() }, start_effects())
}

/// Where a run stands whose pipeline has ended, and what is done then.
pub open spec fn after_pipeline(run: RunView, outcome: Result<(), Seq<char>>) -> (
    RunView,
    Seq<EffectView>,
) {
    match outcome {
        Ok(_) => (RunView { phase: Phase::Healthcheck, ..run }, Seq::empty()),
        Err(error) => (
            RunView { phase: Phase::CancelFlag, error, ..run },
            wrap_up_effects(run.lock),
        ),
    }
}

/// Where a run stands whose health check has ended, and what is done then.
pub open spec fn after_health(run: RunView, outcome: Result<Option<u16>, Seq<char>>) -> (
    RunView,
    Seq<EffectView>,
) {
    match outcome {
        Ok(status) => (
            RunView { phase: Phase::Finished, ..run },
            wrap_up_effects(run.lock) + success_effects(status),
        ),
        Err(error) => (
            RunView { phase: Phase::CancelFlag, error, ..run },
            wrap_up_effects(run.lock),
        ),
    }
}

/// Where a run stands that did not succeed, once it is known whether the job was
/// cancelled, and what is done then.
pub open spec fn after_flag(run: RunView, cancelled: bool) -> (RunView, Seq<EffectView>) {
    (RunView { phase: Phase::Finished, ..run }, failure_effects(run.error, cancelled))
}

/// An outcome, with its error as a sequence of characters.
pub open spec fn outcome_text<T>(outcome: Result<T, String>) -> Result<T, Seq<char>> {
    match outcome {
        Ok(value) => Ok(value),
        Err(error) => Err(error@),
    }
}

impl JobRun {
    /// Begins the run of a job under a lock.
    pub fn begin(repo_lock: String) -> (begun: (JobRun, Vec<Effect>))
        ensures
            (begun.0@, effect_views(begun.1@)) == begin_run(repo_lock@),
    {
        let line = LogLine {
            level: "info",
            stage: "worker".to_owned(),
            message: "Job picked by worker".to_owned(),
        };
        let effects = vec![Effect::RegisterCancelFlag, Effect::Persist, Effect::Log(line)];
        assert(effect_views(effects@) =~= start_effects());
        let run = JobRun { repo_lock, phase: Phase::Pipeline, error: String::new() };
        assert(run@ =~= begin_run(repo_lock@).0);
        (run, effects)
    }

    /// What the run waits for.
    pub fn phase(&self) -> (phase: Phase)
        ensures
            phase == self@.phase,
    {
        self.phase
    }

    /// The things that are done once the pipeline and the health check are over.
    fn wrap_up(&self) -> (effects: Vec<Effect>)
        ensures
            effect_views(effects@) == wrap_up_effects(self@.lock),
    {
        let effects = vec![
            Effect::HydrateArtifact,
            Effect::ReleaseLock(self.repo_lock.clone()),
            Effect::DropCancelFlag,
        ];
        assert(effect_views(effects@) =~= wrap_up_effects(self@.lock));
        effects
    }

    /// Takes in how the pipeline ended.
    pub fn pipeline_ended(&mut self, outcome: Result<(), String>) -> (effects: Vec<Effect>)
        requires
            old(self)@.phase == Phase::Pipeline,
        ensures
            (final(self)@, effect_views(effects@)) == after_pipeline(
                old(self)@,
                outcome_text(outcome),
            ),
    {
        match outcome {
            Ok(_) => {
                self.phase = Phase::Healthcheck;
                let effects: Vec<Effect> = Vec::new();
                assert(effect_views(effects@) =~= Seq::empty());
                effects
            },
            Err(error) => {
                self.phase = Phase::CancelFlag;
                self.error = error;
                self.wrap_up()
            },
        }
    }

    /// Takes in how the health check ended: with the status of the answer, if a
    /// check was made, or with an error.
    pub fn health_ended(&mut self, outcome: Result<Option<u16>, String>) -> (effects: Vec<Effect>)
        requires
            old(self)@.phase == Phase::Healthcheck,
        ensures
            (final(self)@, effect_views(effects@)) == after_health(
                old(self)@,
                outcome_text(outcome),
            ),
    {
        match outcome {
            Ok(healthcheck_status) => {
                self.phase = Phase::Finished;
                let mut effects = self.wrap_up();
                let line = LogLine {
                    level: "info",
                    stage: "system".to_owned(),
                    message: "Job finished successfully".to_owned(),
                };
                let ghost before = effects@;
                effects.push(Effect::Complete);
                effects.push(Effect::Log(line));
                effects.push(Effect::Persist);
                effects.push(
                    Effect::RecordDeployment {
                        result: DeploymentStatus::Success,
                        healthcheck_status,
                        healthcheck_error: None,
                    },
                );
                assert(effect_views(effects@) =~= effect_views(before) + success_effects(
                    healthcheck_status,
                ));
                effects
            },
            Err(error) => {
                self.phase = Phase::CancelFlag;
                self.error = error;
                self.wrap_up()
            },
        }
    }

    /// Takes in whether a job that did not succeed had been cancelled.
    pub fn cancel_flag_read(&mut self, cancelled: bool) -> (effects: Vec<Effect>)
        requires
            old(self)@.phase == Phase::CancelFlag,
        ensures
            (final(self)@, effect_views(effects@)) == after_flag(old(self)@, cancelled),
    {
        self.phase = Phase::Finished;
        let status = if cancelled {
            JobStatus::Cancelled
        } else {
            JobStatus::Failed
        };
        let line = LogLine {
            level: if cancelled {
                "warn"
            } else {
                "error"
            },
            stage: "system".to_owned(),
            message: join4(
                "Job finished with ",
                status.variant_name(),
                ": ",
                self.error.as_str(),
            ),
        };
        let mut effects = vec![
            Effect::End { status, error: self.error.clone() },
            Effect::Log(line),
            Effect::Persist,
        ];
        if !cancelled {
            effects.push(
                Effect::RecordDeployment {
                    result: DeploymentStatus::Failed,
                    healthcheck_status: None,
                    healthcheck_error: Some(self.error.clone()),
                },
            );
        }
        assert(effect_views(effects@) =~= failure_effects(old(self)@.error, cancelled));
        effects
    }
}

/// What one thing that is done for the job `id` at the time `now` makes of the
/// store. What goes to the database and to the registry leaves it as it is.
pub open spec fn applied(store: StoreView, id: u128, effect: EffectView, now: Timestamp) -> StoreView {
    match effect {
        EffectView::Log(line) => store.update(id, |job: JobView| job.logged(line.at(now))),
        EffectView::ReleaseLock(lock) => StoreView { locks: store.locks.remove(lock), ..store },
        EffectView::Complete => store.update(id, |job: JobView| job.completed(now)),
        EffectView::End { status, error } => store.update(
            id,
            |job: JobView| job.ended(status, error, now),
        ),
        _ => store,
    }
}

/// Does the part of an effect that concerns the store, at the time `now`; gives
/// back the log entry, where one was written.
pub fn apply_effect_at(store: &mut StateStore, id: u128, effect: Effect, now: Timestamp) -> (entry:
    Option<JobLogEntry>)
    requires
        old(store).wf(),
    ensures
        final(store).wf(),
        final(store)@ == applied(old(store)@, id, effect@, now),
        match entry {
            Some(entry) => effect@ matches EffectView::Log(line) && entry@ == line.at(now),
            None => !(effect is Log),
        },
{
    match effect {
        Effect::Log(line) => {
            let entry = log_line_at(store, id, line, now);
            assert(store@ =~= applied(old(store)@, id, effect@, now));
            Some(entry)
        },
        Effect::ReleaseLock(lock) => {
            store.release_lock(&lock);
            None
        },
        Effect::Complete => {
            store.complete_job_at(id, now);
            None
        },
        Effect::End { status, error } => {
            store.end_job_at(id, status, error, now);
            None
        },
        _ => None,
    }
}

/// Does the part of an effect that concerns the store now; gives back the log
/// entry, where one was written.
pub fn apply_effect(store: &mut StateStore, id: u128, effect: Effect) -> (entry: Option<JobLogEntry>)
    requires
        old(store).wf(),
    ensures
        final(store).wf(),
        exists|now: Timestamp|
            #![trigger now.valid()]
            now.valid() && now.is_reading() && final(store)@ == applied(old(store)@, id, effect@, now)
                && match entry {
                Some(entry) => effect@ matches EffectView::Log(line) && entry@ == line.at(now),
                None => !(effect is Log),
            },
{
    let now = Timestamp::now();
    apply_effect_at(store, id, effect, now)
}

/// How a run ends: as the pipeline does, where it fails, and else as the health
/// check does.
pub open spec fn run_result(
    pipeline: Result<(), Seq<char>>,
    health: Result<Option<u16>, Seq<char>>,
) -> Result<Option<u16>, Seq<char>> {
    match pipeline {
        Ok(_) => health,
        Err(error) => Err(error),
    }
}

/// Where a run stands in the end, and what was done in it in all, where its
/// pipeline and its health check end like this, `cancelled` saying whether the job
/// was cancelled.
pub open spec fn complete_run(
    lock: Seq<char>,
    pipeline: Result<(), Seq<char>>,
    health: Result<Option<u16>, Seq<char>>,
    cancelled: bool,
) -> (RunView, Seq<EffectView>) {
    let (begun, first) = begin_run(lock);
    let (ran, second) = after_pipeline(begun, pipeline);
    let (checked, third) = if ran.phase == Phase::Healthcheck {
        after_health(ran, health)
    } else {
        (ran, Seq::empty())
    };
    let (ended, fourth) = if checked.phase == Phase::CancelFlag {
        after_flag(checked, cancelled)
    } else {
        (checked, Seq::empty())
    };
    (ended, first + second + third + fourth)
}

/// What is done in a run in all.
pub open spec fn run_effects(
    lock: Seq<char>,
    pipeline: Result<(), Seq<char>>,
    health: Result<Option<u16>, Seq<char>>,
    cancelled: bool,
) -> Seq<EffectView> {
    complete_run(lock, pipeline, health, cancelled).1
}

/// Law: every run comes to its end, however the pipeline and the health check end.
pub proof fn every_run_finishes(
    lock: Seq<char>,
    pipeline: Result<(), Seq<char>>,
    health: Result<Option<u16>, Seq<char>>,
    cancelled: bool,
)
    ensures
        complete_run(lock, pipeline, health, cancelled).0.phase == Phase::Finished,
{
}

/// What is done once the pipeline and the health check are over, where they end like
/// this.
pub open spec fn end_effects(
    lock: Seq<char>,
    result: Result<Option<u16>, Seq<char>>,
    cancelled: bool,
) -> Seq<EffectView> {
    wrap_up_effects(lock) + match result {
        Ok(healthcheck_status) => success_effects(healthcheck_status),
        Err(error) => failure_effects(error, cancelled),
    }
}

/// Law: what is done in a run is what is done before the pipeline, and what is done
/// once the pipeline and the health check are over.
pub proof fn run_is_its_start_and_its_end(
    lock: Seq<char>,
    pipeline: Result<(), Seq<char>>,
    health: Result<Option<u16>, Seq<char>>,
    cancelled: bool,
)
    ensures
        run_effects(lock, pipeline, health, cancelled) == start_effects() + end_effects(
            lock,
            run_result(pipeline, health),
            cancelled,
        ),
{
    assert(run_effects(lock, pipeline, health, cancelled) =~= start_effects() + end_effects(
        lock,
        run_result(pipeline, health),
        cancelled,
    ));
}

/// Whether an effect marks a job as ended.
pub open spec fn ends_job(effect: EffectView) -> bool {
    effect is Complete || effect is End
}

/// Law: every run gives the lock back exactly once, before the job is marked as
/// ended.
pub proof fn lock_is_released_once(
    lock: Seq<char>,
    pipeline: Result<(), Seq<char>>,
    health: Result<Option<u16>, Seq<char>>,
    cancelled: bool,
    i: int,
    j: int,
)
    requires
        0 <= i < run_effects(lock, pipeline, health, cancelled).len(),
        0 <= j < run_effects(lock, pipeline, health, cancelled).len(),
    ensures
        run_effects(lock, pipeline, health, cancelled).contains(EffectView::ReleaseLock(lock)),
        ({
            let effects = run_effects(lock, pipeline, health, cancelled);
            &&& effects[i] is ReleaseLock ==> effects[i] == EffectView::ReleaseLock(lock)
            &&& effects[i] is ReleaseLock && effects[j] is ReleaseLock ==> i == j
            &&& effects[i] is ReleaseLock && ends_job(effects[j]) ==> i < j
        }),
{
    run_is_its_start_and_its_end(lock, pipeline, health, cancelled);
    let effects = run_effects(lock, pipeline, health, cancelled);
    assert(effects[4] == EffectView::ReleaseLock(lock));
}

/// Law: every run marks the job as ended exactly once: as succeeded where the
/// pipeline and the health check succeeded, else as cancelled where it was
/// cancelled, and else as failed.
pub proof fn job_ends_once(
    lock: Seq<char>,
    pipeline: Result<(), Seq<char>>,
    health: Result<Option<u16>, Seq<char>>,
    cancelled: bool,
    i: int,
)
    requires
        0 <= i < run_effects(lock, pipeline, health, cancelled).len(),
    ensures
        ends_job(run_effects(lock, pipeline, health, cancelled)[i]) <==> i == 6,
        run_effects(lock, pipeline, health, cancelled).len() > 6,
        run_effects(lock, pipeline, health, cancelled)[6] == match run_result(pipeline, health) {
            Ok(_) => EffectView::Complete,
            Err(error) => EffectView::End { status: failure_status(cancelled), error },
        },
{
    run_is_its_start_and_its_end(lock, pipeline, health, cancelled);
}

/// Law: a run records a deployment exactly where the job was not cancelled or
/// succeeded all the same; it is recorded once, as the last thing that is done, and
/// as successful exactly where the pipeline and the health check succeeded.
pub proof fn deployment_is_recorded_last(
    lock: Seq<char>,
    pipeline: Result<(), Seq<char>>,
    health: Result<Option<u16>, Seq<char>>,
    cancelled: bool,
    i: int,
)
    requires
        0 <= i < run_effects(lock, pipeline, health, cancelled).len(),
    ensures
        ({
            let effects = run_effects(lock, pipeline, health, cancelled);
            let result = run_result(pipeline, health);
            &&& effects[i] is RecordDeployment ==> i == effects.len() - 1
            &&& effects.last() is RecordDeployment <==> result is Ok || !cancelled
            &&& effects.last() is RecordDeployment ==> effects.last() == match result {
                Ok(healthcheck_status) => EffectView::RecordDeployment {
                    result: DeploymentStatus::Success,
                    healthcheck_status,
                    healthcheck_error: None,
                },
                Err(error) => EffectView::RecordDeployment {
                    result: DeploymentStatus::Failed,
                    healthcheck_status: None,
                    healthcheck_error: Some(error),
                },
            }
        }),
{
    run_is_its_start_and_its_end(lock, pipeline, health, cancelled);
}

/// What a list of things that are done, each at its time, makes of the store.
pub open spec fn applied_all(
    store: StoreView,
    id: u128,
    effects: Seq<EffectView>,
    times: Seq<Timestamp>,
) -> StoreView
    decreases effects.len(),
{
    if effects.len() == 0 {
        store
    } else {
        applied(
            applied_all(store, id, effects.drop_last(), times),
            id,
            effects.last(),
            times[effects.len() - 1],
        )
    }
}

proof fn lemma_applied_all_push(
    store: StoreView,
    id: u128,
    effects: Seq<EffectView>,
    effect: EffectView,
    times: Seq<Timestamp>,
)
    ensures
        applied_all(store, id, effects.push(effect), times) == applied(
            applied_all(store, id, effects, times),
            id,
            effect,
            times[effects.len() as int],
        ),
{
    assert(effects.push(effect).drop_last() =~= effects);
}

/// Law: what is done before the pipeline writes the first line of the run to the
/// job's log, and changes nothing else in the store.
pub proof fn start_of_a_run_is_logged(store: StoreView, id: u128, times: Seq<Timestamp>)
    requires
        store.jobs.contains_key(id),
    ensures
        applied_all(store, id, start_effects(), times) == store.update(
            id,
            |job: JobView| job.logged(start_effects()[2]->Log_0.at(times[2])),
        ),
{
    let none = Seq::<EffectView>::empty();
    let e = start_effects();
    let e1 = none.push(e[0]);
    let e2 = e1.push(e[1]);
    lemma_applied_all_push(store, id, none, e[0], times);
    lemma_applied_all_push(store, id, e1, e[1], times);
    lemma_applied_all_push(store, id, e2, e[2], times);
    assert(e2.push(e[2]) =~= e);
}

/// Law: whatever the store has become while the job ran, once everything is done
/// that follows the pipeline and the health check, the lock of the run is free and
/// no other lock is touched; the job has ended in the state that the pipeline, the
/// health check and a cancellation call for; its log has grown by the line of its
/// end; and every other job is as it was.
pub proof fn end_of_a_run_settles_the_store(
    store: StoreView,
    id: u128,
    lock: Seq<char>,
    result: Result<Option<u16>, Seq<char>>,
    cancelled: bool,
    times: Seq<Timestamp>,
)
    requires
        store.jobs.contains_key(id),
    ensures
        ({
            let job = store.jobs[id];
            let after = applied_all(store, id, end_effects(lock, result, cancelled), times);
            &&& after.locks == store.locks.remove(lock)
            &&& after.order == store.order
            &&& after.jobs == store.jobs.insert(
                id,
                match result {
                    Ok(status) => job.completed(times[3]).logged(
                        success_effects(status)[1]->Log_0.at(times[4]),
                    ),
                    Err(error) => job.ended(failure_status(cancelled), error, times[3]).logged(
                        failure_line(error, cancelled).at(times[4]),
                    ),
                },
            )
        }),
{
    let none = Seq::<EffectView>::empty();
    let e = end_effects(lock, result, cancelled);
    let e1 = none.push(e[0]);
    let e2 = e1.push(e[1]);
    let e3 = e2.push(e[2]);
    let e4 = e3.push(e[3]);
    let e5 = e4.push(e[4]);
    let e6 = e5.push(e[5]);
    lemma_applied_all_push(store, id, none, e[0], times);
    lemma_applied_all_push(store, id, e1, e[1], times);
    lemma_applied_all_push(store, id, e2, e[2], times);
    lemma_applied_all_push(store, id, e3, e[3], times);
    lemma_applied_all_push(store, id, e4, e[4], times);
    lemma_applied_all_push(store, id, e5, e[5], times);
    let after = applied_all(store, id, e, times);
    if e.len() == 6 {
        assert(e6 =~= e);
    } else {
        lemma_applied_all_push(store, id, e6, e[6], times);
        assert(e6.push(e[6]) =~= e);
    }
    assert(after.jobs =~= store.jobs.insert(id, after.jobs[id]));
}

/// Law: what is said of an effect is what it holds.
pub proof fn effect_is_seen_by_its_parts(
    line: LogLine,
    lock: String,
    status: JobStatus,
    error: String,
    result: DeploymentStatus,
    healthcheck_status: Option<u16>,
    healthcheck_error: Option<String>,
)
    ensures
        Effect::Log(line)@ == EffectView::Log(line@),
        Effect::ReleaseLock(lock)@ == EffectView::ReleaseLock(lock@),
        (Effect::End { status, error })@ == (EffectView::End { status, error: error@ }),
        (Effect::RecordDeployment { result, healthcheck_status, healthcheck_error })@ == (
        EffectView::RecordDeployment {
            result,
            healthcheck_status,
            healthcheck_error: opt_text(healthcheck_error),
        }),
        Effect::RegisterCancelFlag@ == EffectView::RegisterCancelFlag,
        Effect::DropCancelFlag@ == EffectView::DropCancelFlag,
        Effect::HydrateArtifact@ == EffectView::HydrateArtifact,
        Effect::Persist@ == EffectView::Persist,
        Effect::Complete@ == EffectView::Complete,
{
}

/// Law: a run whose pipeline and health check succeed is carried to its end in just these
/// steps, whether or not its job was cancelled meanwhile.
pub proof fn successful_run_takes_these_steps(
    lock: Seq<char>,
    healthcheck_status: Option<u16>,
    cancelled: bool,
)
    ensures
        run_effects(lock, Ok(()), Ok(healthcheck_status), cancelled) == seq![
            EffectView::RegisterCancelFlag,
            EffectView::Persist,
            EffectView::Log(
                LogLineView {
                    level: "info"@,
                    stage: "worker"@,
                    message: "Job picked by worker"@,
                },
            ),
            EffectView::HydrateArtifact,
            EffectView::ReleaseLock(lock),
            EffectView::DropCancelFlag,
            EffectView::Complete,
            EffectView::Log(
                LogLineView {
                    level: "info"@,
                    stage: "system"@,
                    message: "Job finished successfully"@,
                },
            ),
            EffectView::Persist,
            EffectView::RecordDeployment {
                result: DeploymentStatus::Success,
                healthcheck_status,
                healthcheck_error: None,
            },
        ],
{
    run_is_its_start_and_its_end(lock, Ok(()), Ok(healthcheck_status), cancelled);
    assert(run_effects(lock, Ok(()), Ok(healthcheck_status), cancelled) =~= seq![
        EffectView::RegisterCancelFlag,
        EffectView::Persist,
        start_effects()[2],
        EffectView::HydrateArtifact,
        EffectView::ReleaseLock(lock),
        EffectView::DropCancelFlag,
        EffectView::Complete,
        success_effects(healthcheck_status)[1],
        EffectView::Persist,
        success_effects(healthcheck_status)[3],
    ]);
}

/// Law: a run whose pipeline or health check fails is carried to its end in just these
/// steps; a job that was not cancelled is marked as failed and leaves a failed deployment
/// behind, one that was cancelled is marked as cancelled and leaves none.
pub proof fn failed_run_takes_these_steps(
    lock: Seq<char>,
    pipeline: Result<(), Seq<char>>,
    health: Result<Option<u16>, Seq<char>>,
    error: Seq<char>,
)
    requires
        pipeline == Err::<(), Seq<char>>(error) || (pipeline is Ok && health == Err::<
            Option<u16>,
            Seq<char>,
        >(error)),
    ensures
        run_effects(lock, pipeline, health, false) == seq![
            EffectView::RegisterCancelFlag,
            EffectView::Persist,
            EffectView::Log(
                LogLineView {
                    level: "info"@,
                    stage: "worker"@,
                    message: "Job picked by worker"@,
                },
            ),
            EffectView::HydrateArtifact,
            EffectView::ReleaseLock(lock),
            EffectView::DropCancelFlag,
            EffectView::End { status: JobStatus::Failed, error },
            EffectView::Log(
                LogLineView {
                    level: "error"@,
                    stage: "system"@,
                    message: "Job finished with "@ + "Failed"@ + ": "@ + error,
                },
            ),
            EffectView::Persist,
            EffectView::RecordDeployment {
                result: DeploymentStatus::Failed,
                healthcheck_status: None,
                healthcheck_error: Some(error),
            },
        ],
        run_effects(lock, pipeline, health, true) == seq![
            EffectView::RegisterCancelFlag,
            EffectView::Persist,
            EffectView::Log(
                LogLineView {
                    level: "info"@,
                    stage: "worker"@,
                    message: "Job picked by worker"@,
                },
            ),
            EffectView::HydrateArtifact,
            EffectView::ReleaseLock(lock),
            EffectView::DropCancelFlag,
            EffectView::End { status: JobStatus::Cancelled, error },
            EffectView::Log(
                LogLineView {
                    level: "warn"@,
                    stage: "system"@,
                    message: "Job finished with "@ + "Cancelled"@ + ": "@ + error,
                },
            ),
            EffectView::Persist,
        ],
{
    run_is_its_start_and_its_end(lock, pipeline, health, false);
    run_is_its_start_and_its_end(lock, pipeline, health, true);
    assert(run_effects(lock, pipeline, health, false) =~= seq![
        EffectView::RegisterCancelFlag,
        EffectView::Persist,
        start_effects()[2],
        EffectView::HydrateArtifact,
        EffectView::ReleaseLock(lock),
        EffectView::DropCancelFlag,
        failure_effects(error, false)[0],
        failure_effects(error, false)[1],
        EffectView::Persist,
        failure_effects(error, false)[3],
    ]);
    assert(run_effects(lock, pipeline, health, true) =~= seq![
        EffectView::RegisterCancelFlag,
        EffectView::Persist,
        start_effects()[2],
        EffectView::HydrateArtifact,
        EffectView::ReleaseLock(lock),
        EffectView::DropCancelFlag,
        failure_effects(error, true)[0],
        failure_effects(error, true)[1],
        EffectView::Persist,
    ]);
}

/// Law: an effect does to the store just what it says, at the time at which it is done: it
/// marks the job as ended at that time, writes the line with that time, or frees the lock;
/// what goes elsewhere leaves the store as it is.
pub proof fn effects_do_what_they_say(
    store: StoreView,
    id: u128,
    line: LogLineView,
    lock: Seq<char>,
    status: JobStatus,
    error: Seq<char>,
    effect: EffectView,
    now: Timestamp,
)
    requires
        store.jobs.contains_key(id),
    ensures
        applied(store, id, EffectView::Complete, now) == (StoreView {
            jobs: store.jobs.insert(
                id,
                JobView {
                    status: JobStatus::Success,
                    finished_at: Some(now),
                    current_stage: Some("completed"@),
                    ..store.jobs[id]
                },
            ),
            ..store
        }),
        applied(store, id, EffectView::End { status, error }, now) == (StoreView {
            jobs: store.jobs.insert(
                id,
                JobView {
                    status,
                    finished_at: Some(now),
                    error: Some(error),
                    ..store.jobs[id]
                },
            ),
            ..store
        }),
        applied(store, id, EffectView::Log(line), now) == (StoreView {
            jobs: store.jobs.insert(
                id,
                JobView {
                    logs: store.jobs[id].logs.push(
                        LogEntryView {
                            ts: now,
                            level: line.level,
                            stage: line.stage,
                            message: line.message,
                        },
                    ),
                    ..store.jobs[id]
                },
            ),
            ..store
        }),
        applied(store, id, EffectView::ReleaseLock(lock), now) == (StoreView {
            locks: store.locks.remove(lock),
            ..store
        }),
        effect is RegisterCancelFlag || effect is DropCancelFlag || effect is Persist
            || effect is HydrateArtifact || effect is RecordDeployment ==> applied(
            store,
            id,
            effect,
            now,
        ) == store,
{
}

/// Law: what is said of a list of effects is what is said of each, in their order.
pub proof fn effects_are_seen_in_their_order(effects: Seq<Effect>, i: int)
    ensures
        effect_views(effects).len() == effects.len(),
        0 <= i < effects.len() ==> effect_views(effects)[i] == effects[i]@,
{
}

/// Law: an outcome is taken in as it is, its error whole.
pub proof fn outcomes_are_taken_in_whole<T>(value: T, error: String)
    ensures
        outcome_text(Ok::<T, String>(value)) == Ok::<T, Seq<char>>(value),
        outcome_text(Err::<T, String>(error)) == Err::<T, Seq<char>>(error@),
{
}

} // verus!
