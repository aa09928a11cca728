//! A project's pipeline: which steps a job takes, and in which order.

use vstd::prelude::*;
use vstd::string::*;

use crate::config::{ProjectConfig, StepConfig};
use crate::job::{JobView, LogLine, LogLineView};
use crate::status::JobAction;
use crate::store::StateStore;
use crate::template::{
    decimal_holds_no_dollar, expand_command, expand_from, no_dollar, plain, render,
    template_expands_part_by_part, text_without_variables_is_kept, variable,
    variable_between_texts_expands, variable_count, variable_values, Piece,
};
use crate::text::{
    character_is_replaced_everywhere, decimal, join2, join3, join4, opt_text, replace_all, same_text,
};

verus! {

/// Whether a list of names holds that of an action.
pub open spec fn names_action(names: Seq<String>, action: JobAction) -> bool {
    exists|i: int| 0 <= i < names.len() && (#[trigger] names[i])@ == action.name()
}

/// Whether a step is meant for an action: the action is in the list of those that
/// it is only for, if there is one, and not in the list of those that skip it.
pub open spec fn selected(step: StepConfig, action: JobAction) -> bool {
    &&& step.only_actions matches Some(only) ==> names_action(only@, action)
    &&& step.skip_actions matches Some(skip) ==> !names_action(skip@, action)
}

fn holds_action(names: &Vec<String>, action: &JobAction) -> (found: bool)
    ensures
        found == names_action(names@, *action),
{
    let current = action.as_str();
    let mut i: usize = 0;
    while i < names.len()
        invariant
            i <= names@.len(),
            current@ == action.name(),
            forall|j: int| 0 <= j < i ==> (#[trigger] names@[j])@ != action.name(),
        decreases names@.len() - i,
    {
        if same_text(names[i].as_str(), current) {
            return true;
        }
        i += 1;
    }
    false
}

/// Tells whether a step is meant for an action.
pub fn step_matches_action(step: &StepConfig, action: &JobAction) -> (matches: bool)
    ensures
        matches == selected(*step, *action),
{
    if let Some(only) = &step.only_actions {
        if !holds_action(only, action) {
            return false;
        }
    }
    if let Some(skip) = &step.skip_actions {
        if holds_action(skip, action) {
            return false;
        }
    }
    true
}

/// Why a pipeline did not come to its end.
#[derive(Debug)]
pub enum PipelineError {
    JobMissing,
    /// The directory of the project could not be made.
    Workdir(String),
    /// The job was cancelled before this step.
    Cancelled(String),
    /// This step failed.
    StepFailed(String),
}

/// Why a pipeline did not come to its end, with texts as sequences of characters.
pub enum PipelineErrorView {
    JobMissing,
    Workdir(Seq<char>),
    Cancelled(Seq<char>),
    StepFailed(Seq<char>),
}

impl View for PipelineError {
    type V = PipelineErrorView;

    open spec fn view(&self) -> PipelineErrorView {
        match self {
            PipelineError::JobMissing => PipelineErrorView::JobMissing,
            PipelineError::Workdir(path) => PipelineErrorView::Workdir(path@),
            PipelineError::Cancelled(step) => PipelineErrorView::Cancelled(step@),
            PipelineError::StepFailed(step) => PipelineErrorView::StepFailed(step@),
        }
    }
}

impl PipelineErrorView {
    /// The message of the error.
    pub open spec fn message_text(self) -> Seq<char> {
        match self {
            PipelineErrorView::JobMissing => "job missing"@,
            PipelineErrorView::Workdir(path) => "failed to create project workdir: "@ + path,
            PipelineErrorView::Cancelled(step) => "job cancelled before step "@ + step,
            PipelineErrorView::StepFailed(step) => "step '"@ + step + "' failed"@,
        }
    }
}

impl PipelineError {
    /// Copies the error.
    fn copy(&self) -> (copy: PipelineError)
        ensures
            copy@ == self@,
    {
        match self {
            PipelineError::JobMissing => PipelineError::JobMissing,
            PipelineError::Workdir(path) => PipelineError::Workdir(path.clone()),
            PipelineError::Cancelled(step) => PipelineError::Cancelled(step.clone()),
            PipelineError::StepFailed(step) => PipelineError::StepFailed(step.clone()),
        }
    }

    /// Describes the error.
    pub fn message(&self) -> (message: String)
        ensures
            message@ == self@.message_text(),
    {
        match self {
            PipelineError::JobMissing => "job missing".to_owned(),
            PipelineError::Workdir(path) => join2(
                "failed to create project workdir: ",
                path.as_str(),
            ),
            PipelineError::Cancelled(step) => join2("job cancelled before step ", step.as_str()),
            PipelineError::StepFailed(step) => join3("step '", step.as_str(), "' failed"),
        }
    }
}

/// What the steps of a pipeline learn of the job.
#[derive(Debug)]
struct PipelineJob {
    repository: String,
    branch: String,
    sha: String,
    short_sha: String,
    action: JobAction,
    image_reference: String,
    source_deployment_id: Option<i64>,
}

/// What the steps of a pipeline learn of the job, with texts as sequences of
/// characters.
pub struct ContextView {
    pub repository: Seq<char>,
    pub branch: Seq<char>,
    pub sha: Seq<char>,
    pub short_sha: Seq<char>,
    pub action: JobAction,
    pub image_reference: Seq<char>,
    pub source_deployment_id: Option<i64>,
}

impl View for PipelineJob {
    type V = ContextView;

    closed spec fn view(&self) -> ContextView {
        ContextView {
            repository: self.repository@,
            branch: self.branch@,
            sha: self.sha@,
            short_sha: self.short_sha@,
            action: self.action,
            image_reference: self.image_reference@,
            source_deployment_id: self.source_deployment_id,
        }
    }
}

impl JobView {
    /// What the steps of a pipeline learn of the job.
    pub open spec fn context(self) -> ContextView {
        ContextView {
            repository: self.repository,
            branch: self.branch,
            sha: self.sha,
            short_sha: self.short_sha,
            action: self.action,
            image_reference: self.image_reference,
            source_deployment_id: self.source_deployment_id,
        }
    }
}

/// A command to be run.
#[derive(Debug)]
pub struct StepRun {
    pub stage: String,
    /// The line to log before the command is run.
    pub line: LogLine,
    pub shell: String,
    pub command: String,
    pub timeout_secs: u64,
}

/// What a command to be run is, with texts as sequences of characters.
pub struct StepRunView {
    pub stage: Seq<char>,
    pub line: LogLineView,
    pub shell: Seq<char>,
    pub command: Seq<char>,
    pub timeout_secs: u64,
}

impl View for StepRun {
    type V = StepRunView;

    open spec fn view(&self) -> StepRunView {
        StepRunView {
            stage: self.stage@,
            line: self.line@,
            shell: self.shell@,
            command: self.command@,
            timeout_secs: self.timeout_secs,
        }
    }
}

/// What a pipeline does next.
#[derive(Debug)]
pub enum PipelineAction {
    /// The step is not meant for the action: log this and ask again.
    Skip(LogLine),
    /// Run this, and report how it ended.
    Run(StepRun),
    /// There is nothing more to run.
    Finished(Result<(), PipelineError>),
}

/// What a pipeline does next, with texts as sequences of characters.
pub enum ActionView {
    Skip(LogLineView),
    Run(StepRunView),
    Finished(Result<(), PipelineErrorView>),
}

impl View for PipelineAction {
    type V = ActionView;

    open spec fn view(&self) -> ActionView {
        match self {
            PipelineAction::Skip(line) => ActionView::Skip(line@),
            PipelineAction::Run(run) => ActionView::Run(run@),
            PipelineAction::Finished(Ok(_)) => ActionView::Finished(Ok(())),
            PipelineAction::Finished(Err(error)) => ActionView::Finished(Err(error@)),
        }
    }
}

/// The command of a step, with its variables expanded.
pub open spec fn step_command(project: ProjectConfig, job: ContextView, step: StepConfig) -> Seq<
    char,
> {
    expand_from(
        step.run@,
        variable_values(
            project,
            job.repository,
            job.branch,
            job.sha,
            job.short_sha,
            job.action.name(),
            job.image_reference,
            job.source_deployment_id,
        ),
        0,
    )
}

/// How a step is run: in its shell or `/bin/sh`, for at most its timeout or half
/// an hour.
pub open spec fn step_run(project: ProjectConfig, job: ContextView, step: StepConfig) -> StepRunView {
    StepRunView {
        stage: step.name@,
        line: LogLineView {
            level: "info"@,
            stage: step.name@,
            message: "Running: "@ + step.run@,
        },
        shell: match step.shell {
            Some(shell) => shell@,
            None => "/bin/sh"@,
        },
        command: step_command(project, job, step),
        timeout_secs: step.timeout_sec.unwrap_or(1800),
    }
}

/// The line that tells of a step that is not meant for an action.
pub open spec fn skip_line(step: StepConfig, action: JobAction) -> LogLineView {
    LogLineView {
        level: "info"@,
        stage: "planner"@,
        message: "Skipping step '"@ + step.name@ + "' for action "@ + action.name(),
    }
}

/// Where a pipeline stands: the job that it is for, the step that comes next, the
/// name of the step that is being run, if any, and why it has stopped, if it has.
#[verifier::ext_equal]
pub struct PipelineView {
    pub job: ContextView,
    pub at: int,
    pub running: Option<Seq<char>>,
    pub stopped: Option<PipelineErrorView>,
}

/// A pipeline that has come to the step `at` without a failure.
pub open spec fn pipeline_at(job: ContextView, at: int) -> PipelineView {
    PipelineView { job, at, running: None, stopped: None }
}

/// What a pipeline does next.
pub open spec fn decision(project: ProjectConfig, run: PipelineView, cancelled: bool) -> ActionView {
    let step = project.steps@[run.at];
    if run.stopped is Some {
        ActionView::Finished(Err(run.stopped->0))
    } else if run.at >= project.steps@.len() {
        ActionView::Finished(Ok(()))
    } else if !selected(step, run.job.action) {
        ActionView::Skip(skip_line(step, run.job.action))
    } else if cancelled {
        ActionView::Finished(Err(PipelineErrorView::Cancelled(step.name@)))
    } else {
        ActionView::Run(step_run(project, run.job, step))
    }
}

/// Where a pipeline stands once it has decided.
pub open spec fn advanced(run: PipelineView, action: ActionView) -> PipelineView {
    match action {
        ActionView::Skip(_) => PipelineView { at: run.at + 1, ..run },
        ActionView::Run(step) => PipelineView { at: run.at + 1, running: Some(step.stage), ..run },
        ActionView::Finished(Ok(_)) => run,
        ActionView::Finished(Err(error)) => PipelineView { stopped: Some(error), ..run },
    }
}

/// Where a pipeline stands once the step that was being run has ended.
pub open spec fn reported(run: PipelineView, succeeded: bool) -> PipelineView {
    PipelineView {
        running: None,
        stopped: if succeeded {
            run.stopped
        } else {
            Some(PipelineErrorView::StepFailed(run.running->0))
        },
        ..run
    }
}

/// A pipeline under way.
#[derive(Debug)]
pub struct PipelineRun {
    job: PipelineJob,
    next_step: usize,
    running: Option<String>,
    stopped: Option<PipelineError>,
}

impl View for PipelineRun {
    type V = PipelineView;

    closed spec fn view(&self) -> PipelineView {
        PipelineView {
            job: self.job@,
            at: self.next_step as int,
            running: opt_text(self.running),
            stopped: match self.stopped {
                Some(error) => Some(error@),
                None => None,
            },
        }
    }
}

impl PipelineRun {
    /// Begins the pipeline of a job, at its first step.
    pub fn start(store: &StateStore, id: u128) -> (run: Result<PipelineRun, PipelineError>)
        requires
            store.wf(),
        ensures
            match run {
                Ok(run) => {
                    &&& store@.jobs.contains_key(id)
                    &&& run@ == pipeline_at(store@.jobs[id].context(), 0)
                },
                Err(error) => error == PipelineError::JobMissing && !store@.jobs.contains_key(id),
            },
    {
        match store.get_job(id) {
            None => Err(PipelineError::JobMissing),
            Some(job) => Ok(
                PipelineRun {
                    job: PipelineJob {
                        repository: job.repository.clone(),
                        branch: job.branch.clone(),
                        sha: job.sha.clone(),
                        short_sha: job.short_sha.clone(),
                        action: job.action,
                        image_reference: job.image_reference.clone(),
                        source_deployment_id: job.source_deployment_id,
                    },
                    next_step: 0,
                    running: None,
                    stopped: None,
                },
            ),
        }
    }

    /// Decides what to do next, and goes on to the step after it. A step that is
    /// to be run becomes the stage of the job, and its end has to be reported before
    /// the pipeline is asked again. A pipeline that has stopped stays so.
    pub fn next(
        &mut self,
        store: &mut StateStore,
        id: u128,
        project: &ProjectConfig,
        cancelled: bool,
    ) -> (action: PipelineAction)
        requires
            old(store).wf(),
            old(self)@.running is None,
        ensures
            final(store).wf(),
            action@ == decision(*project, old(self)@, cancelled),
            final(self)@ == advanced(old(self)@, action@),
            final(store)@ == match action {
                PipelineAction::Run(run) => old(store)@.update(
                    id,
                    |job: JobView| job.in_stage(run@.stage),
                ),
                _ => old(store)@,
            },
    {
        if let Some(error) = &self.stopped {
            return PipelineAction::Finished(Err(error.copy()));
        }
        if self.next_step >= project.steps.len() {
            return PipelineAction::Finished(Ok(()));
        }
        let step = &project.steps[self.next_step];
        if !step_matches_action(step, &self.job.action) {
            self.next_step += 1;
            return PipelineAction::Skip(
                LogLine {
                    level: "info",
                    stage: "planner".to_owned(),
                    message: join4(
                        "Skipping step '",
                        step.name.as_str(),
                        "' for action ",
                        self.job.action.as_str(),
                    ),
                },
            );
        }
        if cancelled {
            self.stopped = Some(PipelineError::Cancelled(step.name.clone()));
            return PipelineAction::Finished(Err(PipelineError::Cancelled(step.name.clone())));
        }
        store.set_stage(id, step.name.as_str());
        let line = LogLine {
            level: "info",
            stage: step.name.clone(),
            message: join2("Running: ", step.run.as_str()),
        };
        let shell = match &step.shell {
            Some(shell) => shell.clone(),
            None => "/bin/sh".to_owned(),
        };
        let command = expand_command(
            step.run.as_str(),
            project,
            self.job.repository.as_str(),
            self.job.branch.as_str(),
            self.job.sha.as_str(),
            self.job.short_sha.as_str(),
            self.job.action.as_str(),
            self.job.image_reference.as_str(),
            self.job.source_deployment_id,
        );
        let timeout_secs: u64 = match step.timeout_sec {
            Some(secs) => secs,
            None => 1800,
        };
        self.next_step += 1;
        self.running = Some(step.name.clone());
        PipelineAction::Run(StepRun { stage: step.name.clone(), line, shell, command, timeout_secs })
    }

    /// Takes in how the step that was being run has ended. A step that failed stops
    /// the pipeline.
    pub fn step_ended(&mut self, succeeded: bool)
        requires
            old(self)@.running is Some,
        ensures
            final(self)@ == reported(old(self)@, succeeded),
    {
        let stage = self.running.take();
        if !succeeded {
            if let Some(stage) = stage {
                self.stopped = Some(PipelineError::StepFailed(stage));
            }
        }
    }
}

/// What came of a pipeline: the steps that were run, in order, and how it ended.
#[verifier::ext_equal]
pub struct PipelineEnd {
    pub ran: Seq<int>,
    pub outcome: Result<(), PipelineErrorView>,
}

/// What comes of a pipeline from where it stands, where `cancelled` says whether the
/// job is cancelled when a step's turn comes, and `succeeds` whether a step that is
/// run succeeds.
pub open spec fn pipeline_end(
    project: ProjectConfig,
    run: PipelineView,
    cancelled: spec_fn(int) -> bool,
    succeeds: spec_fn(int) -> bool,
) -> PipelineEnd
    decreases project.steps@.len() - run.at,
{
    let action = decision(project, run, cancelled(run.at));
    let next = advanced(run, action);
    match action {
        ActionView::Skip(_) => pipeline_end(project, next, cancelled, succeeds),
        ActionView::Finished(outcome) => PipelineEnd { ran: Seq::empty(), outcome },
        ActionView::Run(_) => {
            let rest = pipeline_end(
                project,
                reported(next, succeeds(run.at)),
                cancelled,
                succeeds,
            );
            PipelineEnd { ran: seq![run.at] + rest.ran, outcome: rest.outcome }
        },
    }
}

/// The steps from `at` on that are meant for an action, in their order.
pub open spec fn selected_steps(project: ProjectConfig, action: JobAction, at: int) -> Seq<int>
    decreases project.steps@.len() - at,
{
    if at >= project.steps@.len() {
        Seq::empty()
    } else if selected(project.steps@[at], action) {
        seq![at] + selected_steps(project, action, at + 1)
    } else {
        selected_steps(project, action, at + 1)
    }
}

proof fn lemma_pipeline_end_at(
    project: ProjectConfig,
    job: ContextView,
    at: int,
    cancelled: spec_fn(int) -> bool,
    succeeds: spec_fn(int) -> bool,
)
    requires
        at < project.steps@.len(),
    ensures
        ({
            let rest = pipeline_end(project, pipeline_at(job, at + 1), cancelled, succeeds);
            let step = project.steps@[at];
            pipeline_end(project, pipeline_at(job, at), cancelled, succeeds) == if !selected(
                step,
                job.action,
            ) {
                rest
            } else if cancelled(at) {
                PipelineEnd {
                    ran: Seq::empty(),
                    outcome: Err(PipelineErrorView::Cancelled(step.name@)),
                }
            } else if succeeds(at) {
                PipelineEnd { ran: seq![at] + rest.ran, outcome: rest.outcome }
            } else {
                PipelineEnd {
                    ran: seq![at],
                    outcome: Err(PipelineErrorView::StepFailed(step.name@)),
                }
            }
        }),
{
    let run = pipeline_at(job, at);
    let action = decision(project, run, cancelled(at));
    let next = advanced(run, action);
    if action is Skip {
        assert(next =~= pipeline_at(job, at + 1));
    } else if action is Run {
        let after = reported(next, succeeds(at));
        if succeeds(at) {
            assert(after =~= pipeline_at(job, at + 1));
        } else {
            let rest = pipeline_end(project, after, cancelled, succeeds);
            assert(rest.ran =~= Seq::<int>::empty());
            assert(seq![at] + rest.ran =~= seq![at]);
        }
    }
}

/// Law: a pipeline in which a step has failed, or that was cancelled, gives the same
/// error whenever it is asked, runs nothing more and stays where it is.
pub proof fn stopped_pipeline_stays_stopped(
    project: ProjectConfig,
    run: PipelineView,
    cancelled: bool,
)
    requires
        run.stopped is Some,
    ensures
        decision(project, run, cancelled) == ActionView::Finished(Err(run.stopped->0)),
        advanced(run, decision(project, run, cancelled)) == run,
{
}

/// Law: a pipeline that is not cancelled and in which no step fails runs exactly
/// the steps that are meant for the job's action, in their order, and succeeds.
pub proof fn undisturbed_pipeline_runs_the_selected_steps(
    project: ProjectConfig,
    job: ContextView,
    at: int,
    cancelled: spec_fn(int) -> bool,
    succeeds: spec_fn(int) -> bool,
)
    requires
        forall|k: int| at <= k < project.steps@.len() ==> !#[trigger] cancelled(k),
        forall|k: int| at <= k < project.steps@.len() ==> #[trigger] succeeds(k),
    ensures
        pipeline_end(project, pipeline_at(job, at), cancelled, succeeds) == (PipelineEnd {
            ran: selected_steps(project, job.action, at),
            outcome: Ok(()),
        }),
    decreases project.steps@.len() - at,
{
    if at < project.steps@.len() {
        lemma_pipeline_end_at(project, job, at, cancelled, succeeds);
        undisturbed_pipeline_runs_the_selected_steps(project, job, at + 1, cancelled, succeeds);
    }
}

/// Law: whatever happens, the steps that a pipeline runs are the first of those
/// that are meant for the job's action; it succeeds only if it ran them all.
pub proof fn pipeline_runs_a_prefix_of_the_selected_steps(
    project: ProjectConfig,
    job: ContextView,
    at: int,
    cancelled: spec_fn(int) -> bool,
    succeeds: spec_fn(int) -> bool,
)
    ensures
        ({
            let end = pipeline_end(project, pipeline_at(job, at), cancelled, succeeds);
            let all = selected_steps(project, job.action, at);
            &&& end.ran.is_prefix_of(all)
            &&& end.outcome is Ok ==> end.ran == all
            &&& end.outcome is Ok <==> forall|i: int|
                0 <= i < all.len() ==> !cancelled(all[i]) && succeeds(#[trigger] all[i])
        }),
    decreases project.steps@.len() - at,
{
    if at < project.steps@.len() {
        lemma_pipeline_end_at(project, job, at, cancelled, succeeds);
        pipeline_runs_a_prefix_of_the_selected_steps(project, job, at + 1, cancelled, succeeds);
        let rest = pipeline_end(project, pipeline_at(job, at + 1), cancelled, succeeds);
        let later = selected_steps(project, job.action, at + 1);
        let all = selected_steps(project, job.action, at);
        if selected(project.steps@[at], job.action) {
            assert(all[0] == at);
            assert forall|i: int| 0 <= i < later.len() implies #[trigger] all[i + 1] == later[i] by {}
            assert forall|i: int| 1 <= i < all.len() implies #[trigger] all[i] == later[i - 1] by {}
            let end = pipeline_end(project, pipeline_at(job, at), cancelled, succeeds);
            if !cancelled(at) && succeeds(at) {
                assert(rest.ran =~= later.take(rest.ran.len() as int));
                assert(end.ran =~= all.take(1 + rest.ran.len() as int));
                assert(end.outcome == rest.outcome);
                if rest.outcome is Ok {
                    assert forall|i: int| 0 <= i < all.len() implies !cancelled(all[i]) && succeeds(
                        #[trigger] all[i],
                    ) by {
                        if i > 0 {
                            assert(all[i] == later[i - 1]);
                        }
                    }
                } else {
                    let i = choose|i: int|
                        0 <= i < later.len() && !(!cancelled(later[i]) && succeeds(
                            #[trigger] later[i],
                        ));
                    assert(all[i + 1] == later[i]);
                }
            } else if !cancelled(at) {
                assert(end.ran =~= all.take(1));
            } else {
                assert(end.ran =~= all.take(0));
            }
        }
    }
}

/// Law: once a step has failed, no other step is run.
pub proof fn failed_step_is_the_last_one_run(
    project: ProjectConfig,
    job: ContextView,
    at: int,
    cancelled: spec_fn(int) -> bool,
    succeeds: spec_fn(int) -> bool,
)
    ensures
        ({
            let ran = pipeline_end(project, pipeline_at(job, at), cancelled, succeeds).ran;
            forall|i: int|
                0 <= i < ran.len() && !succeeds(#[trigger] ran[i]) ==> i == ran.len() - 1
        }),
    decreases project.steps@.len() - at,
{
    if at < project.steps@.len() {
        lemma_pipeline_end_at(project, job, at, cancelled, succeeds);
        failed_step_is_the_last_one_run(project, job, at + 1, cancelled, succeeds);
        let rest = pipeline_end(project, pipeline_at(job, at + 1), cancelled, succeeds).ran;
        let ran = pipeline_end(project, pipeline_at(job, at), cancelled, succeeds).ran;
        if selected(project.steps@[at], job.action) && !cancelled(at) && succeeds(at) {
            assert forall|i: int| 0 <= i < ran.len() && !succeeds(#[trigger] ran[i]) implies i
                == ran.len() - 1 by {
                if i > 0 {
                    assert(ran[i] == rest[i - 1]);
                }
            }
        }
    }
}

/// Whether this is how a pipeline ends, from the step `at` on: well, where all its
/// selected steps were run and succeeded; else with the name of the last step run,
/// where that failed; else with the name of the first selected step that was not run,
/// where the job was cancelled when its turn came.
pub open spec fn ends_for_a_reason(
    project: ProjectConfig,
    action: JobAction,
    at: int,
    cancelled: spec_fn(int) -> bool,
    succeeds: spec_fn(int) -> bool,
    end: PipelineEnd,
) -> bool {
    let all = selected_steps(project, action, at);
    let ran = end.ran;
    &&& forall|i: int| 0 <= i < ran.len() ==> !cancelled(#[trigger] ran[i])
    &&& match end.outcome {
        Ok(_) => {
            &&& ran == all
            &&& forall|i: int| 0 <= i < ran.len() ==> succeeds(#[trigger] ran[i])
        },
        Err(PipelineErrorView::StepFailed(name)) => {
            &&& ran.len() > 0
            &&& !succeeds(ran.last())
            &&& name == project.steps@[ran.last()].name@
        },
        Err(PipelineErrorView::Cancelled(name)) => {
            &&& ran.len() < all.len()
            &&& cancelled(all[ran.len() as int])
            &&& name == project.steps@[all[ran.len() as int]].name@
            &&& forall|i: int| 0 <= i < ran.len() ==> succeeds(#[trigger] ran[i])
        },
        Err(_) => false,
    }
}

/// Law: a pipeline that stops says why: it names the last step that it ran, where that
/// failed, or else the first selected step that it did not run, where the job was
/// cancelled.
pub proof fn stopped_pipeline_says_why(
    project: ProjectConfig,
    job: ContextView,
    at: int,
    cancelled: spec_fn(int) -> bool,
    succeeds: spec_fn(int) -> bool,
)
    ensures
        ends_for_a_reason(
            project,
            job.action,
            at,
            cancelled,
            succeeds,
            pipeline_end(project, pipeline_at(job, at), cancelled, succeeds),
        ),
    decreases project.steps@.len() - at,
{
    let end = pipeline_end(project, pipeline_at(job, at), cancelled, succeeds);
    let all = selected_steps(project, job.action, at);
    if at < project.steps@.len() {
        lemma_pipeline_end_at(project, job, at, cancelled, succeeds);
        stopped_pipeline_says_why(project, job, at + 1, cancelled, succeeds);
        let rest = pipeline_end(project, pipeline_at(job, at + 1), cancelled, succeeds);
        let later = selected_steps(project, job.action, at + 1);
        if selected(project.steps@[at], job.action) {
            assert(all[0] == at);
            assert(forall|i: int| 0 <= i < later.len() ==> all[i + 1] == later[i]);
            if !cancelled(at) && succeeds(at) {
                assert(forall|i: int| 1 <= i < end.ran.len() ==> end.ran[i] == rest.ran[i - 1]);
                if rest.ran.len() > 0 {
                    assert(end.ran.last() == rest.ran.last());
                }
                if rest.outcome is Ok {
                    assert(end.ran =~= all);
                }
            }
        }
    }
}

/// Law: where the job is not cancelled, a pipeline fails exactly with the failure of
/// the last step that it ran, and names that step.
pub proof fn failed_pipeline_names_its_last_step(
    project: ProjectConfig,
    job: ContextView,
    at: int,
    cancelled: spec_fn(int) -> bool,
    succeeds: spec_fn(int) -> bool,
)
    requires
        forall|k: int| at <= k < project.steps@.len() ==> !#[trigger] cancelled(k),
    ensures
        ({
            let end = pipeline_end(project, pipeline_at(job, at), cancelled, succeeds);
            &&& end.outcome is Err <==> end.ran.len() > 0 && !succeeds(end.ran.last())
            &&& end.outcome is Err ==> end.outcome == Err::<(), PipelineErrorView>(
                PipelineErrorView::StepFailed(project.steps@[end.ran.last()].name@),
            )
        }),
{
    stopped_pipeline_says_why(project, job, at, cancelled, succeeds);
    let end = pipeline_end(project, pipeline_at(job, at), cancelled, succeeds);
    let all = selected_steps(project, job.action, at);
    if end.outcome matches Err(PipelineErrorView::Cancelled(_)) {
        lemma_selected_steps(project, job.action, at, end.ran.len() as int);
        assert(cancelled(all[end.ran.len() as int]));
    }
}

proof fn lemma_selected_steps(project: ProjectConfig, action: JobAction, at: int, i: int)
    requires
        0 <= i < selected_steps(project, action, at).len(),
    ensures
        at <= selected_steps(project, action, at)[i] < project.steps@.len(),
    decreases project.steps@.len() - at,
{
    if at < project.steps@.len() {
        let later = selected_steps(project, action, at + 1);
        if !selected(project.steps@[at], action) {
            lemma_selected_steps(project, action, at + 1, i);
        } else if i > 0 {
            lemma_selected_steps(project, action, at + 1, i - 1);
            assert(selected_steps(project, action, at)[i] == later[i - 1]);
        }
    }
}

/// Law: a variable in the command of a step that is run stands for what its name says
/// of the job and its project, and the texts around it stay, where the texts and the
/// value hold no dollar sign.
pub proof fn variables_stand_for_the_job(
    project: ProjectConfig,
    job: JobView,
    at: int,
    before: Seq<char>,
    after: Seq<char>,
)
    requires
        0 <= at < project.steps@.len(),
        selected(project.steps@[at], job.action),
        no_dollar(before),
        no_dollar(after),
    ensures
        ({
            let action = decision(project, pipeline_at(job.context(), at), false);
            let text = project.steps@[at].run@;
            let command = action->Run_0.command;
            &&& action is Run
            &&& text == before + "$REPOSITORY"@ + after && no_dollar(job.repository) ==> command
                == before + job.repository + after
            &&& text == before + "$BRANCH"@ + after && no_dollar(job.branch) ==> command
                == before + job.branch + after
            &&& text == before + "$SHA"@ + after && no_dollar(job.sha) ==> command
                == before + job.sha + after
            &&& text == before + "$SHORT_SHA"@ + after && no_dollar(job.short_sha) ==> command
                == before + job.short_sha + after
            &&& text == before + "$JOB_ACTION"@ + after && job.action == JobAction::Webhook ==> command
                == before + "webhook"@ + after
            &&& text == before + "$JOB_ACTION"@ + after && job.action == JobAction::Retry ==> command
                == before + "retry"@ + after
            &&& text == before + "$JOB_ACTION"@ + after && job.action == JobAction::Manual ==> command
                == before + "manual"@ + after
            &&& text == before + "$JOB_ACTION"@ + after && job.action == JobAction::Rollback ==> command
                == before + "rollback"@ + after
            &&& text == before + "$PROJECT_ID"@ + after && no_dollar(project.id@) ==> command
                == before + project.id@ + after
            &&& text == before + "$IMAGE_REFERENCE"@ + after && no_dollar(job.image_reference) ==> command
                == before + job.image_reference + after
            &&& text == before + "$IMAGE"@ + after && no_dollar(project.image@) && !"_REFERENCE"@.is_prefix_of(after) ==> command
                == before + project.image@ + after
            &&& text == before + "$SOURCE_DEPLOYMENT_ID"@ + after && job.source_deployment_id is Some
                ==> command == before + decimal(job.source_deployment_id->0 as int) + after
            &&& text == before + "$SOURCE_DEPLOYMENT_ID"@ + after && job.source_deployment_id is None
                ==> command == before + after
            &&& text == before + "$PORTAINER_WEBHOOK"@ + after && project.portainer_webhook is Some
                && no_dollar(project.portainer_webhook->0@) ==> command == before
                + project.portainer_webhook->0@ + after
            &&& text == before + "$PORTAINER_WEBHOOK"@ + after && project.portainer_webhook is None
                ==> command == before + after
            &&& text == before + "$STABLE_TAG"@ + after && project.stable_tag is Some && no_dollar(
                project.stable_tag->0@,
            ) ==> command == before + project.stable_tag->0@ + after
            &&& text == before + "$STABLE_IMAGE_REFERENCE"@ + after && project.stable_tag is Some
                && no_dollar(project.stable_tag->0@) && no_dollar(project.image@) ==> command
                == before + (project.image@ + ":"@ + project.stable_tag->0@) + after
            &&& text == before + "$STABLE_TAG"@ + after && project.stable_tag is None && no_dollar(
                job.branch,
            ) ==> command == before + job.branch.map_values(
                |c: char|
                    if c == '/' {
                        '-'
                    } else {
                        c
                    },
            ) + after
            &&& text == before + "$STABLE_IMAGE_REFERENCE"@ + after && project.stable_tag is None
                && no_dollar(job.branch) && no_dollar(project.image@) ==> command == before + (
            project.image@ + ":"@ + job.branch.map_values(
                |c: char|
                    if c == '/' {
                        '-'
                    } else {
                        c
                    },
            )) + after
        }),
{
    let context = job.context();
    let text = project.steps@[at].run@;
    let values = variable_values(
        project,
        job.repository,
        job.branch,
        job.sha,
        job.short_sha,
        job.action.name(),
        job.image_reference,
        job.source_deployment_id,
    );
    assert(step_command(project, context, project.steps@[at]) == expand_from(text, values, 0));
    assert(before + Seq::<char>::empty() + after =~= before + after);
    reveal_strlit("webhook");
    reveal_strlit("retry");
    reveal_strlit("manual");
    reveal_strlit("rollback");
    reveal_strlit(":");
    reveal_strlit("/");
    reveal_strlit("-");
    assert(no_dollar(job.action.name()));
    if let Some(id) = job.source_deployment_id {
        decimal_holds_no_dollar(id as int);
    }
    if project.stable_tag is None {
        assert("/"@ =~= seq!['/']);
        assert("-"@ =~= seq!['-']);
        let tag = job.branch.map_values(
            |c: char|
                if c == '/' {
                    '-'
                } else {
                    c
                },
        );
        assert(values[9] =~= tag) by {
            assert(values[9] == replace_all(job.branch, seq!['/'], seq!['-']));
            if job.branch.len() > 0 {
                character_is_replaced_everywhere(job.branch, '/', '-', 0);
            }
            assert forall|i: int| 0 <= i < job.branch.len() implies values[9][i] == tag[i] by {
                character_is_replaced_everywhere(job.branch, '/', '-', i);
            }
        }
        if no_dollar(job.branch) {
            assert forall|i: int| 0 <= i < tag.len() implies #[trigger] tag[i] != '$' by {
                assert(job.branch[i] != '$');
            }
        }
    }
    if no_dollar(project.image@) && no_dollar(values[9]) {
        assert(no_dollar(values[10])) by {
            assert(values[10] == project.image@ + ":"@ + values[9]);
        }
    }
    assert forall|k: int|
        0 <= k < variable_count() && no_dollar(values[k]) && (k == 8
            ==> !"_REFERENCE"@.is_prefix_of(after)) implies expand_from(
        before + #[trigger] variable(k) + after,
        values,
        0,
    ) == before + values[k] + after by {
        variable_between_texts_expands(before, k, after, values);
    }
    assert(variable(0) == "$REPOSITORY"@ && variable(1) == "$BRANCH"@ && variable(2) == "$SHA"@);
    assert(variable(3) == "$SHORT_SHA"@ && variable(4) == "$JOB_ACTION"@);
    assert(variable(5) == "$SOURCE_DEPLOYMENT_ID"@ && variable(6) == "$PROJECT_ID"@);
    assert(variable(7) == "$IMAGE_REFERENCE"@ && variable(8) == "$IMAGE"@);
    assert(variable(9) == "$STABLE_TAG"@ && variable(10) == "$STABLE_IMAGE_REFERENCE"@);
    assert(variable(11) == "$PORTAINER_WEBHOOK"@);
    assert(no_dollar(Seq::<char>::empty()));
}

/// Law: the command of a step is expanded part by part: a step whose command is those of
/// two other steps, one behind the other, runs what these run, one behind the other.
pub proof fn commands_expand_part_by_part(
    project: ProjectConfig,
    job: JobView,
    first: int,
    second: int,
    both: int,
    p: Seq<Piece>,
    q: Seq<Piece>,
    values: Seq<Seq<char>>,
)
    requires
        0 <= first < project.steps@.len(),
        0 <= second < project.steps@.len(),
        0 <= both < project.steps@.len(),
        selected(project.steps@[first], job.action),
        selected(project.steps@[second], job.action),
        selected(project.steps@[both], job.action),
        values == variable_values(
            project,
            job.repository,
            job.branch,
            job.sha,
            job.short_sha,
            job.action.name(),
            job.image_reference,
            job.source_deployment_id,
        ),
        plain(p + q, values),
        project.steps@[first].run@ == render(p, values, 0),
        project.steps@[second].run@ == render(q, values, 0),
        project.steps@[both].run@ == project.steps@[first].run@ + project.steps@[second].run@,
    ensures
        decision(project, pipeline_at(job.context(), both), false)->Run_0.command == decision(
            project,
            pipeline_at(job.context(), first),
            false,
        )->Run_0.command + decision(
            project,
            pipeline_at(job.context(), second),
            false,
        )->Run_0.command,
{
    template_expands_part_by_part(p, q, values);
}

/// Law: a command without a dollar sign is run as it is.
pub proof fn command_without_variables_is_run_as_it_is(
    project: ProjectConfig,
    job: JobView,
    at: int,
)
    requires
        0 <= at < project.steps@.len(),
        selected(project.steps@[at], job.action),
        no_dollar(project.steps@[at].run@),
    ensures
        decision(project, pipeline_at(job.context(), at), false)->Run_0.command
            == project.steps@[at].run@,
{
    let values = variable_values(
        project,
        job.repository,
        job.branch,
        job.sha,
        job.short_sha,
        job.action.name(),
        job.image_reference,
        job.source_deployment_id,
    );
    text_without_variables_is_kept(project.steps@[at].run@, values);
}

/// Law: a step that is run is run under its own name, in its shell or `/bin/sh`, for its
/// timeout or half an hour, and its command is logged before it is expanded.
pub proof fn step_is_run_as_configured(project: ProjectConfig, job: JobView, at: int)
    requires
        0 <= at < project.steps@.len(),
        selected(project.steps@[at], job.action),
    ensures
        ({
            let step = project.steps@[at];
            let action = decision(project, pipeline_at(job.context(), at), false);
            let run = action->Run_0;
            &&& action is Run
            &&& run.stage == step.name@
            &&& run.line.level == "info"@
            &&& run.line.stage == step.name@
            &&& run.line.message == "Running: "@ + step.run@
            &&& step.shell is Some ==> run.shell == step.shell->0@
            &&& step.shell is None ==> run.shell == "/bin/sh"@
            &&& step.timeout_sec is Some ==> run.timeout_secs == step.timeout_sec->0
            &&& step.timeout_sec is None ==> run.timeout_secs == 1800
        }),
{
}

/// Law: a step is left out where it is for other actions only, or where the action is
/// one that skips it, and is taken in every other case.
pub proof fn steps_are_chosen_by_their_lists(step: StepConfig, action: JobAction, i: int)
    ensures
        step.only_actions is None && step.skip_actions is None ==> selected(step, action),
        step.skip_actions matches Some(skip) ==> (0 <= i < skip@.len() && skip@[i]@
            == action.name() ==> !selected(step, action)),
        step.only_actions matches Some(only) ==> ((forall|k: int|
            0 <= k < only@.len() ==> (#[trigger] only@[k])@ != action.name()) ==> !selected(
            step,
            action,
        )),
        step.only_actions matches Some(only) ==> (0 <= i < only@.len() && only@[i]@
            == action.name() && (step.skip_actions is None || forall|k: int|
            0 <= k < step.skip_actions->0@.len() ==> (#[trigger] step.skip_actions->0@[k])@
                != action.name()) ==> selected(step, action)),
        step.only_actions is None && step.skip_actions is Some && (forall|k: int|
            0 <= k < step.skip_actions->0@.len() ==> (#[trigger] step.skip_actions->0@[k])@
                != action.name()) ==> selected(step, action),
{
}

/// Law: a step that is left out is logged as such, with its name and the action, and the
/// pipeline goes on with the next one.
pub proof fn step_left_out_is_logged(
    project: ProjectConfig,
    job: JobView,
    at: int,
    cancelled: bool,
)
    requires
        0 <= at < project.steps@.len(),
        !selected(project.steps@[at], job.action),
    ensures
        ({
            let run = pipeline_at(job.context(), at);
            let action = decision(project, run, cancelled);
            &&& action is Skip
            &&& action->Skip_0.level == "info"@
            &&& action->Skip_0.stage == "planner"@
            &&& action->Skip_0.message == "Skipping step '"@ + project.steps@[at].name@
                + "' for action "@ + job.action.name()
            &&& advanced(run, action) == pipeline_at(job.context(), at + 1)
        }),
{
    let run = pipeline_at(job.context(), at);
    assert(advanced(run, decision(project, run, cancelled)) =~= pipeline_at(
        job.context(),
        at + 1,
    ));
}

/// Law: what is said of a command to be run is what its fields hold, and of an action what
/// it holds.
pub proof fn actions_are_seen_by_their_parts(run: StepRun, line: LogLine, error: PipelineError)
    ensures
        run@.stage == run.stage@,
        run@.line == run.line@,
        run@.shell == run.shell@,
        run@.command == run.command@,
        run@.timeout_secs == run.timeout_secs,
        PipelineAction::Run(run)@ == ActionView::Run(run@),
        PipelineAction::Skip(line)@ == ActionView::Skip(line@),
        PipelineAction::Finished(Ok(()))@ == ActionView::Finished(Ok(())),
        PipelineAction::Finished(Err(error))@ == ActionView::Finished(Err(error@)),
{
}

/// Law: the error of a pipeline names the step, or the directory, that it is about.
pub proof fn pipeline_errors_name_their_cause(name: String)
    ensures
        PipelineError::JobMissing@.message_text() == "job missing"@,
        PipelineError::Workdir(name)@.message_text() == "failed to create project workdir: "@
            + name@,
        PipelineError::Cancelled(name)@.message_text() == "job cancelled before step "@ + name@,
        PipelineError::StepFailed(name)@.message_text() == "step '"@ + name@ + "' failed"@,
{
}

/// Law: the command of a step that is run is its text with the variables replaced by what
/// the job and its project hold, whatever that is.
pub proof fn command_is_expanded_with_what_the_job_holds(
    project: ProjectConfig,
    job: JobView,
    at: int,
)
    requires
        0 <= at < project.steps@.len(),
        selected(project.steps@[at], job.action),
    ensures
        ({
            let tag = match project.stable_tag {
                Some(tag) => tag@,
                None => replace_all(job.branch, "/"@, "-"@),
            };
            let values = seq![
                job.repository,
                job.branch,
                job.sha,
                job.short_sha,
                job.action.name(),
                match job.source_deployment_id {
                    Some(id) => decimal(id as int),
                    None => Seq::empty(),
                },
                project.id@,
                job.image_reference,
                project.image@,
                tag,
                project.image@ + ":"@ + tag,
                match project.portainer_webhook {
                    Some(url) => url@,
                    None => Seq::empty(),
                },
            ];
            decision(project, pipeline_at(job.context(), at), false)->Run_0.command == expand_from(
                project.steps@[at].run@,
                values,
                0,
            )
        }),
{
    let values = variable_values(
        project,
        job.repository,
        job.branch,
        job.sha,
        job.short_sha,
        job.action.name(),
        job.image_reference,
        job.source_deployment_id,
    );
    let tag = match project.stable_tag {
        Some(tag) => tag@,
        None => replace_all(job.branch, "/"@, "-"@),
    };
    assert(values =~= seq![
        job.repository,
        job.branch,
        job.sha,
        job.short_sha,
        job.action.name(),
        match job.source_deployment_id {
            Some(id) => decimal(id as int),
            None => Seq::empty(),
        },
        project.id@,
        job.image_reference,
        project.image@,
        tag,
        project.image@ + ":"@ + tag,
        match project.portainer_webhook {
            Some(url) => url@,
            None => Seq::empty(),
        },
    ]);
}

} // verus!
