//! Jobs, their logs and summaries, and the deployments that they leave behind.

use vstd::prelude::*;
use vstd::string::*;

use crate::status::{DeploymentStatus, JobAction, JobStatus};
use crate::text::{copy_opt, opt_text};
use crate::time::Timestamp;

verus! {

/// One line of a job's log.
#[derive(Debug)]
pub struct JobLogEntry {
    pub ts: Timestamp,
    pub level: String,
    pub stage: String,
    pub message: String,
}

/// What a log line says.
pub struct LogEntryView {
    pub ts: Timestamp,
    pub level: Seq<char>,
    pub stage: Seq<char>,
    pub message: Seq<char>,
}

impl View for JobLogEntry {
    type V = LogEntryView;

    open spec fn view(&self) -> LogEntryView {
        LogEntryView {
            ts: self.ts,
            level: self.level@,
            stage: self.stage@,
            message: self.message@,
        }
    }
}

impl Clone for JobLogEntry {
    fn clone(&self) -> (copy: Self)
        ensures
            copy == *self,
    {
        JobLogEntry {
            ts: self.ts,
            level: self.level.clone(),
            stage: self.stage.clone(),
            message: self.message.clone(),
        }
    }
}

/// What a log says, line by line.
pub open spec fn log_view(logs: Seq<JobLogEntry>) -> Seq<LogEntryView> {
    logs.map_values(|entry: JobLogEntry| entry@)
}

/// Copies a log.
pub fn copy_log(logs: &Vec<JobLogEntry>) -> (copy: Vec<JobLogEntry>)
    ensures
        copy@ == logs@,
{
    let mut copy: Vec<JobLogEntry> = Vec::new();
    let mut i: usize = 0;
    while i < logs.len()
        invariant
            i <= logs@.len(),
            copy@ == logs@.take(i as int),
        decreases logs@.len() - i,
    {
        copy.push(logs[i].clone());
        i += 1;
        assert(logs@.take(i as int) =~= logs@.take(i - 1).push(logs@[i - 1]));
    }
    assert(logs@.take(i as int) =~= logs@);
    copy
}

/// A line to be logged, before it has a time.
#[derive(Debug)]
pub struct LogLine {
    pub level: &'static str,
    pub stage: String,
    pub message: String,
}

/// What a line to be logged says.
pub struct LogLineView {
    pub level: Seq<char>,
    pub stage: Seq<char>,
    pub message: Seq<char>,
}

impl View for LogLine {
    type V = LogLineView;

    open spec fn view(&self) -> LogLineView {
        LogLineView { level: self.level@, stage: self.stage@, message: self.message@ }
    }
}

impl LogLineView {
    /// The log entry that the line becomes at a point in time.
    pub open spec fn at(self, ts: Timestamp) -> LogEntryView {
        LogEntryView { ts, level: self.level, stage: self.stage, message: self.message }
    }
}

/// A job: one run of a project's pipeline.
#[derive(Debug)]
pub struct Job {
    pub id: u128,
    pub project_id: String,
    pub repository: String,
    pub branch: String,
    pub sha: String,
    pub short_sha: String,
    pub delivery_id: Option<String>,
    pub source_deployment_id: Option<i64>,
    pub action: JobAction,
    pub status: JobStatus,
    pub created_at: Timestamp,
    pub started_at: Option<Timestamp>,
    pub finished_at: Option<Timestamp>,
    pub current_stage: Option<String>,
    pub error: Option<String>,
    pub image: String,
    pub image_reference: String,
    pub image_digest: Option<String>,
    pub stable_tag: Option<String>,
    pub portainer_webhook: Option<String>,
    pub logs: Vec<JobLogEntry>,
}

/// What a job is, with texts as sequences of characters.
#[verifier::ext_equal]
pub struct JobView {
    pub id: u128,
    pub project_id: Seq<char>,
    pub repository: Seq<char>,
    pub branch: Seq<char>,
    pub sha: Seq<char>,
    pub short_sha: Seq<char>,
    pub delivery_id: Option<Seq<char>>,
    pub source_deployment_id: Option<i64>,
    pub action: JobAction,
    pub status: JobStatus,
    pub created_at: Timestamp,
    pub started_at: Option<Timestamp>,
    pub finished_at: Option<Timestamp>,
    pub current_stage: Option<Seq<char>>,
    pub error: Option<Seq<char>>,
    pub image: Seq<char>,
    pub image_reference: Seq<char>,
    pub image_digest: Option<Seq<char>>,
    pub stable_tag: Option<Seq<char>>,
    pub portainer_webhook: Option<Seq<char>>,
    pub logs: Seq<LogEntryView>,
}

impl View for Job {
    type V = JobView;

    open spec fn view(&self) -> JobView {
        JobView {
            id: self.id,
            project_id: self.project_id@,
            repository: self.repository@,
            branch: self.branch@,
            sha: self.sha@,
            short_sha: self.short_sha@,
            delivery_id: opt_text(self.delivery_id),
            source_deployment_id: self.source_deployment_id,
            action: self.action,
            status: self.status,
            created_at: self.created_at,
            started_at: self.started_at,
            finished_at: self.finished_at,
            current_stage: opt_text(self.current_stage),
            error: opt_text(self.error),
            image: self.image@,
            image_reference: self.image_reference@,
            image_digest: opt_text(self.image_digest),
            stable_tag: opt_text(self.stable_tag),
            portainer_webhook: opt_text(self.portainer_webhook),
            logs: log_view(self.logs@),
        }
    }
}

impl Clone for Job {
    fn clone(&self) -> (copy: Self)
        ensures
            copy@ == self@,
    {
        Job {
            id: self.id,
            project_id: self.project_id.clone(),
            repository: self.repository.clone(),
            branch: self.branch.clone(),
            sha: self.sha.clone(),
            short_sha: self.short_sha.clone(),
            delivery_id: copy_opt(&self.delivery_id),
            source_deployment_id: self.source_deployment_id,
            action: self.action,
            status: self.status,
            created_at: self.created_at,
            started_at: self.started_at,
            finished_at: self.finished_at,
            current_stage: copy_opt(&self.current_stage),
            error: copy_opt(&self.error),
            image: self.image.clone(),
            image_reference: self.image_reference.clone(),
            image_digest: copy_opt(&self.image_digest),
            stable_tag: copy_opt(&self.stable_tag),
            portainer_webhook: copy_opt(&self.portainer_webhook),
            logs: copy_log(&self.logs),
        }
    }
}

impl JobView {
    /// The lock under which the job runs: its repository and branch.
    pub open spec fn lock(self) -> Seq<char> {
        self.repository + ":"@ + self.branch
    }

    /// The job without the parts that a run of it changes.
    pub open spec fn request(self) -> JobView {
        JobView {
            status: JobStatus::Queued,
            started_at: None,
            finished_at: None,
            current_stage: None,
            error: None,
            image_digest: None,
            logs: Seq::empty(),
            ..self
        }
    }

    /// What a list of jobs shows of the job.
    pub open spec fn summary(self) -> SummaryView {
        SummaryView {
            id: self.id,
            project_id: self.project_id,
            repository: self.repository,
            branch: self.branch,
            sha: self.sha,
            image_reference: self.image_reference,
            image_digest: self.image_digest,
            status: self.status,
            created_at: self.created_at,
            started_at: self.started_at,
            finished_at: self.finished_at,
            current_stage: self.current_stage,
            error: self.error,
        }
    }
}

/// What a list of jobs shows of one.
#[derive(Debug)]
pub struct JobSummary {
    pub id: u128,
    pub project_id: String,
    pub repository: String,
    pub branch: String,
    pub sha: String,
    pub image_reference: String,
    pub image_digest: Option<String>,
    pub status: JobStatus,
    pub created_at: Timestamp,
    pub started_at: Option<Timestamp>,
    pub finished_at: Option<Timestamp>,
    pub current_stage: Option<String>,
    pub error: Option<String>,
}

/// What a summary is, with texts as sequences of characters.
pub struct SummaryView {
    pub id: u128,
    pub project_id: Seq<char>,
    pub repository: Seq<char>,
    pub branch: Seq<char>,
    pub sha: Seq<char>,
    pub image_reference: Seq<char>,
    pub image_digest: Option<Seq<char>>,
    pub status: JobStatus,
    pub created_at: Timestamp,
    pub started_at: Option<Timestamp>,
    pub finished_at: Option<Timestamp>,
    pub current_stage: Option<Seq<char>>,
    pub error: Option<Seq<char>>,
}

impl View for JobSummary {
    type V = SummaryView;

    open spec fn view(&self) -> SummaryView {
        SummaryView {
            id: self.id,
            project_id: self.project_id@,
            repository: self.repository@,
            branch: self.branch@,
            sha: self.sha@,
            image_reference: self.image_reference@,
            image_digest: opt_text(self.image_digest),
            status: self.status,
            created_at: self.created_at,
            started_at: self.started_at,
            finished_at: self.finished_at,
            current_stage: opt_text(self.current_stage),
            error: opt_text(self.error),
        }
    }
}

impl From<&Job> for JobSummary {
    fn from(value: &Job) -> (summary: Self)
        ensures
            summary@ == value@.summary(),
    {
        JobSummary {
            id: value.id,
            project_id: value.project_id.clone(),
            repository: value.repository.clone(),
            branch: value.branch.clone(),
            sha: value.sha.clone(),
            image_reference: value.image_reference.clone(),
            image_digest: copy_opt(&value.image_digest),
            status: value.status,
            created_at: value.created_at,
            started_at: value.started_at,
            finished_at: value.finished_at,
            current_stage: copy_opt(&value.current_stage),
            error: copy_opt(&value.error),
        }
    }
}

impl vstd::std_specs::convert::FromSpecImpl<&Job> for JobSummary {
    open spec fn obeys_from_spec() -> bool {
        true
    }

    open spec fn from_spec(value: &Job) -> JobSummary {
        JobSummary {
            id: value.id,
            project_id: value.project_id,
            repository: value.repository,
            branch: value.branch,
            sha: value.sha,
            image_reference: value.image_reference,
            image_digest: value.image_digest,
            status: value.status,
            created_at: value.created_at,
            started_at: value.started_at,
            finished_at: value.finished_at,
            current_stage: value.current_stage,
            error: value.error,
        }
    }
}

/// The outcome of a job that was carried to its end.
#[derive(Debug)]
pub struct Deployment {
    pub id: i64,
    pub job_id: u128,
    pub project_id: String,
    pub repository: String,
    pub branch: String,
    pub sha: String,
    pub image: String,
    pub image_reference: String,
    pub image_digest: Option<String>,
    pub stable_tag: Option<String>,
    pub status: DeploymentStatus,
    pub deployed_at: Timestamp,
    pub healthcheck_url: Option<String>,
    pub healthcheck_status: Option<u16>,
    pub healthcheck_error: Option<String>,
}

/// What a deployment is, with texts as sequences of characters.
pub struct DeploymentView {
    pub id: i64,
    pub job_id: u128,
    pub project_id: Seq<char>,
    pub repository: Seq<char>,
    pub branch: Seq<char>,
    pub sha: Seq<char>,
    pub image: Seq<char>,
    pub image_reference: Seq<char>,
    pub image_digest: Option<Seq<char>>,
    pub stable_tag: Option<Seq<char>>,
    pub status: DeploymentStatus,
    pub deployed_at: Timestamp,
    pub healthcheck_url: Option<Seq<char>>,
    pub healthcheck_status: Option<u16>,
    pub healthcheck_error: Option<Seq<char>>,
}

impl View for Deployment {
    type V = DeploymentView;

    open spec fn view(&self) -> DeploymentView {
        DeploymentView {
            id: self.id,
            job_id: self.job_id,
            project_id: self.project_id@,
            repository: self.repository@,
            branch: self.branch@,
            sha: self.sha@,
            image: self.image@,
            image_reference: self.image_reference@,
            image_digest: opt_text(self.image_digest),
            stable_tag: opt_text(self.stable_tag),
            status: self.status,
            deployed_at: self.deployed_at,
            healthcheck_url: opt_text(self.healthcheck_url),
            healthcheck_status: self.healthcheck_status,
            healthcheck_error: opt_text(self.healthcheck_error),
        }
    }
}

/// Law: what is said of a job is what its fields hold, each under its own name, and
/// line for line what its log holds.
pub proof fn job_is_seen_by_its_fields(job: Job)
    ensures
        job@.id == job.id,
        job@.project_id == job.project_id@,
        job@.repository == job.repository@,
        job@.branch == job.branch@,
        job@.sha == job.sha@,
        job@.short_sha == job.short_sha@,
        job@.delivery_id == opt_text(job.delivery_id),
        job@.source_deployment_id == job.source_deployment_id,
        job@.action == job.action,
        job@.status == job.status,
        job@.created_at == job.created_at,
        job@.started_at == job.started_at,
        job@.finished_at == job.finished_at,
        job@.current_stage == opt_text(job.current_stage),
        job@.error == opt_text(job.error),
        job@.image == job.image@,
        job@.image_reference == job.image_reference@,
        job@.image_digest == opt_text(job.image_digest),
        job@.stable_tag == opt_text(job.stable_tag),
        job@.portainer_webhook == opt_text(job.portainer_webhook),
        job@.logs.len() == job.logs@.len(),
        forall|i: int|
            0 <= i < job.logs@.len() ==> {
                &&& (#[trigger] job@.logs[i]).ts == job.logs@[i].ts
                &&& job@.logs[i].level == job.logs@[i].level@
                &&& job@.logs[i].stage == job.logs@[i].stage@
                &&& job@.logs[i].message == job.logs@[i].message@
            },
{
}

/// Law: a summary shows each of its fields as the job has it.
pub proof fn summary_shows_the_job(job: JobView)
    ensures
        job.summary().id == job.id,
        job.summary().project_id == job.project_id,
        job.summary().repository == job.repository,
        job.summary().branch == job.branch,
        job.summary().sha == job.sha,
        job.summary().image_reference == job.image_reference,
        job.summary().image_digest == job.image_digest,
        job.summary().status == job.status,
        job.summary().created_at == job.created_at,
        job.summary().started_at == job.started_at,
        job.summary().finished_at == job.finished_at,
        job.summary().current_stage == job.current_stage,
        job.summary().error == job.error,
{
}

/// Law: what is said of a summary is what its fields hold, each under its own name.
pub proof fn summary_is_seen_by_its_fields(summary: JobSummary)
    ensures
        summary@.id == summary.id,
        summary@.project_id == summary.project_id@,
        summary@.repository == summary.repository@,
        summary@.branch == summary.branch@,
        summary@.sha == summary.sha@,
        summary@.image_reference == summary.image_reference@,
        summary@.image_digest == opt_text(summary.image_digest),
        summary@.status == summary.status,
        summary@.created_at == summary.created_at,
        summary@.started_at == summary.started_at,
        summary@.finished_at == summary.finished_at,
        summary@.current_stage == opt_text(summary.current_stage),
        summary@.error == opt_text(summary.error),
{
}

/// Law: what is said of a deployment is what its fields hold, each under its own
/// name.
pub proof fn deployment_is_seen_by_its_fields(deployment: Deployment)
    ensures
        deployment@.id == deployment.id,
        deployment@.job_id == deployment.job_id,
        deployment@.project_id == deployment.project_id@,
        deployment@.repository == deployment.repository@,
        deployment@.branch == deployment.branch@,
        deployment@.sha == deployment.sha@,
        deployment@.image == deployment.image@,
        deployment@.image_reference == deployment.image_reference@,
        deployment@.image_digest == opt_text(deployment.image_digest),
        deployment@.stable_tag == opt_text(deployment.stable_tag),
        deployment@.status == deployment.status,
        deployment@.deployed_at == deployment.deployed_at,
        deployment@.healthcheck_url == opt_text(deployment.healthcheck_url),
        deployment@.healthcheck_status == deployment.healthcheck_status,
        deployment@.healthcheck_error == opt_text(deployment.healthcheck_error),
{
}

/// Law: a line to be logged keeps its level, stage and message, and gets the time at
/// which it is logged.
pub proof fn line_is_logged_as_it_is(line: LogLine, ts: Timestamp)
    ensures
        line@.at(ts).ts == ts,
        line@.at(ts).level == line.level@,
        line@.at(ts).stage == line.stage@,
        line@.at(ts).message == line.message@,
{
}

/// Law: jobs of the same branch of the same repository have the same lock, whatever
/// else they are.
pub proof fn same_branch_means_same_lock(a: JobView, b: JobView)
    requires
        a.repository == b.repository,
        a.branch == b.branch,
    ensures
        a.lock() == b.lock(),
{
}

/// Law: jobs of different branches or repositories have different locks, where no
/// colon stands in the names of the repositories.
pub proof fn other_branch_means_other_lock(a: JobView, b: JobView)
    requires
        !a.repository.contains(':'),
        !b.repository.contains(':'),
        a.repository != b.repository || a.branch != b.branch,
    ensures
        a.lock() != b.lock(),
{
    reveal_strlit(":");
    if a.lock() == b.lock() {
        let s = a.lock();
        let m = a.repository.len() as int;
        let n = b.repository.len() as int;
        assert(s[m] == ':');
        assert(s[n] == ':');
        if m < n {
            assert(b.repository[m] == ':');
        } else if n < m {
            assert(a.repository[n] == ':');
        }
        assert(a.repository =~= s.take(m));
        assert(b.repository =~= s.take(n));
        assert(a.branch =~= s.skip(m + 1));
        assert(b.branch =~= s.skip(n + 1));
    }
}

} // verus!
