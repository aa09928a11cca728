//! The rows in which jobs and deployments are stored.

use vstd::prelude::*;
use vstd::string::*;

use crate::config::{
    find_project, has_id, is_first_project, project_is_found_by_its_id, ProjectConfig,
};
use crate::job::{log_view, Deployment, DeploymentView, Job, JobLogEntry, JobView, LogEntryView};
use crate::status::{
    deployment_status_names_are_distinct, job_action_names_are_distinct,
    job_status_names_are_distinct, DeploymentStatus, JobAction, JobStatus, UnknownName,
};
use crate::store::{job_views, StateStore};
use crate::text::{copy_opt, opt_text};
use crate::time::Timestamp;

verus! {

/// The row of a job. Its log is stored apart.
#[derive(Debug)]
pub struct JobRow {
    pub id: u128,
    pub project_id: String,
    pub repository: String,
    pub branch: String,
    pub sha: String,
    pub short_sha: String,
    pub delivery_id: Option<String>,
    pub source_deployment_id: Option<i64>,
    pub status: String,
    pub action: String,
    pub created_at: Timestamp,
    pub started_at: Option<Timestamp>,
    pub finished_at: Option<Timestamp>,
    pub current_stage: Option<String>,
    pub error: Option<String>,
    pub image: String,
    pub image_reference: String,
    pub image_digest: Option<String>,
    pub stable_tag: Option<String>,
    pub portainer_webhook: Option<String>,
}

/// What the row holds, with texts as sequences of characters.
#[verifier::ext_equal]
pub struct JobRowView {
    pub id: u128,
    pub project_id: Seq<char>,
    pub repository: Seq<char>,
    pub branch: Seq<char>,
    pub sha: Seq<char>,
    pub short_sha: Seq<char>,
    pub delivery_id: Option<Seq<char>>,
    pub source_deployment_id: Option<i64>,
    pub status: Seq<char>,
    pub action: Seq<char>,
    pub created_at: Timestamp,
    pub started_at: Option<Timestamp>,
    pub finished_at: Option<Timestamp>,
    pub current_stage: Option<Seq<char>>,
    pub error: Option<Seq<char>>,
    pub image: Seq<char>,
    pub image_reference: Seq<char>,
    pub image_digest: Option<Seq<char>>,
    pub stable_tag: Option<Seq<char>>,
    pub portainer_webhook: Option<Seq<char>>,
}

impl View for JobRow {
    type V = JobRowView;

    open spec fn view(&self) -> JobRowView {
        JobRowView {
            id: self.id,
            project_id: self.project_id@,
            repository: self.repository@,
            branch: self.branch@,
            sha: self.sha@,
            short_sha: self.short_sha@,
            delivery_id: opt_text(self.delivery_id),
            source_deployment_id: self.source_deployment_id,
            status: self.status@,
            action: self.action@,
            created_at: self.created_at,
            started_at: self.started_at,
            finished_at: self.finished_at,
            current_stage: opt_text(self.current_stage),
            error: opt_text(self.error),
            image: self.image@,
            image_reference: self.image_reference@,
            image_digest: opt_text(self.image_digest),
            stable_tag: opt_text(self.stable_tag),
            portainer_webhook: opt_text(self.portainer_webhook),
        }
    }
}

/// The row of a job.
pub open spec fn row_of_job(job: JobView) -> JobRowView {
    JobRowView {
        id: job.id,
        project_id: job.project_id,
        repository: job.repository,
        branch: job.branch,
        sha: job.sha,
        short_sha: job.short_sha,
        delivery_id: job.delivery_id,
        source_deployment_id: job.source_deployment_id,
        status: job.status.name(),
        action: job.action.name(),
        created_at: job.created_at,
        started_at: job.started_at,
        finished_at: job.finished_at,
        current_stage: job.current_stage,
        error: job.error,
        image: job.image,
        image_reference: job.image_reference,
        image_digest: job.image_digest,
        stable_tag: job.stable_tag,
        portainer_webhook: job.portainer_webhook,
    }
}

/// Writes the row of a job.
pub fn job_row(job: &Job) -> (row: JobRow)
    ensures
        row@ == row_of_job(job@),
{
    JobRow {
        id: job.id,
        project_id: job.project_id.clone(),
        repository: job.repository.clone(),
        branch: job.branch.clone(),
        sha: job.sha.clone(),
        short_sha: job.short_sha.clone(),
        delivery_id: copy_opt(&job.delivery_id),
        source_deployment_id: job.source_deployment_id,
        status: job.status.as_str().to_owned(),
        action: job.action.as_str().to_owned(),
        created_at: job.created_at,
        started_at: job.started_at,
        finished_at: job.finished_at,
        current_stage: copy_opt(&job.current_stage),
        error: copy_opt(&job.error),
        image: job.image.clone(),
        image_reference: job.image_reference.clone(),
        image_digest: copy_opt(&job.image_digest),
        stable_tag: copy_opt(&job.stable_tag),
        portainer_webhook: copy_opt(&job.portainer_webhook),
    }
}

/// The job that a row and a log make, in a state and for an action.
pub open spec fn job_of_row(
    row: JobRowView,
    logs: Seq<LogEntryView>,
    action: JobAction,
    status: JobStatus,
) -> JobView {
    JobView {
        id: row.id,
        project_id: row.project_id,
        repository: row.repository,
        branch: row.branch,
        sha: row.sha,
        short_sha: row.short_sha,
        delivery_id: row.delivery_id,
        source_deployment_id: row.source_deployment_id,
        status,
        action,
        created_at: row.created_at,
        started_at: row.started_at,
        finished_at: row.finished_at,
        current_stage: row.current_stage,
        error: row.error,
        image: row.image,
        image_reference: row.image_reference,
        image_digest: row.image_digest,
        stable_tag: row.stable_tag,
        portainer_webhook: row.portainer_webhook,
        logs,
    }
}

/// Reads a job back from its row and its log.
pub fn job_from_row(row: JobRow, logs: Vec<JobLogEntry>) -> (job: Result<Job, UnknownName>)
    ensures
        match job {
            Ok(job) => {
                &&& job.action.name() == row@.action
                &&& job.status.name() == row@.status
                &&& job@ == job_of_row(row@, log_view(logs@), job.action, job.status)
            },
            Err(UnknownName::JobAction(name)) => {
                &&& name@ == row@.action
                &&& forall|action: JobAction| #[trigger] action.name() != row@.action
            },
            Err(error) => {
                &&& error matches UnknownName::JobStatus(name) && name@ == row@.status
                &&& forall|status: JobStatus| #[trigger] status.name() != row@.status
                &&& exists|action: JobAction| #[trigger] action.name() == row@.action
            },
        },
{
    let action = match JobAction::from_db(row.action.as_str()) {
        Ok(action) => action,
        Err(error) => {
            return Err(error);
        },
    };
    let status = match JobStatus::from_db(row.status.as_str()) {
        Ok(status) => status,
        Err(error) => {
            return Err(error);
        },
    };
    Ok(
        Job {
            id: row.id,
            project_id: row.project_id,
            repository: row.repository,
            branch: row.branch,
            sha: row.sha,
            short_sha: row.short_sha,
            delivery_id: row.delivery_id,
            source_deployment_id: row.source_deployment_id,
            status,
            action,
            created_at: row.created_at,
            started_at: row.started_at,
            finished_at: row.finished_at,
            current_stage: row.current_stage,
            error: row.error,
            image: row.image,
            image_reference: row.image_reference,
            image_digest: row.image_digest,
            stable_tag: row.stable_tag,
            portainer_webhook: row.portainer_webhook,
            logs,
        },
    )
}

/// Law: a row that is read back with the job's log gives the job that was written.
pub proof fn job_is_read_back(job: JobView, action: JobAction, status: JobStatus)
    requires
        action.name() == row_of_job(job).action,
        status.name() == row_of_job(job).status,
    ensures
        job_of_row(row_of_job(job), job.logs, action, status) == job,
{
    job_action_names_are_distinct(action, job.action);
    job_status_names_are_distinct(status, job.status);
}

/// Puts jobs that were read with the newest first into the order in which they were
/// made.
pub fn oldest_first(jobs: Vec<Job>) -> (reversed: Vec<Job>)
    ensures
        job_views(reversed@) == job_views(jobs@).reverse(),
{
    let mut reversed: Vec<Job> = Vec::new();
    let mut i: usize = jobs.len();
    while i > 0
        invariant
            i <= jobs@.len(),
            job_views(reversed@) == job_views(jobs@).reverse().take(jobs@.len() - i),
        decreases i,
    {
        let ghost before = reversed@;
        let job = jobs[i - 1].clone();
        reversed.push(job);
        i -= 1;
        proof {
            assert(job_views(reversed@) =~= job_views(before).push(jobs@[i as int]@));
            assert(job_views(jobs@).reverse().take(jobs@.len() - i) =~= job_views(
                jobs@,
            ).reverse().take(jobs@.len() - i - 1).push(jobs@[i as int]@));
        }
    }
    assert(job_views(jobs@).reverse().take(jobs@.len() as int) =~= job_views(jobs@).reverse());
    reversed
}

/// The row of a deployment.
#[derive(Debug)]
pub struct DeploymentRow {
    pub id: i64,
    pub job_id: u128,
    pub project_id: String,
    pub repository: String,
    pub branch: String,
    pub sha: String,
    pub image: String,
    pub image_reference: String,
    pub image_digest: Option<String>,
    pub stable_tag: Option<String>,
    pub status: String,
    pub deployed_at: Timestamp,
    pub healthcheck_url: Option<String>,
    pub healthcheck_status: Option<i32>,
    pub healthcheck_error: Option<String>,
}

/// What the row holds, with texts as sequences of characters.
#[verifier::ext_equal]
pub struct DeploymentRowView {
    pub id: i64,
    pub job_id: u128,
    pub project_id: Seq<char>,
    pub repository: Seq<char>,
    pub branch: Seq<char>,
    pub sha: Seq<char>,
    pub image: Seq<char>,
    pub image_reference: Seq<char>,
    pub image_digest: Option<Seq<char>>,
    pub stable_tag: Option<Seq<char>>,
    pub status: Seq<char>,
    pub deployed_at: Timestamp,
    pub healthcheck_url: Option<Seq<char>>,
    pub healthcheck_status: Option<i32>,
    pub healthcheck_error: Option<Seq<char>>,
}

impl View for DeploymentRow {
    type V = DeploymentRowView;

    open spec fn view(&self) -> DeploymentRowView {
        DeploymentRowView {
            id: self.id,
            job_id: self.job_id,
            project_id: self.project_id@,
            repository: self.repository@,
            branch: self.branch@,
            sha: self.sha@,
            image: self.image@,
            image_reference: self.image_reference@,
            image_digest: opt_text(self.image_digest),
            stable_tag: opt_text(self.stable_tag),
            status: self.status@,
            deployed_at: self.deployed_at,
            healthcheck_url: opt_text(self.healthcheck_url),
            healthcheck_status: self.healthcheck_status,
            healthcheck_error: opt_text(self.healthcheck_error),
        }
    }
}

/// The row of a deployment.
pub open spec fn row_of_deployment(deployment: DeploymentView) -> DeploymentRowView {
    DeploymentRowView {
        id: deployment.id,
        job_id: deployment.job_id,
        project_id: deployment.project_id,
        repository: deployment.repository,
        branch: deployment.branch,
        sha: deployment.sha,
        image: deployment.image,
        image_reference: deployment.image_reference,
        image_digest: deployment.image_digest,
        stable_tag: deployment.stable_tag,
        status: deployment.status.name(),
        deployed_at: deployment.deployed_at,
        healthcheck_url: deployment.healthcheck_url,
        healthcheck_status: match deployment.healthcheck_status {
            Some(status) => Some(status as i32),
            None => None,
        },
        healthcheck_error: deployment.healthcheck_error,
    }
}

/// Writes the row of a deployment.
pub fn deployment_row(deployment: &Deployment) -> (row: DeploymentRow)
    ensures
        row@ == row_of_deployment(deployment@),
{
    DeploymentRow {
        id: deployment.id,
        job_id: deployment.job_id,
        project_id: deployment.project_id.clone(),
        repository: deployment.repository.clone(),
        branch: deployment.branch.clone(),
        sha: deployment.sha.clone(),
        image: deployment.image.clone(),
        image_reference: deployment.image_reference.clone(),
        image_digest: copy_opt(&deployment.image_digest),
        stable_tag: copy_opt(&deployment.stable_tag),
        status: deployment.status.as_str().to_owned(),
        deployed_at: deployment.deployed_at,
        healthcheck_url: copy_opt(&deployment.healthcheck_url),
        healthcheck_status: match deployment.healthcheck_status {
            Some(status) => Some(status as i32),
            None => None,
        },
        healthcheck_error: copy_opt(&deployment.healthcheck_error),
    }
}

/// The HTTP status that a stored number stands for; a number that is none is
/// dropped.
pub open spec fn stored_status(value: Option<i32>) -> Option<u16> {
    match value {
        Some(value) if 0 <= value <= u16::MAX => Some(value as u16),
        _ => None,
    }
}

/// The deployment that a row makes, with a result.
pub open spec fn deployment_of_row(row: DeploymentRowView, status: DeploymentStatus) -> DeploymentView {
    DeploymentView {
        id: row.id,
        job_id: row.job_id,
        project_id: row.project_id,
        repository: row.repository,
        branch: row.branch,
        sha: row.sha,
        image: row.image,
        image_reference: row.image_reference,
        image_digest: row.image_digest,
        stable_tag: row.stable_tag,
        status,
        deployed_at: row.deployed_at,
        healthcheck_url: row.healthcheck_url,
        healthcheck_status: stored_status(row.healthcheck_status),
        healthcheck_error: row.healthcheck_error,
    }
}

/// Reads a deployment back from its row.
pub fn deployment_from_row(row: DeploymentRow) -> (deployment: Result<Deployment, UnknownName>)
    ensures
        match deployment {
            Ok(deployment) => {
                &&& deployment.status.name() == row@.status
                &&& deployment@ == deployment_of_row(row@, deployment.status)
            },
            Err(error) => {
                &&& error matches UnknownName::DeploymentStatus(name) && name@ == row@.status
                &&& forall|status: DeploymentStatus| #[trigger] status.name() != row@.status
            },
        },
{
    let status = match DeploymentStatus::from_db(row.status.as_str()) {
        Ok(status) => status,
        Err(error) => {
            return Err(error);
        },
    };
    let healthcheck_status: Option<u16> = match row.healthcheck_status {
        Some(value) => if 0 <= value && value <= 0xffff {
            Some(value as u16)
        } else {
            None
        },
        None => None,
    };
    Ok(
        Deployment {
            id: row.id,
            job_id: row.job_id,
            project_id: row.project_id,
            repository: row.repository,
            branch: row.branch,
            sha: row.sha,
            image: row.image,
            image_reference: row.image_reference,
            image_digest: row.image_digest,
            stable_tag: row.stable_tag,
            status,
            deployed_at: row.deployed_at,
            healthcheck_url: row.healthcheck_url,
            healthcheck_status,
            healthcheck_error: row.healthcheck_error,
        },
    )
}

/// Law: a row that is read back gives the deployment that was written.
pub proof fn deployment_is_read_back(deployment: DeploymentView, status: DeploymentStatus)
    requires
        status.name() == row_of_deployment(deployment).status,
    ensures
        deployment_of_row(row_of_deployment(deployment), status) == deployment,
{
    deployment_status_names_are_distinct(status, deployment.status);
}

/// Whether this is the address that the health check of a project asks.
pub open spec fn is_health_url(
    projects: Seq<ProjectConfig>,
    project_id: Seq<char>,
    url: Option<Seq<char>>,
) -> bool {
    exists|at: Option<usize>|
        #[trigger] is_first_project(projects, has_id(project_id), at) && url == match at {
            Some(at) => opt_text(projects[at as int].healthcheck_url),
            None => None,
        }
}

/// The deployment that a job leaves behind at the time `now`; the database gives
/// it its id.
pub open spec fn deployment_of_job(
    job: JobView,
    url: Option<Seq<char>>,
    status: DeploymentStatus,
    healthcheck_status: Option<u16>,
    healthcheck_error: Option<Seq<char>>,
    now: Timestamp,
) -> DeploymentView {
    DeploymentView {
        id: 0,
        job_id: job.id,
        project_id: job.project_id,
        repository: job.repository,
        branch: job.branch,
        sha: job.sha,
        image: job.image,
        image_reference: job.image_reference,
        image_digest: job.image_digest,
        stable_tag: job.stable_tag,
        status,
        deployed_at: job.finished_at.unwrap_or(now),
        healthcheck_url: url,
        healthcheck_status,
        healthcheck_error,
    }
}

/// Makes the record of the deployment that the job `id` leaves behind at the time
/// `now`; there is none where there is no such job.
pub fn deployment_record_at(
    store: &StateStore,
    projects: &Vec<ProjectConfig>,
    id: u128,
    status: DeploymentStatus,
    healthcheck_status: Option<u16>,
    healthcheck_error: Option<String>,
    now: Timestamp,
) -> (record: Option<Deployment>)
    requires
        store.wf(),
    ensures
        match record {
            Some(record) => {
                &&& store@.jobs.contains_key(id)
                &&& is_health_url(
                    projects@,
                    store@.jobs[id].project_id,
                    opt_text(record.healthcheck_url),
                )
                &&& record@ == deployment_of_job(
                    store@.jobs[id],
                    opt_text(record.healthcheck_url),
                    status,
                    healthcheck_status,
                    opt_text(healthcheck_error),
                    now,
                )
            },
            None => !store@.jobs.contains_key(id),
        },
{
    let job = match store.get_job(id) {
        Some(job) => job,
        None => {
            return None;
        },
    };
    let found = find_project(projects, job.project_id.as_str());
    let healthcheck_url = match found {
        Some(at) => copy_opt(&projects[at].healthcheck_url),
        None => None,
    };
    proof {
        assert(is_first_project(projects@, has_id(job.project_id@), found));
        assert(store@.jobs[id].id == id);
    }
    Some(
        Deployment {
            id: 0,
            job_id: id,
            project_id: job.project_id.clone(),
            repository: job.repository.clone(),
            branch: job.branch.clone(),
            sha: job.sha.clone(),
            image: job.image.clone(),
            image_reference: job.image_reference.clone(),
            image_digest: copy_opt(&job.image_digest),
            stable_tag: copy_opt(&job.stable_tag),
            status,
            deployed_at: match job.finished_at {
                Some(finished_at) => finished_at,
                None => now,
            },
            healthcheck_url,
            healthcheck_status,
            healthcheck_error,
        },
    )
}

/// Makes the record of the deployment that the job `id` leaves behind now; there is
/// none where there is no such job.
pub fn deployment_record(
    store: &StateStore,
    projects: &Vec<ProjectConfig>,
    id: u128,
    status: DeploymentStatus,
    healthcheck_status: Option<u16>,
    healthcheck_error: Option<String>,
) -> (record: Option<Deployment>)
    requires
        store.wf(),
    ensures
        match record {
            Some(record) => {
                &&& store@.jobs.contains_key(id)
                &&& is_health_url(
                    projects@,
                    store@.jobs[id].project_id,
                    opt_text(record.healthcheck_url),
                )
                &&& exists|now: Timestamp|
                    #![trigger now.valid()]
                    now.valid() && now.is_reading() && record@ == deployment_of_job(
                        store@.jobs[id],
                        opt_text(record.healthcheck_url),
                        status,
                        healthcheck_status,
                        opt_text(healthcheck_error),
                        now,
                    )
            },
            None => !store@.jobs.contains_key(id),
        },
{
    let now = Timestamp::now();
    deployment_record_at(
        store,
        projects,
        id,
        status,
        healthcheck_status,
        healthcheck_error,
        now,
    )
}

/// Law: the row of a job holds each field in the column of its name, and its state and
/// its action by their names.
pub proof fn job_row_holds_the_fields(job: JobView, row: JobRow)
    ensures
        row_of_job(job).id == job.id,
        row_of_job(job).project_id == job.project_id,
        row_of_job(job).repository == job.repository,
        row_of_job(job).branch == job.branch,
        row_of_job(job).sha == job.sha,
        row_of_job(job).short_sha == job.short_sha,
        row_of_job(job).delivery_id == job.delivery_id,
        row_of_job(job).source_deployment_id == job.source_deployment_id,
        row_of_job(job).action == job.action.name(),
        row_of_job(job).status == job.status.name(),
        row_of_job(job).created_at == job.created_at,
        row_of_job(job).started_at == job.started_at,
        row_of_job(job).finished_at == job.finished_at,
        row_of_job(job).current_stage == job.current_stage,
        row_of_job(job).error == job.error,
        row_of_job(job).image == job.image,
        row_of_job(job).image_reference == job.image_reference,
        row_of_job(job).image_digest == job.image_digest,
        row_of_job(job).stable_tag == job.stable_tag,
        row_of_job(job).portainer_webhook == job.portainer_webhook,
        row@.id == row.id,
        row@.project_id == row.project_id@,
        row@.repository == row.repository@,
        row@.branch == row.branch@,
        row@.sha == row.sha@,
        row@.short_sha == row.short_sha@,
        row@.delivery_id == opt_text(row.delivery_id),
        row@.source_deployment_id == row.source_deployment_id,
        row@.action == row.action@,
        row@.status == row.status@,
        row@.created_at == row.created_at,
        row@.started_at == row.started_at,
        row@.finished_at == row.finished_at,
        row@.current_stage == opt_text(row.current_stage),
        row@.error == opt_text(row.error),
        row@.image == row.image@,
        row@.image_reference == row.image_reference@,
        row@.image_digest == opt_text(row.image_digest),
        row@.stable_tag == opt_text(row.stable_tag),
        row@.portainer_webhook == opt_text(row.portainer_webhook),
{
}

/// Law: a job that is read from a row has each field from the column of its name.
pub proof fn job_is_read_from_its_columns(
    row: JobRowView,
    logs: Seq<LogEntryView>,
    action: JobAction,
    status: JobStatus,
)
    ensures
        ({
            let job = job_of_row(row, logs, action, status);
            &&& job.id == row.id
            &&& job.project_id == row.project_id
            &&& job.repository == row.repository
            &&& job.branch == row.branch
            &&& job.sha == row.sha
            &&& job.short_sha == row.short_sha
            &&& job.delivery_id == row.delivery_id
            &&& job.source_deployment_id == row.source_deployment_id
            &&& job.action == action
            &&& job.status == status
            &&& job.created_at == row.created_at
            &&& job.started_at == row.started_at
            &&& job.finished_at == row.finished_at
            &&& job.current_stage == row.current_stage
            &&& job.error == row.error
            &&& job.image == row.image
            &&& job.image_reference == row.image_reference
            &&& job.image_digest == row.image_digest
            &&& job.stable_tag == row.stable_tag
            &&& job.portainer_webhook == row.portainer_webhook
            &&& job.logs == logs
        }),
{
}

/// Law: the row of a deployment holds each field in the column of its name, its result by
/// its name and the status of its health check as a number.
pub proof fn deployment_row_holds_the_fields(deployment: DeploymentView, row: DeploymentRow)
    ensures
        row_of_deployment(deployment).id == deployment.id,
        row_of_deployment(deployment).job_id == deployment.job_id,
        row_of_deployment(deployment).project_id == deployment.project_id,
        row_of_deployment(deployment).repository == deployment.repository,
        row_of_deployment(deployment).branch == deployment.branch,
        row_of_deployment(deployment).sha == deployment.sha,
        row_of_deployment(deployment).image == deployment.image,
        row_of_deployment(deployment).image_reference == deployment.image_reference,
        row_of_deployment(deployment).image_digest == deployment.image_digest,
        row_of_deployment(deployment).stable_tag == deployment.stable_tag,
        row_of_deployment(deployment).status == deployment.status.name(),
        row_of_deployment(deployment).deployed_at == deployment.deployed_at,
        row_of_deployment(deployment).healthcheck_url == deployment.healthcheck_url,
        deployment.healthcheck_status is None ==> row_of_deployment(
            deployment,
        ).healthcheck_status is None,
        deployment.healthcheck_status is Some ==> row_of_deployment(
            deployment,
        ).healthcheck_status is Some && row_of_deployment(deployment).healthcheck_status->0
            == deployment.healthcheck_status->0,
        row_of_deployment(deployment).healthcheck_error == deployment.healthcheck_error,
        row@.id == row.id,
        row@.job_id == row.job_id,
        row@.project_id == row.project_id@,
        row@.repository == row.repository@,
        row@.branch == row.branch@,
        row@.sha == row.sha@,
        row@.image == row.image@,
        row@.image_reference == row.image_reference@,
        row@.image_digest == opt_text(row.image_digest),
        row@.stable_tag == opt_text(row.stable_tag),
        row@.status == row.status@,
        row@.deployed_at == row.deployed_at,
        row@.healthcheck_url == opt_text(row.healthcheck_url),
        row@.healthcheck_status == row.healthcheck_status,
        row@.healthcheck_error == opt_text(row.healthcheck_error),
{
}

/// Law: a deployment that is read from a row has each field from the column of its name; a
/// number that is no HTTP status is dropped.
pub proof fn deployment_is_read_from_its_columns(
    row: DeploymentRowView,
    status: DeploymentStatus,
)
    ensures
        ({
            let deployment = deployment_of_row(row, status);
            &&& deployment.id == row.id
            &&& deployment.job_id == row.job_id
            &&& deployment.project_id == row.project_id
            &&& deployment.repository == row.repository
            &&& deployment.branch == row.branch
            &&& deployment.sha == row.sha
            &&& deployment.image == row.image
            &&& deployment.image_reference == row.image_reference
            &&& deployment.image_digest == row.image_digest
            &&& deployment.stable_tag == row.stable_tag
            &&& deployment.status == status
            &&& deployment.deployed_at == row.deployed_at
            &&& deployment.healthcheck_url == row.healthcheck_url
            &&& deployment.healthcheck_status is Some <==> row.healthcheck_status is Some && 0
                <= row.healthcheck_status->0 <= 65535
            &&& deployment.healthcheck_status is Some ==> deployment.healthcheck_status->0
                == row.healthcheck_status->0
            &&& deployment.healthcheck_error == row.healthcheck_error
        }),
{
}

/// Law: the record of a deployment takes what was deployed from the job, the time from the
/// job's end where it has one, and the rest from what is given.
pub proof fn deployment_records_the_job(
    job: JobView,
    url: Option<Seq<char>>,
    status: DeploymentStatus,
    healthcheck_status: Option<u16>,
    healthcheck_error: Option<Seq<char>>,
    now: Timestamp,
)
    ensures
        ({
            let record = deployment_of_job(
                job,
                url,
                status,
                healthcheck_status,
                healthcheck_error,
                now,
            );
            &&& record.id == 0
            &&& record.job_id == job.id
            &&& record.project_id == job.project_id
            &&& record.repository == job.repository
            &&& record.branch == job.branch
            &&& record.sha == job.sha
            &&& record.image == job.image
            &&& record.image_reference == job.image_reference
            &&& record.image_digest == job.image_digest
            &&& record.stable_tag == job.stable_tag
            &&& record.status == status
            &&& job.finished_at is Some ==> record.deployed_at == job.finished_at->0
            &&& job.finished_at is None ==> record.deployed_at == now
            &&& record.healthcheck_url == url
            &&& record.healthcheck_status == healthcheck_status
            &&& record.healthcheck_error == healthcheck_error
        }),
{
}

/// Law: the address that a deployment records is that of the first project with the job's
/// project id, and there is none where there is no such project.
pub proof fn health_url_is_that_of_the_project(
    projects: Seq<ProjectConfig>,
    project_id: Seq<char>,
    url: Option<Seq<char>>,
    at: int,
)
    requires
        is_health_url(projects, project_id, url),
    ensures
        0 <= at < projects.len() && projects[at].id@ == project_id && (forall|i: int|
            0 <= i < at ==> (#[trigger] projects[i]).id@ != project_id) ==> url == opt_text(
            projects[at].healthcheck_url,
        ),
        (forall|i: int| 0 <= i < projects.len() ==> (#[trigger] projects[i]).id@ != project_id)
            ==> url is None,
{
    let found = choose|found: Option<usize>|
        #[trigger] is_first_project(projects, has_id(project_id), found) && url == match found {
            Some(at) => opt_text(projects[at as int].healthcheck_url),
            None => None,
        };
    if 0 <= at < projects.len() {
        project_is_found_by_its_id(projects, project_id, found, at);
    }
    if let Some(first) = found {
        project_is_found_by_its_id(projects, project_id, found, first as int);
    }
}

} // verus!
