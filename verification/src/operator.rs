//! What operators ask for: to look at jobs, to cancel and to retry them, and to
//! deploy an earlier image again.

use axum::http::HeaderMap;
use vstd::prelude::*;
use vstd::string::*;

use crate::api::{accept, accepted, decline, declined, ApiError, EnqueueResponse};
use crate::auth::{may_access, verify_api_auth};
use crate::config::{has_id, is_first_project, AuthConfig, ProjectConfig};
use crate::job::{Deployment, DeploymentView, Job, JobView, LogLine, LogLineView};
use crate::outside::{debug_form, header_fields, is_random_id};
use crate::queue::{enqueue_job, enqueued_as, is_drawn, queued_job, queued_line, queueing_adds_one_job, EnqueueRequest, QueuedJob, RequestView};
use crate::status::{DeploymentStatus, JobAction, JobStatus};
use crate::store::{StateStore, StoreView};
use crate::text::{copy_opt, decimal, format_i64, join5, opt_str};
use crate::time::Timestamp;

verus! {

/// Looks a job up.
pub fn find_job(store: &StateStore, id: u128) -> (job: Result<&Job, ApiError>)
    requires
        store.wf(),
    ensures
        match job {
            Ok(job) => store@.jobs.contains_key(id) && job@ == store@.jobs[id],
            Err(error) => error == ApiError::NotFound && !store@.jobs.contains_key(id),
        },
{
    match store.get_job(id) {
        Some(job) => Ok(job),
        None => Err(ApiError::NotFound),
    }
}

/// Whether the log of a job may be followed: the token is checked first, then
/// whether the job is there.
pub fn job_events(
    store: &StateStore,
    auth: &Option<AuthConfig>,
    headers: &HeaderMap,
    token: Option<&str>,
    id: u128,
) -> (verdict: Result<(), ApiError>)
    requires
        store.wf(),
    ensures
        verdict == if !may_access(*auth, header_fields(*headers), opt_str(token)) {
            Err(ApiError::Unauthorized)
        } else if !store@.jobs.contains_key(id) {
            Err(ApiError::NotFound)
        } else {
            Ok(())
        },
{
    match verify_api_auth(auth, headers, token) {
        Ok(_) => {},
        Err(error) => {
            return Err(error);
        },
    }
    if store.contains_job(id) {
        Ok(())
    } else {
        Err(ApiError::NotFound)
    }
}

/// What is to be done once a job's cancellation is asked for.
#[derive(Debug)]
pub struct CancelAnswer {
    /// The line to log once the running job has been told, where there is one.
    pub signal: Option<LogLine>,
    pub response: EnqueueResponse,
}

/// The line that tells of a cancellation.
pub open spec fn cancel_line() -> LogLineView {
    LogLineView { level: "warn"@, stage: "system"@, message: "Cancel requested"@ }
}

/// Answers a request for cancellation. `found` says whether the job is there,
/// `running` whether a worker runs it and can be told.
pub fn answer_cancel(id: u128, found: bool, running: bool) -> (answer: Result<
    CancelAnswer,
    ApiError,
>)
    ensures
        match answer {
            Ok(answer) => {
                &&& found
                &&& answer.response@ == accepted(id, "cancel requested"@)
                &&& match answer.signal {
                    Some(line) => running && line@ == cancel_line(),
                    None => !running,
                }
            },
            Err(error) => !found && error == ApiError::NotFound,
        },
{
    if !found {
        return Err(ApiError::NotFound);
    }
    let signal = if running {
        Some(
            LogLine {
                level: "warn",
                stage: "system".to_owned(),
                message: "Cancel requested".to_owned(),
            },
        )
    } else {
        None
    };
    Ok(CancelAnswer { signal, response: accept(id, "cancel requested") })
}

/// A job that an operator's request has queued.
#[derive(Debug)]
pub struct Submission {
    pub job: QueuedJob,
    /// The line to log once the job has been handed to the workers.
    pub follow_up: Option<LogLine>,
    pub response: EnqueueResponse,
}

/// What a follow-up line says.
pub open spec fn follow_up_view(line: Option<LogLine>) -> Option<LogLineView> {
    match line {
        Some(line) => Some(line@),
        None => None,
    }
}

/// Whether the store has changed by the job that a request asks for, the answer
/// and the lines to log being these.
pub open spec fn submitted(
    before: StoreView,
    projects: Seq<ProjectConfig>,
    request: RequestView,
    follow_up: Option<LogLineView>,
    message: Seq<char>,
    after: StoreView,
    submission: Submission,
) -> bool {
    &&& is_random_id(submission.job.id)
    &&& is_drawn(submission.job.id)
    &&& exists|now: Timestamp|
        now.valid() && now.is_reading() && #[trigger] enqueued_as(
            before,
            projects,
            request,
            submission.job.id,
            now,
            after,
        )
    &&& submission.job.line@ == queued_line(
        debug_form(request.project_id),
        request.branch,
        request.sha,
    )
    &&& follow_up_view(submission.follow_up) == follow_up
    &&& submission.response@ == accepted(submission.job.id, message)
}

/// Queues the job that a request asks for. Fails where its project is not
/// configured.
fn submit(
    store: &mut StateStore,
    projects: &Vec<ProjectConfig>,
    request: &EnqueueRequest,
    follow_up: Option<LogLine>,
    message: &str,
) -> (submission: Result<Submission, ApiError>)
    requires
        old(store).wf(),
    ensures
        final(store).wf(),
        match submission {
            Ok(submission) => submitted(
                old(store)@,
                projects@,
                request@,
                follow_up_view(follow_up),
                message@,
                final(store)@,
                submission,
            ),
            Err(error) => {
                &&& error == ApiError::Internal
                &&& is_first_project(projects@, has_id(request@.project_id), None)
                &&& final(store)@ == old(store)@
            },
        },
{
    match enqueue_job(store, projects, request) {
        Ok(job) => {
            let response = accept(job.id, message);
            Ok(Submission { job, follow_up, response })
        },
        Err(_) => Err(ApiError::Internal),
    }
}

/// The request that a retry of a job makes: the same commit of the same branch,
/// with the image that the job had.
pub open spec fn retry_request(job: JobView) -> RequestView {
    RequestView {
        project_id: job.project_id,
        repository: job.repository,
        branch: job.branch,
        sha: job.sha,
        delivery_id: job.delivery_id,
        action: JobAction::Retry,
        image_reference_override: Some(job.image_reference),
        source_deployment_id: job.source_deployment_id,
    }
}

/// Queues a job again.
pub fn retry_job(store: &mut StateStore, projects: &Vec<ProjectConfig>, id: u128) -> (submission:
    Result<Submission, ApiError>)
    requires
        old(store).wf(),
    ensures
        final(store).wf(),
        match submission {
            Ok(submission) => old(store)@.jobs.contains_key(id) && submitted(
                old(store)@,
                projects@,
                retry_request(old(store)@.jobs[id]),
                None,
                "retry queued"@,
                final(store)@,
                submission,
            ),
            Err(ApiError::NotFound) => {
                &&& !old(store)@.jobs.contains_key(id)
                &&& final(store)@ == old(store)@
            },
            Err(error) => {
                &&& error == ApiError::Internal
                &&& old(store)@.jobs.contains_key(id)
                &&& is_first_project(projects@, has_id(old(store)@.jobs[id].project_id), None)
                &&& final(store)@ == old(store)@
            },
        },
{
    let request = match store.get_job(id) {
        None => {
            return Err(ApiError::NotFound);
        },
        Some(job) => EnqueueRequest {
            project_id: job.project_id.clone(),
            repository: job.repository.clone(),
            branch: job.branch.clone(),
            sha: job.sha.clone(),
            delivery_id: copy_opt(&job.delivery_id),
            action: JobAction::Retry,
            image_reference_override: Some(job.image_reference.clone()),
            source_deployment_id: job.source_deployment_id,
        },
    };
    submit(store, projects, &request, None, "retry queued")
}

/// The request that deploys the image of an earlier deployment again.
pub open spec fn replay_request(deployment: DeploymentView, action: JobAction) -> RequestView {
    RequestView {
        project_id: deployment.project_id,
        repository: deployment.repository,
        branch: deployment.branch,
        sha: deployment.sha,
        delivery_id: None,
        action,
        image_reference_override: Some(deployment.image_reference),
        source_deployment_id: Some(deployment.id),
    }
}

fn make_replay_request(deployment: &Deployment, action: JobAction) -> (request: EnqueueRequest)
    ensures
        request@ == replay_request(deployment@, action),
{
    EnqueueRequest {
        project_id: deployment.project_id.clone(),
        repository: deployment.repository.clone(),
        branch: deployment.branch.clone(),
        sha: deployment.sha.clone(),
        delivery_id: None,
        action,
        image_reference_override: Some(deployment.image_reference.clone()),
        source_deployment_id: Some(deployment.id),
    }
}

/// The line that tells of a manual deployment.
pub open spec fn redeploy_line() -> LogLineView {
    LogLineView { level: "info"@, stage: "system"@, message: "Manual redeploy requested"@ }
}

/// Deploys a project again. `source` is its latest successful deployment, or
/// nothing where there is none.
pub fn redeploy_project(
    store: &mut StateStore,
    projects: &Vec<ProjectConfig>,
    source: Option<Deployment>,
) -> (submission: Result<Submission, ApiError>)
    requires
        old(store).wf(),
    ensures
        final(store).wf(),
        match submission {
            Ok(submission) => source is Some && submitted(
                old(store)@,
                projects@,
                replay_request(source->0@, JobAction::Manual),
                Some(redeploy_line()),
                "manual redeploy queued"@,
                final(store)@,
                submission,
            ),
            Err(ApiError::NotFound) => source is None && final(store)@ == old(store)@,
            Err(error) => {
                &&& error == ApiError::Internal
                &&& source is Some
                &&& is_first_project(projects@, has_id(source->0@.project_id), None)
                &&& final(store)@ == old(store)@
            },
        },
{
    let source = match source {
        Some(source) => source,
        None => {
            return Err(ApiError::NotFound);
        },
    };
    let request = make_replay_request(&source, JobAction::Manual);
    let line = LogLine {
        level: "info",
        stage: "system".to_owned(),
        message: "Manual redeploy requested".to_owned(),
    };
    submit(store, projects, &request, Some(line), "manual redeploy queued")
}

/// The line that tells of a rollback.
pub open spec fn rollback_line(deployment_id: i64, image_reference: Seq<char>) -> LogLineView {
    LogLineView {
        level: "warn"@,
        stage: "system"@,
        message: "Rollback requested from deployment #"@ + decimal(deployment_id as int) + " ("@
            + image_reference + ")"@,
    }
}

/// The answer to a request for a rollback.
#[derive(Debug)]
pub enum RollbackOutcome {
    /// The deployment had failed, and nothing was queued.
    Declined(EnqueueResponse),
    Queued(Submission),
}

/// Deploys the image of an earlier deployment. `deployment` is the deployment
/// with the id `deployment_id`, or nothing where there is none.
pub fn rollback_deployment(
    store: &mut StateStore,
    projects: &Vec<ProjectConfig>,
    deployment_id: i64,
    deployment: Option<Deployment>,
) -> (outcome: Result<RollbackOutcome, ApiError>)
    requires
        old(store).wf(),
    ensures
        final(store).wf(),
        match outcome {
            Ok(RollbackOutcome::Declined(response)) => {
                &&& deployment is Some
                &&& deployment->0.status != DeploymentStatus::Success
                &&& response@ == declined("only successful deployments can be rolled back"@)
                &&& final(store)@ == old(store)@
            },
            Ok(RollbackOutcome::Queued(submission)) => {
                &&& deployment is Some
                &&& deployment->0.status == DeploymentStatus::Success
                &&& submitted(
                    old(store)@,
                    projects@,
                    replay_request(deployment->0@, JobAction::Rollback),
                    Some(rollback_line(deployment_id, deployment->0@.image_reference)),
                    "rollback queued"@,
                    final(store)@,
                    submission,
                )
            },
            Err(ApiError::NotFound) => deployment is None && final(store)@ == old(store)@,
            Err(error) => {
                &&& error == ApiError::Internal
                &&& deployment is Some
                &&& deployment->0.status == DeploymentStatus::Success
                &&& is_first_project(projects@, has_id(deployment->0@.project_id), None)
                &&& final(store)@ == old(store)@
            },
        },
{
    let deployment = match deployment {
        Some(deployment) => deployment,
        None => {
            return Err(ApiError::NotFound);
        },
    };
    if deployment.status != DeploymentStatus::Success {
        return Ok(
            RollbackOutcome::Declined(
                decline("only successful deployments can be rolled back".to_owned()),
            ),
        );
    }
    let request = make_replay_request(&deployment, JobAction::Rollback);
    let line = LogLine {
        level: "warn",
        stage: "system".to_owned(),
        message: join5(
            "Rollback requested from deployment #",
            format_i64(deployment_id).as_str(),
            " (",
            deployment.image_reference.as_str(),
            ")",
        ),
    };
    match submit(store, projects, &request, Some(line), "rollback queued") {
        Ok(submission) => Ok(RollbackOutcome::Queued(submission)),
        Err(error) => Err(error),
    }
}

/// Law: a retry deploys what the job deployed: the same commit of the same branch,
/// in the same image.
pub proof fn retry_repeats_the_job(project: ProjectConfig, job: JobView, id: u128, now: Timestamp)
    ensures
        ({
            let again = queued_job(project, retry_request(job), id, now);
            &&& again.action == JobAction::Retry
            &&& again.status == JobStatus::Queued
            &&& again.image_reference == job.image_reference
            &&& again.sha == job.sha
            &&& again.lock() == job.lock()
            &&& again.delivery_id == job.delivery_id
            &&& again.source_deployment_id == job.source_deployment_id
        }),
{
}

/// Law: a redeploy or a rollback deploys the image of the earlier deployment, which
/// need not be built again, and names that deployment as its source.
pub proof fn replay_deploys_the_same_image(
    project: ProjectConfig,
    deployment: DeploymentView,
    action: JobAction,
    id: u128,
    now: Timestamp,
)
    ensures
        ({
            let job = queued_job(project, replay_request(deployment, action), id, now);
            &&& job.action == action
            &&& job.image_reference == deployment.image_reference
            &&& job.sha == deployment.sha
            &&& job.repository == deployment.repository
            &&& job.branch == deployment.branch
            &&& job.source_deployment_id == Some(deployment.id)
        }),
{
}

/// Law: a retry asks for just what the job was: its project, repository, branch,
/// commit, delivery and source, and the image that it had.
pub proof fn retry_asks_for_the_same(job: JobView)
    ensures
        retry_request(job).project_id == job.project_id,
        retry_request(job).repository == job.repository,
        retry_request(job).branch == job.branch,
        retry_request(job).sha == job.sha,
        retry_request(job).delivery_id == job.delivery_id,
        retry_request(job).action == JobAction::Retry,
        retry_request(job).image_reference_override == Some(job.image_reference),
        retry_request(job).source_deployment_id == job.source_deployment_id,
{
}

/// Law: a redeploy or a rollback asks for just what was deployed: its project,
/// repository, branch, commit and image.
pub proof fn replay_asks_for_what_was_deployed(deployment: DeploymentView, action: JobAction)
    ensures
        replay_request(deployment, action).project_id == deployment.project_id,
        replay_request(deployment, action).repository == deployment.repository,
        replay_request(deployment, action).branch == deployment.branch,
        replay_request(deployment, action).sha == deployment.sha,
        replay_request(deployment, action).delivery_id is None,
        replay_request(deployment, action).action == action,
        replay_request(deployment, action).image_reference_override == Some(
            deployment.image_reference,
        ),
        replay_request(deployment, action).source_deployment_id == Some(deployment.id),
{
}

/// Law: a submission has queued one job that carries what was asked for, under the id
/// with which it is answered; every other job, and every lock, is as it was.
pub proof fn submission_queues_what_was_asked(
    before: StoreView,
    projects: Seq<ProjectConfig>,
    request: RequestView,
    follow_up: Option<LogLineView>,
    message: Seq<char>,
    after: StoreView,
    submission: Submission,
    other: u128,
)
    requires
        submitted(before, projects, request, follow_up, message, after, submission),
    ensures
        submission.response.accepted,
        submission.response.job_id == Some(submission.job.id),
        submission.response.message@ == message,
        follow_up is None <==> submission.follow_up is None,
        follow_up is Some ==> submission.follow_up->0@ == follow_up->0,
        after.order == before.order + seq![submission.job.id],
        after.locks == before.locks,
        other != submission.job.id && before.jobs.contains_key(other) ==> after.jobs.contains_key(
            other,
        ) && after.jobs[other] == before.jobs[other],
        after.jobs.contains_key(submission.job.id),
        ({
            let job = after.jobs[submission.job.id];
            &&& job.project_id == request.project_id
            &&& job.repository == request.repository
            &&& job.branch == request.branch
            &&& job.sha == request.sha
            &&& job.delivery_id == request.delivery_id
            &&& job.action == request.action
            &&& job.status == JobStatus::Queued
            &&& job.source_deployment_id == request.source_deployment_id
            &&& request.image_reference_override is Some ==> job.image_reference
                == request.image_reference_override->0
        }),
{
    let id = submission.job.id;
    let now = choose|now: Timestamp|
        now.valid() && now.is_reading() && #[trigger] enqueued_as(
            before,
            projects,
            request,
            id,
            now,
            after,
        );
    queueing_adds_one_job(before, projects, request, id, now, after, id);
    queueing_adds_one_job(before, projects, request, id, now, after, other);
}

/// Law: what is logged of a cancellation, a redeploy and a rollback says so, and the
/// rollback names the deployment and its image.
pub proof fn requests_are_logged(deployment_id: i64, image_reference: Seq<char>)
    ensures
        cancel_line().level == "warn"@,
        cancel_line().stage == "system"@,
        cancel_line().message == "Cancel requested"@,
        redeploy_line().level == "info"@,
        redeploy_line().stage == "system"@,
        redeploy_line().message == "Manual redeploy requested"@,
        rollback_line(deployment_id, image_reference).level == "warn"@,
        rollback_line(deployment_id, image_reference).stage == "system"@,
        rollback_line(deployment_id, image_reference).message
            == "Rollback requested from deployment #"@ + decimal(deployment_id as int) + " ("@
            + image_reference + ")"@,
{
}

} // verus!
