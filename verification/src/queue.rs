//! Queueing jobs, and writing to their logs.

use vstd::prelude::*;
use vstd::string::*;

use crate::config::{find_project, has_id, is_first_project, ProjectConfig};
use crate::job::{Job, JobLogEntry, JobView, LogLine, LogLineView};
use crate::outside::{debug_form, format_debug, is_random_id, random_id};
use crate::status::{JobAction, JobStatus};
use crate::store::{StateStore, StoreView};
use crate::text::{copy_opt, first_chars, join2, join3, join5, opt_text, take_chars};
use crate::time::Timestamp;

verus! {

/// What a job is asked to do.
#[derive(Debug)]
pub struct EnqueueRequest {
    pub project_id: String,
    pub repository: String,
    pub branch: String,
    pub sha: String,
    pub delivery_id: Option<String>,
    pub action: JobAction,
    pub image_reference_override: Option<String>,
    pub source_deployment_id: Option<i64>,
}

/// What a request says, with texts as sequences of characters.
pub struct RequestView {
    pub project_id: Seq<char>,
    pub repository: Seq<char>,
    pub branch: Seq<char>,
    pub sha: Seq<char>,
    pub delivery_id: Option<Seq<char>>,
    pub action: JobAction,
    pub image_reference_override: Option<Seq<char>>,
    pub source_deployment_id: Option<i64>,
}

impl View for EnqueueRequest {
    type V = RequestView;

    open spec fn view(&self) -> RequestView {
        RequestView {
            project_id: self.project_id@,
            repository: self.repository@,
            branch: self.branch@,
            sha: self.sha@,
            delivery_id: opt_text(self.delivery_id),
            action: self.action,
            image_reference_override: opt_text(self.image_reference_override),
            source_deployment_id: self.source_deployment_id,
        }
    }
}

/// Why a job could not be queued.
#[derive(Debug)]
pub enum EnqueueError {
    ProjectMissing(String),
}

impl EnqueueError {
    /// Describes the error.
    pub fn message(&self) -> (message: String)
        ensures
            message@ == "project missing: "@ + self->ProjectMissing_0@,
    {
        match self {
            EnqueueError::ProjectMissing(project) => join2("project missing: ", project.as_str()),
        }
    }
}

/// The short form of a commit hash: its first twelve characters.
pub open spec fn short_sha(sha: Seq<char>) -> Seq<char> {
    first_chars(sha, 12)
}

/// The image reference of a commit, which no other commit's build overwrites.
pub open spec fn immutable_reference(image: Seq<char>, short_sha: Seq<char>) -> Seq<char> {
    image + ":sha-"@ + short_sha
}

/// Names the image of a commit.
pub fn immutable_image_reference(image: &str, short_sha: &str) -> (reference: String)
    ensures
        reference@ == immutable_reference(image@, short_sha@),
{
    join3(image, ":sha-", short_sha)
}

/// The job that a request for a project becomes.
pub open spec fn queued_job(
    project: ProjectConfig,
    request: RequestView,
    id: u128,
    now: Timestamp,
) -> JobView {
    JobView {
        id,
        project_id: project.id@,
        repository: request.repository,
        branch: request.branch,
        sha: request.sha,
        short_sha: short_sha(request.sha),
        delivery_id: request.delivery_id,
        source_deployment_id: request.source_deployment_id,
        action: request.action,
        status: JobStatus::Queued,
        created_at: now,
        started_at: None,
        finished_at: None,
        current_stage: Some("queued"@),
        error: None,
        image: project.image@,
        image_reference: match request.image_reference_override {
            Some(reference) => reference,
            None => immutable_reference(project.image@, short_sha(request.sha)),
        },
        image_digest: None,
        stable_tag: opt_text(project.stable_tag),
        portainer_webhook: opt_text(project.portainer_webhook),
        logs: Seq::empty(),
    }
}

/// The first line of a job's log, with the project id in quotes.
pub open spec fn queued_line(quoted_project: Seq<char>, branch: Seq<char>, sha: Seq<char>) -> LogLineView {
    LogLineView {
        level: "info"@,
        stage: "system"@,
        message: "Queued from "@ + quoted_project + " for "@ + branch + ("@"@ + sha),
    }
}

/// The first line of a job's log, for a project id that is already in quotes.
pub fn make_queued_line(quoted_project: &str, branch: &str, sha: &str) -> (line: LogLine)
    ensures
        line@ == queued_line(quoted_project@, branch@, sha@),
{
    LogLine {
        level: "info",
        stage: "system".to_owned(),
        message: join5("Queued from ", quoted_project, " for ", branch, join2("@", sha).as_str()),
    }
}

/// Whether the store has changed by a job, with this id and made at the time
/// `now`, that the request asks for.
pub open spec fn enqueued_as(
    before: StoreView,
    projects: Seq<ProjectConfig>,
    request: RequestView,
    id: u128,
    now: Timestamp,
    after: StoreView,
) -> bool {
    exists|at: usize|
        #![trigger projects[at as int]]
        is_first_project(projects, has_id(request.project_id), Some(at)) && after == before.added(
            queued_job(projects[at as int], request, id, now),
        )
}

/// Queues a job under a given id, at a given time.
pub fn enqueue_job_as(
    store: &mut StateStore,
    projects: &Vec<ProjectConfig>,
    request: &EnqueueRequest,
    id: u128,
    now: Timestamp,
) -> (queued: Result<(), EnqueueError>)
    requires
        old(store).wf(),
    ensures
        final(store).wf(),
        match queued {
            Ok(_) => enqueued_as(old(store)@, projects@, request@, id, now, final(store)@),
            Err(EnqueueError::ProjectMissing(project)) => {
                &&& project@ == request@.project_id
                &&& is_first_project(projects@, has_id(request@.project_id), None)
                &&& final(store)@ == old(store)@
            },
        },
{
    let at = match find_project(projects, request.project_id.as_str()) {
        Some(at) => at,
        None => {
            return Err(EnqueueError::ProjectMissing(request.project_id.clone()));
        },
    };
    let project = &projects[at];
    let short = take_chars(request.sha.as_str(), 12);
    let image_reference = match &request.image_reference_override {
        Some(reference) => reference.clone(),
        None => immutable_image_reference(project.image.as_str(), short.as_str()),
    };
    let job = Job {
        id,
        project_id: project.id.clone(),
        repository: request.repository.clone(),
        branch: request.branch.clone(),
        sha: request.sha.clone(),
        short_sha: short,
        delivery_id: copy_opt(&request.delivery_id),
        source_deployment_id: request.source_deployment_id,
        action: request.action,
        status: JobStatus::Queued,
        created_at: now,
        started_at: None,
        finished_at: None,
        current_stage: Some("queued".to_owned()),
        error: None,
        image: project.image.clone(),
        image_reference,
        image_digest: None,
        stable_tag: copy_opt(&project.stable_tag),
        portainer_webhook: copy_opt(&project.portainer_webhook),
        logs: Vec::new(),
    };
    proof {
        assert(job@ =~= queued_job(projects@[at as int], request@, id, now));
    }
    store.add(job);
    Ok(())
}

/// Whether an id was drawn at random.
pub closed spec fn is_drawn(id: u128) -> bool {
    call_ensures(random_id, (), id)
}

/// A job that was queued, and the first line of its log.
#[derive(Debug)]
pub struct QueuedJob {
    pub id: u128,
    pub line: LogLine,
}

/// Queues a job under a fresh random id.
pub fn enqueue_job(
    store: &mut StateStore,
    projects: &Vec<ProjectConfig>,
    request: &EnqueueRequest,
) -> (queued: Result<QueuedJob, EnqueueError>)
    requires
        old(store).wf(),
    ensures
        final(store).wf(),
        match queued {
            Ok(job) => {
                &&& is_random_id(job.id)
                &&& is_drawn(job.id)
                &&& exists|now: Timestamp|
                    now.valid() && now.is_reading() && #[trigger] enqueued_as(
                        old(store)@,
                        projects@,
                        request@,
                        job.id,
                        now,
                        final(store)@,
                    )
                &&& job.line@ == queued_line(
                    debug_form(request@.project_id),
                    request@.branch,
                    request@.sha,
                )
            },
            Err(EnqueueError::ProjectMissing(project)) => {
                &&& project@ == request@.project_id
                &&& is_first_project(projects@, has_id(request@.project_id), None)
                &&& final(store)@ == old(store)@
            },
        },
{
    let id = random_id();
    let now = Timestamp::now();
    match enqueue_job_as(store, projects, request, id, now) {
        Ok(_) => {
            let quoted = format_debug(request.project_id.as_str());
            let line = make_queued_line(
                quoted.as_str(),
                request.branch.as_str(),
                request.sha.as_str(),
            );
            Ok(QueuedJob { id, line })
        },
        Err(error) => Err(error),
    }
}

/// Writes a line to the log of a job at the time `now`; gives back the entry.
pub fn log_line_at(store: &mut StateStore, id: u128, line: LogLine, now: Timestamp) -> (entry:
    JobLogEntry)
    requires
        old(store).wf(),
    ensures
        final(store).wf(),
        entry@ == line@.at(now),
        final(store)@ == old(store)@.update(id, |job: JobView| job.logged(entry@)),
{
    let entry = JobLogEntry {
        ts: now,
        level: line.level.to_owned(),
        stage: line.stage,
        message: line.message,
    };
    store.append_log(id, entry.clone());
    entry
}

/// Writes a line to the log of a job now; gives back the entry.
pub fn log_line(store: &mut StateStore, id: u128, line: LogLine) -> (entry: JobLogEntry)
    requires
        old(store).wf(),
    ensures
        final(store).wf(),
        entry.ts.valid(),
        entry.ts.is_reading(),
        entry@ == line@.at(entry.ts),
        final(store)@ == old(store)@.update(id, |job: JobView| job.logged(entry@)),
{
    let now = Timestamp::now();
    log_line_at(store, id, line, now)
}

/// Law: commits that differ in their short forms get different image references.
pub proof fn image_references_are_distinct(image: Seq<char>, a: Seq<char>, b: Seq<char>)
    requires
        immutable_reference(image, a) == immutable_reference(image, b),
    ensures
        a == b,
{
    let start = (image + ":sha-"@).len() as int;
    assert(a =~= immutable_reference(image, a).skip(start));
    assert(b =~= immutable_reference(image, b).skip(start));
}

/// Law: what is said of a request is what its fields hold, each under its own name.
pub proof fn request_is_seen_by_its_fields(request: EnqueueRequest)
    ensures
        request@.project_id == request.project_id@,
        request@.repository == request.repository@,
        request@.branch == request.branch@,
        request@.sha == request.sha@,
        request@.delivery_id == opt_text(request.delivery_id),
        request@.action == request.action,
        request@.image_reference_override == opt_text(request.image_reference_override),
        request@.source_deployment_id == request.source_deployment_id,
{
}

/// Law: a queued job carries what the request asks for, whole, and takes its image, its
/// tag and its webhook from the project. It waits, and nothing has happened to it yet.
pub proof fn queued_job_carries_the_request(
    project: ProjectConfig,
    request: RequestView,
    id: u128,
    now: Timestamp,
)
    ensures
        ({
            let job = queued_job(project, request, id, now);
            &&& job.id == id
            &&& job.project_id == project.id@
            &&& job.repository == request.repository
            &&& job.branch == request.branch
            &&& job.sha == request.sha
            &&& job.sha.len() <= 12 ==> job.short_sha == job.sha
            &&& job.sha.len() > 12 ==> job.short_sha == job.sha.subrange(0, 12)
            &&& job.delivery_id == request.delivery_id
            &&& job.source_deployment_id == request.source_deployment_id
            &&& job.action == request.action
            &&& job.status == JobStatus::Queued
            &&& job.created_at == now
            &&& job.started_at is None
            &&& job.finished_at is None
            &&& job.current_stage == Some("queued"@)
            &&& job.error is None
            &&& job.image == project.image@
            &&& request.image_reference_override is Some ==> job.image_reference
                == request.image_reference_override->0
            &&& request.image_reference_override is None ==> job.image_reference
                == project.image@ + ":sha-"@ + job.short_sha
            &&& job.image_digest is None
            &&& job.stable_tag == opt_text(project.stable_tag)
            &&& job.portainer_webhook == opt_text(project.portainer_webhook)
            &&& job.logs.len() == 0
        }),
{
}

/// Law: queueing adds one job, last in the order, for the first project with the id
/// that the request names; every other job, and every lock, is as it was.
pub proof fn queueing_adds_one_job(
    before: StoreView,
    projects: Seq<ProjectConfig>,
    request: RequestView,
    id: u128,
    now: Timestamp,
    after: StoreView,
    other: u128,
)
    requires
        enqueued_as(before, projects, request, id, now, after),
    ensures
        after.order == before.order + seq![id],
        after.locks == before.locks,
        other != id ==> (after.jobs.contains_key(other) <==> before.jobs.contains_key(other)),
        other != id && before.jobs.contains_key(other) ==> after.jobs[other]
            == before.jobs[other],
        after.jobs.contains_key(id),
        ({
            let job = after.jobs[id];
            &&& job.id == id
            &&& job.project_id == request.project_id
            &&& job.repository == request.repository
            &&& job.branch == request.branch
            &&& job.sha == request.sha
            &&& job.delivery_id == request.delivery_id
            &&& job.source_deployment_id == request.source_deployment_id
            &&& job.action == request.action
            &&& job.status == JobStatus::Queued
            &&& job.created_at == now
            &&& request.image_reference_override is Some ==> job.image_reference
                == request.image_reference_override->0
            &&& exists|at: int|
                0 <= at < projects.len() && (#[trigger] projects[at]).id@ == request.project_id
                    && job.image == projects[at].image@ && forall|i: int|
                    0 <= i < at ==> (#[trigger] projects[i]).id@ != request.project_id
        }),
{
    let at = choose|at: usize|
        #![trigger projects[at as int]]
        is_first_project(projects, has_id(request.project_id), Some(at)) && after == before.added(
            queued_job(projects[at as int], request, id, now),
        );
    let wanted = has_id(request.project_id);
    assert(wanted(projects[at as int]));
    assert forall|i: int| 0 <= i < at implies (#[trigger] projects[i]).id@
        != request.project_id by {
        assert(!wanted(projects[i]));
    }
    assert(after.order =~= before.order + seq![id]);
    assert(projects[at as int].image@ == after.jobs[id].image);
}

/// Law: the first line of a job's log names the project, the branch and the whole
/// commit hash.
pub proof fn first_line_names_the_commit(
    quoted_project: Seq<char>,
    branch: Seq<char>,
    sha: Seq<char>,
)
    ensures
        queued_line(quoted_project, branch, sha).level == "info"@,
        queued_line(quoted_project, branch, sha).stage == "system"@,
        queued_line(quoted_project, branch, sha).message == "Queued from "@ + quoted_project
            + " for "@ + branch + "@"@ + sha,
{
    assert(queued_line(quoted_project, branch, sha).message =~= "Queued from "@ + quoted_project
        + " for "@ + branch + "@"@ + sha);
}

} // verus!
