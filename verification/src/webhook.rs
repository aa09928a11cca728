//! GitHub webhooks: which are accepted, and the jobs that pushes start.

use axum::http::HeaderMap;
use vstd::prelude::*;
use vstd::string::*;
use vstd::utf8::encode_utf8;

use crate::api::{accept, accepted, decline, declined, ApiError, EnqueueResponse};
use crate::config::{
    find_mapping, follows, has_id, is_first_project, project_is_found_by_its_branch, ProjectConfig,
};
use crate::outside::{debug_form, header_fields, header_text, header_value_text, is_header_name, is_random_id};
use crate::queue::{enqueue_job, enqueued_as, is_drawn, queued_job, queued_job_carries_the_request, queued_line, queueing_adds_one_job, EnqueueError, EnqueueRequest, QueuedJob, RequestView};
use crate::signature::{signature_verdict, validate_signature, SignatureError};
use crate::status::{JobAction, JobStatus};
use crate::store::{StateStore, StoreView};
use crate::text::{first_chars, join2, join4, opt_text, prefix_is_taken_off, same_text, strip_prefix, stripped_prefix};
use crate::time::Timestamp;

verus! {

/// The part of a push event that is read.
#[derive(Debug)]
pub struct GithubPushEvent {
    pub after: String,
    pub ref_name: String,
    pub repository: GithubRepository,
}

/// The repository of a push event.
#[derive(Debug)]
pub struct GithubRepository {
    pub full_name: String,
}

/// What a webhook is, before its body is parsed.
#[derive(Debug)]
pub enum WebhookGate {
    /// Its signature is refused.
    Rejected(SignatureError),
    /// It is another event than a push.
    Ignored(EnqueueResponse),
    /// It is a push, and its body is to be parsed.
    Push,
}

/// The name of the event, empty where none is given.
pub open spec fn event_name(fields: Map<Seq<char>, Seq<u8>>) -> Seq<char> {
    match header_value_text(fields, "x-github-event"@) {
        Some(name) => name,
        None => Seq::empty(),
    }
}

/// The verdict on the signature of a webhook with these headers and this body.
pub open spec fn webhook_verdict(
    secret: Seq<char>,
    fields: Map<Seq<char>, Seq<u8>>,
    body: Seq<char>,
) -> Result<(), SignatureError> {
    signature_verdict(
        secret,
        header_value_text(fields, "x-hub-signature-256"@),
        encode_utf8(body),
    )
}

/// Decides on an event by its name.
pub fn gate_event(event: &str) -> (gate: WebhookGate)
    ensures
        match gate {
            WebhookGate::Push => event@ == "push"@,
            WebhookGate::Ignored(response) => event@ != "push"@ && response@ == declined(
                "ignored event: "@ + event@,
            ),
            WebhookGate::Rejected(_) => false,
        },
{
    if same_text(event, "push") {
        WebhookGate::Push
    } else {
        WebhookGate::Ignored(decline(join2("ignored event: ", event)))
    }
}

/// Checks the signature of a webhook, then its event.
pub fn webhook_gate(secret: &str, headers: &HeaderMap, body: &str) -> (gate: WebhookGate)
    ensures
        ({
            let fields = header_fields(*headers);
            let verdict = webhook_verdict(secret@, fields, body@);
            match gate {
                WebhookGate::Rejected(reason) => verdict == Err::<(), SignatureError>(reason),
                WebhookGate::Ignored(response) => verdict is Ok && event_name(fields) != "push"@
                    && response@ == declined("ignored event: "@ + event_name(fields)),
                WebhookGate::Push => verdict is Ok && event_name(fields) == "push"@,
            }
        }),
{
    match validate_signature(secret, headers, body.as_bytes()) {
        Ok(_) => {},
        Err(reason) => {
            return WebhookGate::Rejected(reason);
        },
    }
    proof {
        reveal_strlit("x-github-event");
        assert(is_header_name("x-github-event"@));
    }
    let event = match header_text(headers, "x-github-event") {
        Some(event) => event,
        None => String::new(),
    };
    gate_event(event.as_str())
}

/// The branch that a reference names: what follows `refs/heads/`, or all of it.
pub open spec fn branch_of(ref_name: Seq<char>) -> Seq<char> {
    match stripped_prefix(ref_name, "refs/heads/"@) {
        Some(branch) => branch,
        None => ref_name,
    }
}

/// The branch that a reference names.
pub fn branch_name(ref_name: &str) -> (branch: String)
    ensures
        branch@ == branch_of(ref_name@),
{
    match strip_prefix(ref_name, "refs/heads/") {
        Some(branch) => branch.to_owned(),
        None => ref_name.to_owned(),
    }
}

/// The request that a push to a project's branch makes.
pub open spec fn push_request(
    project: ProjectConfig,
    event: GithubPushEvent,
    delivery_id: Option<Seq<char>>,
) -> RequestView {
    RequestView {
        project_id: project.id@,
        repository: event.repository.full_name@,
        branch: branch_of(event.ref_name@),
        sha: event.after@,
        delivery_id,
        action: JobAction::Webhook,
        image_reference_override: None,
        source_deployment_id: None,
    }
}

/// Where a push leads.
#[derive(Debug)]
pub enum PushRoute {
    /// No project follows the branch.
    NoProject(EnqueueResponse),
    /// A job is to be queued.
    Enqueue(EnqueueRequest),
}

/// The projects that follow the branch of a push.
pub open spec fn pushed_to(event: GithubPushEvent) -> spec_fn(ProjectConfig) -> bool {
    follows(event.repository.full_name@, branch_of(event.ref_name@))
}

/// The answer to a push that no project follows.
pub open spec fn no_project_text(event: GithubPushEvent) -> Seq<char> {
    "no project mapping for "@ + event.repository.full_name@ + ":"@ + branch_of(event.ref_name@)
}

/// Finds the first project that follows the branch of a push.
pub fn route_push(
    projects: &Vec<ProjectConfig>,
    event: &GithubPushEvent,
    delivery_id: Option<String>,
) -> (route: PushRoute)
    ensures
        match route {
            PushRoute::NoProject(response) => {
                &&& is_first_project(projects@, pushed_to(*event), None)
                &&& response@ == declined(no_project_text(*event))
            },
            PushRoute::Enqueue(request) => exists|at: usize|
                #![trigger projects@[at as int]]
                is_first_project(projects@, pushed_to(*event), Some(at)) && request@
                    == push_request(projects@[at as int], *event, opt_text(delivery_id)),
        },
{
    let branch = branch_name(event.ref_name.as_str());
    match find_mapping(projects, event.repository.full_name.as_str(), branch.as_str()) {
        None => PushRoute::NoProject(
            decline(
                join4(
                    "no project mapping for ",
                    event.repository.full_name.as_str(),
                    ":",
                    branch.as_str(),
                ),
            ),
        ),
        Some(at) => PushRoute::Enqueue(
            EnqueueRequest {
                project_id: projects[at].id.clone(),
                repository: event.repository.full_name.clone(),
                branch,
                sha: event.after.clone(),
                delivery_id,
                action: JobAction::Webhook,
                image_reference_override: None,
                source_deployment_id: None,
            },
        ),
    }
}

/// What became of a webhook.
#[derive(Debug)]
pub enum WebhookOutcome {
    /// It is another event than a push.
    Ignored(EnqueueResponse),
    /// No project follows the branch.
    NoProject(EnqueueResponse),
    /// A job was queued.
    Queued(QueuedJob, EnqueueResponse),
}

/// Why a webhook is refused.
#[derive(Debug)]
pub enum WebhookError {
    Signature(SignatureError),
    /// The body is no push event.
    Unreadable,
    Enqueue(EnqueueError),
}

impl WebhookError {
    /// The answer to the sender.
    pub fn answer(&self) -> (answer: ApiError)
        ensures
            answer == match self {
                WebhookError::Signature(_) => ApiError::Unauthorized,
                WebhookError::Unreadable => ApiError::BadRequest,
                WebhookError::Enqueue(_) => ApiError::Internal,
            },
    {
        match self {
            WebhookError::Signature(_) => ApiError::Unauthorized,
            WebhookError::Unreadable => ApiError::BadRequest,
            WebhookError::Enqueue(_) => ApiError::Internal,
        }
    }
}

/// Whether the store has changed by the job that a push starts for the first
/// project that follows its branch.
pub open spec fn push_queued(
    before: StoreView,
    projects: Seq<ProjectConfig>,
    event: GithubPushEvent,
    delivery_id: Option<Seq<char>>,
    after: StoreView,
    job: QueuedJob,
) -> bool {
    &&& is_random_id(job.id)
    &&& is_drawn(job.id)
    &&& exists|at: usize, now: Timestamp|
        #![trigger projects[at as int], now.valid()]
        {
            let request = push_request(projects[at as int], event, delivery_id);
            &&& is_first_project(projects, pushed_to(event), Some(at))
            &&& now.valid()
            &&& now.is_reading()
            &&& enqueued_as(before, projects, request, job.id, now, after)
            &&& job.line@ == queued_line(
                debug_form(request.project_id),
                request.branch,
                request.sha,
            )
        }
}

/// Queues the job that a push starts.
fn queue_push(
    store: &mut StateStore,
    projects: &Vec<ProjectConfig>,
    event: GithubPushEvent,
    delivery_id: Option<String>,
) -> (outcome: Result<WebhookOutcome, WebhookError>)
    requires
        old(store).wf(),
    ensures
        final(store).wf(),
        match outcome {
            Ok(WebhookOutcome::NoProject(response)) => {
                &&& is_first_project(projects@, pushed_to(event), None)
                &&& response@ == declined(no_project_text(event))
                &&& final(store)@ == old(store)@
            },
            Ok(WebhookOutcome::Queued(job, response)) => {
                &&& response@ == accepted(job.id, "job queued"@)
                &&& push_queued(
                    old(store)@,
                    projects@,
                    event,
                    opt_text(delivery_id),
                    final(store)@,
                    job,
                )
            },
            _ => false,
        },
{
    let request = match route_push(projects, &event, delivery_id) {
        PushRoute::NoProject(response) => {
            return Ok(WebhookOutcome::NoProject(response));
        },
        PushRoute::Enqueue(request) => request,
    };
    match enqueue_job(store, projects, &request) {
        Ok(job) => {
            let response = accept(job.id, "job queued");
            Ok(WebhookOutcome::Queued(job, response))
        },
        Err(error) => {
            proof {
                let at = choose|at: usize|
                    #![trigger projects@[at as int]]
                    is_first_project(projects@, pushed_to(event), Some(at)) && request@
                        == push_request(projects@[at as int], event, opt_text(delivery_id));
                assert(has_id(request@.project_id)(projects@[at as int]));
            }
            Err(WebhookError::Enqueue(error))
        },
    }
}

/// Answers a webhook: checks its signature, then its event, and queues the job that
/// a push starts. `event` is what the body says, or nothing where it is no push
/// event; it counts only where the signature is accepted and the event is a push.
pub fn github_webhook(
    store: &mut StateStore,
    projects: &Vec<ProjectConfig>,
    secret: &str,
    headers: &HeaderMap,
    body: &str,
    event: Option<GithubPushEvent>,
) -> (outcome: Result<WebhookOutcome, WebhookError>)
    requires
        old(store).wf(),
    ensures
        final(store).wf(),
        ({
            let fields = header_fields(*headers);
            let verdict = webhook_verdict(secret@, fields, body@);
            match outcome {
                Err(WebhookError::Signature(reason)) => {
                    &&& verdict == Err::<(), SignatureError>(reason)
                    &&& final(store)@ == old(store)@
                },
                Ok(WebhookOutcome::Ignored(response)) => {
                    &&& verdict is Ok
                    &&& event_name(fields) != "push"@
                    &&& response@ == declined("ignored event: "@ + event_name(fields))
                    &&& final(store)@ == old(store)@
                },
                Err(WebhookError::Unreadable) => {
                    &&& verdict is Ok
                    &&& event_name(fields) == "push"@
                    &&& event is None
                    &&& final(store)@ == old(store)@
                },
                Ok(WebhookOutcome::NoProject(response)) => {
                    &&& verdict is Ok
                    &&& event_name(fields) == "push"@
                    &&& event is Some
                    &&& is_first_project(projects@, pushed_to(event->0), None)
                    &&& response@ == declined(no_project_text(event->0))
                    &&& final(store)@ == old(store)@
                },
                Ok(WebhookOutcome::Queued(job, response)) => {
                    &&& verdict is Ok
                    &&& event_name(fields) == "push"@
                    &&& event is Some
                    &&& response@ == accepted(job.id, "job queued"@)
                    &&& push_queued(
                        old(store)@,
                        projects@,
                        event->0,
                        header_value_text(fields, "x-github-delivery"@),
                        final(store)@,
                        job,
                    )
                },
                Err(WebhookError::Enqueue(_)) => false,
            }
        }),
{
    match webhook_gate(secret, headers, body) {
        WebhookGate::Rejected(reason) => {
            return Err(WebhookError::Signature(reason));
        },
        WebhookGate::Ignored(response) => {
            return Ok(WebhookOutcome::Ignored(response));
        },
        WebhookGate::Push => {},
    }
    let event = match event {
        Some(event) => event,
        None => {
            return Err(WebhookError::Unreadable);
        },
    };
    proof {
        reveal_strlit("x-github-delivery");
        assert(is_header_name("x-github-delivery"@));
    }
    let delivery_id = header_text(headers, "x-github-delivery");
    queue_push(store, projects, event, delivery_id)
}

/// Law: a push is deployed under a reference of its own: the image of the project,
/// tagged with the first twelve characters of the commit.
pub proof fn push_gets_an_immutable_reference(
    project: ProjectConfig,
    event: GithubPushEvent,
    delivery_id: Option<Seq<char>>,
    id: u128,
    now: Timestamp,
)
    ensures
        queued_job(project, push_request(project, event, delivery_id), id, now).image_reference
            == project.image@ + ":sha-"@ + first_chars(event.after@, 12),
{
}

/// Law: a reference of a branch names that branch, whole; another reference names
/// itself.
pub proof fn branch_is_named_by_its_reference(branch: Seq<char>, ref_name: Seq<char>)
    ensures
        branch_of("refs/heads/"@ + branch) == branch,
        "refs/heads/"@.is_prefix_of(ref_name) ==> ref_name == "refs/heads/"@ + branch_of(ref_name),
        !"refs/heads/"@.is_prefix_of(ref_name) ==> branch_of(ref_name) == ref_name,
{
    prefix_is_taken_off("refs/heads/"@, branch, ref_name);
}

/// Law: the request of a push names the project, and carries the repository, the
/// branch and the whole commit hash of the push; it starts from no earlier deployment
/// and no given image.
pub proof fn push_request_carries_the_push(
    project: ProjectConfig,
    event: GithubPushEvent,
    delivery_id: Option<Seq<char>>,
    branch: Seq<char>,
)
    ensures
        ({
            let request = push_request(project, event, delivery_id);
            &&& request.project_id == project.id@
            &&& request.repository == event.repository.full_name@
            &&& request.sha == event.after@
            &&& event.ref_name@ == "refs/heads/"@ + branch ==> request.branch == branch
            &&& !"refs/heads/"@.is_prefix_of(event.ref_name@) ==> request.branch
                == event.ref_name@
            &&& request.delivery_id == delivery_id
            &&& request.action == JobAction::Webhook
            &&& request.image_reference_override is None
            &&& request.source_deployment_id is None
        }),
{
    branch_is_named_by_its_reference(branch, event.ref_name@);
}

/// Law: the job that a push queues carries the repository, the branch and the whole
/// commit hash of the push.
pub proof fn pushed_job_carries_the_push(
    before: StoreView,
    projects: Seq<ProjectConfig>,
    event: GithubPushEvent,
    delivery_id: Option<Seq<char>>,
    after: StoreView,
    queued: QueuedJob,
    branch: Seq<char>,
)
    requires
        push_queued(before, projects, event, delivery_id, after, queued),
    ensures
        after.jobs.contains_key(queued.id),
        after.order == before.order + seq![queued.id],
        after.locks == before.locks,
        ({
            let job = after.jobs[queued.id];
            &&& job.id == queued.id
            &&& job.repository == event.repository.full_name@
            &&& job.sha == event.after@
            &&& event.ref_name@ == "refs/heads/"@ + branch ==> job.branch == branch
            &&& !"refs/heads/"@.is_prefix_of(event.ref_name@) ==> job.branch == event.ref_name@
            &&& job.delivery_id == delivery_id
            &&& job.action == JobAction::Webhook
            &&& job.status == JobStatus::Queued
            &&& job.source_deployment_id is None
            &&& event.after@.len() > 12 ==> job.image_reference == job.image + ":sha-"@
                + event.after@.subrange(0, 12)
            &&& event.after@.len() <= 12 ==> job.image_reference == job.image + ":sha-"@
                + event.after@
            &&& exists|at: int|
                0 <= at < projects.len() && (#[trigger] projects[at]).repository@
                    == event.repository.full_name@ && projects[at].branch@ == job.branch
                    && projects[at].id@ == job.project_id
        }),
{
    let (at, now) = choose|at: usize, now: Timestamp|
        #![trigger projects[at as int], now.valid()]
        {
            let request = push_request(projects[at as int], event, delivery_id);
            &&& is_first_project(projects, pushed_to(event), Some(at))
            &&& now.valid()
            &&& now.is_reading()
            &&& enqueued_as(before, projects, request, queued.id, now, after)
            &&& queued.line@ == queued_line(
                debug_form(request.project_id),
                request.branch,
                request.sha,
            )
        };
    let project = projects[at as int];
    let request = push_request(project, event, delivery_id);
    push_request_carries_the_push(project, event, delivery_id, branch);
    queueing_adds_one_job(before, projects, request, queued.id, now, after, queued.id);
    project_is_found_by_its_branch(
        projects,
        event.repository.full_name@,
        branch_of(event.ref_name@),
        Some(at),
        at as int,
    );
    let found = choose|found: usize|
        #![trigger projects[found as int]]
        is_first_project(projects, has_id(request.project_id), Some(found)) && after
            == before.added(queued_job(projects[found as int], request, queued.id, now));
    queued_job_carries_the_request(projects[found as int], request, queued.id, now);
    assert(projects[at as int].id@ == after.jobs[queued.id].project_id);
}

/// Law: the signature, the event and the text of a webhook are read from the headers
/// `x-hub-signature-256` and `x-github-event` and from its whole body.
pub proof fn webhook_is_read_from_its_headers(
    secret: Seq<char>,
    fields: Map<Seq<char>, Seq<u8>>,
    body: Seq<char>,
)
    ensures
        webhook_verdict(secret, fields, body) == signature_verdict(
            secret,
            header_value_text(fields, "x-hub-signature-256"@),
            encode_utf8(body),
        ),
        header_value_text(fields, "x-github-event"@) is Some ==> event_name(fields)
            == header_value_text(fields, "x-github-event"@)->0,
        header_value_text(fields, "x-github-event"@) is None ==> event_name(fields).len() == 0,
{
}

/// Law: a push that no project follows is answered with its repository and its branch.
pub proof fn unfollowed_push_is_named(event: GithubPushEvent, branch: Seq<char>)
    requires
        event.ref_name@ == "refs/heads/"@ + branch,
    ensures
        no_project_text(event) == "no project mapping for "@ + event.repository.full_name@ + ":"@
            + branch,
{
    branch_is_named_by_its_reference(branch, event.ref_name@);
}

/// Law: a push is for just the projects that follow its branch of its repository.
pub proof fn push_is_for_the_projects_that_follow_it(
    event: GithubPushEvent,
    project: ProjectConfig,
    branch: Seq<char>,
)
    ensures
        event.ref_name@ == "refs/heads/"@ + branch ==> (pushed_to(event)(project)
            <==> project.repository@ == event.repository.full_name@ && project.branch@ == branch),
        !"refs/heads/"@.is_prefix_of(event.ref_name@) ==> (pushed_to(event)(project)
            <==> project.repository@ == event.repository.full_name@ && project.branch@
            == event.ref_name@),
{
    branch_is_named_by_its_reference(branch, event.ref_name@);
}

} // verus!
