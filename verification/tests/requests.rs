//! Webhooks, access tokens and operator requests.

use axum::http::{HeaderMap, HeaderValue};
use deployer::api::ApiError;
use deployer::auth::{holds_token, verify_api_auth};
use deployer::config::{AuthConfig, ProjectConfig};
use deployer::job::{Deployment, Job};
use deployer::operator::{
    answer_cancel, find_job, job_events, redeploy_project, retry_job, rollback_deployment,
    RollbackOutcome,
};
use deployer::queue::EnqueueError;
use deployer::signature::{signature_matches, validate_signature, SignatureError};
use deployer::status::{DeploymentStatus, JobAction, JobStatus};
use deployer::store::{restore_store, StateStore};
use deployer::time::Timestamp;
use deployer::webhook::{
    branch_name, gate_event, github_webhook, route_push, webhook_gate, GithubPushEvent,
    GithubRepository, PushRoute, WebhookError, WebhookGate, WebhookOutcome,
};

const SECRET: &str = "It's a Secret to Everybody";
const BODY: &str = "Hello, World!";
const SIGNATURE: &str = "sha256=757107ea0eb2509fc211221cce984b8a37570b6d7586c22c46f4379c8b043e17";

fn headers(fields: &[(&'static str, &str)]) -> HeaderMap {
    let mut headers = HeaderMap::new();
    for (name, value) in fields {
        headers.append(*name, HeaderValue::from_str(value).unwrap());
    }
    headers
}

fn projects() -> Vec<ProjectConfig> {
    vec![ProjectConfig {
        id: "shop".to_string(),
        repository: "org/shop".to_string(),
        branch: "main".to_string(),
        workdir: "shop".to_string(),
        image: "reg/shop".to_string(),
        stable_tag: None,
        portainer_webhook: None,
        healthcheck_url: None,
        healthcheck_timeout_sec: None,
        env: Vec::new(),
        steps: Vec::new(),
    }]
}

fn push(repository: &str, ref_name: &str, after: &str) -> GithubPushEvent {
    GithubPushEvent {
        after: after.to_string(),
        ref_name: ref_name.to_string(),
        repository: GithubRepository { full_name: repository.to_string() },
    }
}

fn job(id: u128) -> Job {
    Job {
        id,
        project_id: "shop".to_string(),
        repository: "org/shop".to_string(),
        branch: "main".to_string(),
        sha: "0123456789abcdef".to_string(),
        short_sha: "0123456789ab".to_string(),
        delivery_id: Some("d-7".to_string()),
        source_deployment_id: Some(3),
        action: JobAction::Manual,
        status: JobStatus::Failed,
        created_at: Timestamp { secs: 1, nanos: 0 },
        started_at: None,
        finished_at: None,
        current_stage: None,
        error: Some("broken".to_string()),
        image: "reg/shop".to_string(),
        image_reference: "reg/shop:sha-old".to_string(),
        image_digest: Some("sha256:x".to_string()),
        stable_tag: None,
        portainer_webhook: None,
        logs: Vec::new(),
    }
}

fn deployment(project_id: &str, status: DeploymentStatus) -> Deployment {
    Deployment {
        id: 11,
        job_id: 5,
        project_id: project_id.to_string(),
        repository: "org/shop".to_string(),
        branch: "main".to_string(),
        sha: "fedcba9876543210".to_string(),
        image: "reg/shop".to_string(),
        image_reference: "reg/shop:sha-good".to_string(),
        image_digest: None,
        stable_tag: None,
        status,
        deployed_at: Timestamp { secs: 2, nanos: 0 },
        healthcheck_url: None,
        healthcheck_status: None,
        healthcheck_error: None,
    }
}

#[test]
fn signature_of_the_body_is_accepted() {
    let signed = headers(&[("x-hub-signature-256", SIGNATURE)]);
    assert_eq!(validate_signature(SECRET, &signed, BODY.as_bytes()), Ok(()));
}

#[test]
fn wrong_signatures_are_refused() {
    let signed = headers(&[("x-hub-signature-256", SIGNATURE)]);
    let mismatch = Err(SignatureError::Mismatch);
    assert_eq!(validate_signature("other", &signed, BODY.as_bytes()), mismatch);
    assert_eq!(validate_signature(SECRET, &signed, b"Hello, World"), mismatch);
    let upper = headers(&[("x-hub-signature-256", &SIGNATURE.to_uppercase())]);
    assert_eq!(validate_signature(SECRET, &upper, BODY.as_bytes()), mismatch);
    let missing = Err(SignatureError::Missing);
    assert_eq!(validate_signature(SECRET, &headers(&[]), BODY.as_bytes()), missing);
    let mut odd = HeaderMap::new();
    odd.insert("x-hub-signature-256", HeaderValue::from_bytes(b"sha256=\xff").unwrap());
    assert_eq!(validate_signature(SECRET, &odd, BODY.as_bytes()), missing);
    assert_eq!(SignatureError::Missing.message(), "missing signature");
    assert_eq!(SignatureError::Mismatch.message(), "signature mismatch");
    assert_eq!(SignatureError::KeyRefused.message(), "Invalid Length");
}

#[test]
fn first_of_two_signatures_counts() {
    let wrong_first = headers(&[("x-hub-signature-256", "x"), ("x-hub-signature-256", SIGNATURE)]);
    let verdict = validate_signature(SECRET, &wrong_first, BODY.as_bytes());
    assert_eq!(verdict, Err(SignatureError::Mismatch));
}

#[test]
fn tag_is_compared_in_hexadecimal() {
    assert!(signature_matches(&[0xab, 0x01], "sha256=ab01"));
    assert!(!signature_matches(&[0xab, 0x01], "ab01"));
    assert!(!signature_matches(&[0xab, 0x01], "sha256=ab"));
}

#[test]
fn unsigned_webhook_is_rejected_before_anything_else() {
    let gate = webhook_gate(SECRET, &headers(&[("x-github-event", "ping")]), BODY);
    assert!(matches!(gate, WebhookGate::Rejected(SignatureError::Missing)));
}

#[test]
fn other_events_are_ignored() {
    let signed = headers(&[("x-hub-signature-256", SIGNATURE), ("x-github-event", "ping")]);
    match webhook_gate(SECRET, &signed, BODY) {
        WebhookGate::Ignored(response) => {
            assert!(!response.accepted);
            assert_eq!(response.job_id, None);
            assert_eq!(response.message, "ignored event: ping");
        }
        other => panic!("{:?}", other),
    }
    match webhook_gate(SECRET, &headers(&[("x-hub-signature-256", SIGNATURE)]), BODY) {
        WebhookGate::Ignored(response) => assert_eq!(response.message, "ignored event: "),
        other => panic!("{:?}", other),
    }
    assert!(matches!(gate_event("push"), WebhookGate::Push));
}

#[test]
fn signed_push_passes_the_gate() {
    let signed = headers(&[("x-hub-signature-256", SIGNATURE), ("x-github-event", "push")]);
    assert!(matches!(webhook_gate(SECRET, &signed, BODY), WebhookGate::Push));
}

fn signed(more: &[(&'static str, &str)]) -> HeaderMap {
    let mut fields = vec![("x-hub-signature-256", SIGNATURE)];
    fields.extend_from_slice(more);
    headers(&fields)
}

fn answer(
    store: &mut StateStore,
    headers: &HeaderMap,
    event: Option<GithubPushEvent>,
) -> Result<WebhookOutcome, WebhookError> {
    github_webhook(store, &projects(), SECRET, headers, BODY, event)
}

#[test]
fn push_queues_a_job() {
    let mut store = StateStore::new();
    let delivered = signed(&[("x-github-event", "push"), ("x-github-delivery", "d-42")]);
    let event = push("org/shop", "refs/heads/main", "0123456789abcdef");
    let (queued, response) = match answer(&mut store, &delivered, Some(event)).unwrap() {
        WebhookOutcome::Queued(queued, response) => (queued, response),
        other => panic!("{:?}", other),
    };
    assert!(response.accepted);
    assert_eq!(response.job_id, Some(queued.id));
    assert_eq!(response.message, "job queued");
    assert_eq!(queued.line.message, "Queued from \"shop\" for main@0123456789abcdef");
    let job = find_job(&store, queued.id).unwrap();
    assert_eq!(job.action, JobAction::Webhook);
    assert_eq!(job.branch, "main");
    assert_eq!(job.delivery_id.as_deref(), Some("d-42"));
    assert_eq!(job.image_reference, "reg/shop:sha-0123456789ab");
    assert_eq!(job.source_deployment_id, None);
}

#[test]
fn unsigned_push_queues_nothing() {
    let event = || Some(push("org/shop", "refs/heads/main", "abc"));
    let mut store = StateStore::new();
    let unsigned = headers(&[("x-github-event", "push")]);
    let error = answer(&mut store, &unsigned, event()).unwrap_err();
    assert!(matches!(error, WebhookError::Signature(SignatureError::Missing)));
    assert_eq!(error.answer(), ApiError::Unauthorized);
    assert_eq!(error.answer().status_code(), 401);
    let forged = headers(&[("x-github-event", "push"), ("x-hub-signature-256", "sha256=00")]);
    let error = answer(&mut store, &forged, event()).unwrap_err();
    assert!(matches!(error, WebhookError::Signature(SignatureError::Mismatch)));
    assert_eq!(store.list_jobs().len(), 0);
}

#[test]
fn signed_event_of_another_name_queues_nothing() {
    let mut store = StateStore::new();
    let ping = signed(&[("x-github-event", "ping")]);
    let event = Some(push("org/shop", "refs/heads/main", "abc"));
    match answer(&mut store, &ping, event).unwrap() {
        WebhookOutcome::Ignored(response) => {
            assert!(!response.accepted);
            assert_eq!(response.message, "ignored event: ping");
        }
        other => panic!("{:?}", other),
    }
    assert_eq!(store.list_jobs().len(), 0);
}

#[test]
fn push_to_another_branch_is_declined() {
    let mut store = StateStore::new();
    let event = push("org/shop", "refs/heads/dev", "abc");
    match answer(&mut store, &signed(&[("x-github-event", "push")]), Some(event)).unwrap() {
        WebhookOutcome::NoProject(response) => {
            assert!(!response.accepted);
            assert_eq!(response.job_id, None);
            assert_eq!(response.message, "no project mapping for org/shop:dev");
        }
        other => panic!("{:?}", other),
    }
    assert_eq!(store.list_jobs().len(), 0);
}

#[test]
fn unreadable_push_is_a_bad_request() {
    let mut store = StateStore::new();
    let push_event = signed(&[("x-github-event", "push")]);
    let error = answer(&mut store, &push_event, None).unwrap_err();
    assert!(matches!(error, WebhookError::Unreadable));
    assert_eq!(error.answer(), ApiError::BadRequest);
    assert_eq!(error.answer().status_code(), 400);
    let missing = EnqueueError::ProjectMissing("shop".to_string());
    assert_eq!(WebhookError::Enqueue(missing).answer(), ApiError::Internal);
}

#[test]
fn branch_is_what_follows_the_heads() {
    assert_eq!(branch_name("refs/heads/feature/x"), "feature/x");
    assert_eq!(branch_name("refs/tags/v1"), "refs/tags/v1");
    assert_eq!(branch_name("refs/heads/"), "");
}

#[test]
fn route_names_the_project_and_the_commit() {
    let event = push("org/shop", "refs/heads/main", "abc");
    match route_push(&projects(), &event, Some("d".to_string())) {
        PushRoute::Enqueue(request) => {
            assert_eq!(request.project_id, "shop");
            assert_eq!(request.repository, "org/shop");
            assert_eq!(request.branch, "main");
            assert_eq!(request.sha, "abc");
            assert_eq!(request.delivery_id.as_deref(), Some("d"));
            assert_eq!(request.image_reference_override, None);
        }
        other => panic!("{:?}", other),
    }
}

#[test]
fn token_may_stand_in_three_places() {
    assert!(holds_token("t", Some("Bearer t"), None, None));
    assert!(holds_token("t", Some("Bearer   t  "), None, None));
    assert!(holds_token("t", None, Some(" t "), None));
    assert!(holds_token("t", None, None, Some("t\n")));
    assert!(!holds_token("t", Some("t"), None, None));
    assert!(!holds_token("t", Some("bearer t"), None, None));
    assert!(!holds_token("t", Some("Bearer tt"), Some("T"), Some("")));
    assert!(!holds_token("t", None, None, None));
}

#[test]
fn configured_token_with_blanks_matches_nothing() {
    assert!(!holds_token(" t", Some("Bearer  t"), Some(" t"), Some(" t")));
}

#[test]
fn requests_without_the_token_are_unauthorized() {
    let auth = Some(AuthConfig { api_token: "t".to_string() });
    assert_eq!(verify_api_auth(&auth, &headers(&[("authorization", "Bearer t")]), None), Ok(()));
    assert_eq!(verify_api_auth(&auth, &headers(&[("x-api-key", "t")]), None), Ok(()));
    assert_eq!(verify_api_auth(&auth, &headers(&[]), Some("t")), Ok(()));
    assert_eq!(verify_api_auth(&auth, &headers(&[]), None), Err(ApiError::Unauthorized));
    assert_eq!(
        verify_api_auth(&auth, &headers(&[("authorization", "Bearer x")]), Some("y")),
        Err(ApiError::Unauthorized),
    );
}

#[test]
fn without_a_configured_token_everybody_has_access() {
    assert_eq!(verify_api_auth(&None, &headers(&[]), None), Ok(()));
}

#[test]
fn events_need_access_and_a_job() {
    let store = restore_store(vec![job(5)]);
    let auth = Some(AuthConfig { api_token: "t".to_string() });
    assert_eq!(job_events(&store, &auth, &headers(&[]), Some("t"), 5), Ok(()));
    assert_eq!(job_events(&store, &auth, &headers(&[]), None, 5), Err(ApiError::Unauthorized));
    assert_eq!(job_events(&store, &auth, &headers(&[]), None, 6), Err(ApiError::Unauthorized));
    assert_eq!(job_events(&store, &auth, &headers(&[]), Some("t"), 6), Err(ApiError::NotFound));
}

#[test]
fn missing_job_is_not_found() {
    let store = StateStore::new();
    assert_eq!(find_job(&store, 1).err(), Some(ApiError::NotFound));
    assert_eq!(ApiError::NotFound.status_code(), 404);
}

#[test]
fn cancellation_tells_a_running_job() {
    let answer = answer_cancel(5, true, true).unwrap();
    let signal = answer.signal.unwrap();
    assert_eq!((signal.level, signal.stage.as_str()), ("warn", "system"));
    assert_eq!(signal.message, "Cancel requested");
    assert!(answer.response.accepted);
    assert_eq!(answer.response.job_id, Some(5));
    assert_eq!(answer.response.message, "cancel requested");
    assert!(answer_cancel(5, true, false).unwrap().signal.is_none());
    assert_eq!(answer_cancel(5, false, true).err(), Some(ApiError::NotFound));
}

#[test]
fn retry_repeats_commit_and_image() {
    let mut store = restore_store(vec![job(5)]);
    let submission = retry_job(&mut store, &projects(), 5).unwrap();
    assert_eq!(submission.response.message, "retry queued");
    assert_eq!(submission.response.job_id, Some(submission.job.id));
    assert!(submission.follow_up.is_none());
    let again = store.get_job(submission.job.id).unwrap();
    assert_eq!(again.action, JobAction::Retry);
    assert_eq!(again.status, JobStatus::Queued);
    assert_eq!(again.image_reference, "reg/shop:sha-old");
    assert_eq!(again.sha, "0123456789abcdef");
    assert_eq!(again.delivery_id.as_deref(), Some("d-7"));
    assert_eq!(again.source_deployment_id, Some(3));
    assert_eq!(again.error, None);
    assert_eq!(again.image_digest, None);
    assert_eq!(store.get_job(5).unwrap().status, JobStatus::Failed);
}

#[test]
fn retry_needs_the_job_and_its_project() {
    let mut store = restore_store(vec![job(5)]);
    assert_eq!(retry_job(&mut store, &projects(), 6).err(), Some(ApiError::NotFound));
    assert_eq!(retry_job(&mut store, &Vec::new(), 5).err(), Some(ApiError::Internal));
    assert_eq!(ApiError::Internal.status_code(), 500);
    assert_eq!(store.list_jobs().len(), 1);
}

#[test]
fn redeploy_uses_the_deployed_image() {
    let mut store = StateStore::new();
    let source = Some(deployment("shop", DeploymentStatus::Success));
    let submission = redeploy_project(&mut store, &projects(), source).unwrap();
    assert_eq!(submission.response.message, "manual redeploy queued");
    let line = submission.follow_up.unwrap();
    assert_eq!((line.level, line.stage.as_str()), ("info", "system"));
    assert_eq!(line.message, "Manual redeploy requested");
    let job = store.get_job(submission.job.id).unwrap();
    assert_eq!(job.action, JobAction::Manual);
    assert_eq!(job.image_reference, "reg/shop:sha-good");
    assert_eq!(job.source_deployment_id, Some(11));
    assert_eq!(job.delivery_id, None);
    assert_eq!(job.short_sha, "fedcba987654");
}

#[test]
fn redeploy_needs_a_deployment_and_a_project() {
    let mut store = StateStore::new();
    assert_eq!(redeploy_project(&mut store, &projects(), None).err(), Some(ApiError::NotFound));
    let gone = Some(deployment("gone", DeploymentStatus::Success));
    assert_eq!(redeploy_project(&mut store, &projects(), gone).err(), Some(ApiError::Internal));
}

#[test]
fn rollback_goes_back_to_a_successful_deployment() {
    let mut store = StateStore::new();
    let target = Some(deployment("shop", DeploymentStatus::Success));
    let submission = match rollback_deployment(&mut store, &projects(), 11, target).unwrap() {
        RollbackOutcome::Queued(submission) => submission,
        other => panic!("{:?}", other),
    };
    assert_eq!(submission.response.message, "rollback queued");
    let line = submission.follow_up.unwrap();
    assert_eq!((line.level, line.stage.as_str()), ("warn", "system"));
    assert_eq!(line.message, "Rollback requested from deployment #11 (reg/shop:sha-good)");
    let job = store.get_job(submission.job.id).unwrap();
    assert_eq!(job.action, JobAction::Rollback);
    assert_eq!(job.image_reference, "reg/shop:sha-good");
    assert_eq!(job.source_deployment_id, Some(11));
}

#[test]
fn rollback_to_a_failed_deployment_is_declined() {
    let mut store = StateStore::new();
    let target = Some(deployment("shop", DeploymentStatus::Failed));
    match rollback_deployment(&mut store, &projects(), 11, target).unwrap() {
        RollbackOutcome::Declined(response) => {
            assert!(!response.accepted);
            assert_eq!(response.job_id, None);
            assert_eq!(response.message, "only successful deployments can be rolled back");
        }
        other => panic!("{:?}", other),
    }
    assert_eq!(store.list_jobs().len(), 0);
    let none = rollback_deployment(&mut store, &projects(), 11, None);
    assert_eq!(none.err(), Some(ApiError::NotFound));
    let gone = Some(deployment("gone", DeploymentStatus::Success));
    let gone = rollback_deployment(&mut store, &projects(), 11, gone);
    assert_eq!(gone.err(), Some(ApiError::Internal));
}
