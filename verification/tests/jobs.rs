//! Queueing, locking, cancelling and listing jobs.

use deployer::config::ProjectConfig;
use deployer::job::{Job, JobLogEntry, JobSummary, LogLine};
use deployer::queue::{enqueue_job, enqueue_job_as, log_line, log_line_at, make_queued_line, EnqueueError, EnqueueRequest};
use deployer::status::{JobAction, JobStatus};
use deployer::store::{restore_store, BeginOutcome, RunError, StateStore};
use deployer::time::Timestamp;

fn at(secs: i64) -> Timestamp {
    Timestamp { secs, nanos: 5 }
}

fn project(id: &str) -> ProjectConfig {
    ProjectConfig {
        id: id.to_string(),
        repository: "org/shop".to_string(),
        branch: "main".to_string(),
        workdir: "shop".to_string(),
        image: "reg/shop".to_string(),
        stable_tag: Some("stable".to_string()),
        portainer_webhook: Some("https://hook".to_string()),
        healthcheck_url: None,
        healthcheck_timeout_sec: None,
        env: Vec::new(),
        steps: Vec::new(),
    }
}

fn request(branch: &str, sha: &str, image: Option<&str>) -> EnqueueRequest {
    EnqueueRequest {
        project_id: "shop".to_string(),
        repository: "org/shop".to_string(),
        branch: branch.to_string(),
        sha: sha.to_string(),
        delivery_id: Some("d-1".to_string()),
        action: JobAction::Webhook,
        image_reference_override: image.map(|image| image.to_string()),
        source_deployment_id: Some(9),
    }
}

fn stored(id: u128, status: JobStatus) -> Job {
    Job {
        id,
        project_id: "shop".to_string(),
        repository: "org/shop".to_string(),
        branch: "main".to_string(),
        sha: "abc".to_string(),
        short_sha: "abc".to_string(),
        delivery_id: None,
        source_deployment_id: None,
        action: JobAction::Webhook,
        status,
        created_at: at(1),
        started_at: None,
        finished_at: None,
        current_stage: Some("queued".to_string()),
        error: None,
        image: "reg/shop".to_string(),
        image_reference: "reg/shop:sha-abc".to_string(),
        image_digest: None,
        stable_tag: None,
        portainer_webhook: None,
        logs: Vec::new(),
    }
}

fn queued(ids: &[u128]) -> StateStore {
    restore_store(ids.iter().map(|id| stored(*id, JobStatus::Queued)).collect())
}

fn ids(jobs: &[JobSummary]) -> Vec<u128> {
    jobs.iter().map(|job| job.id).collect()
}

#[test]
fn request_becomes_a_queued_job() {
    let mut store = StateStore::new();
    let projects = vec![project("shop")];
    let request = request("main", "0123456789abcdef", None);
    enqueue_job_as(&mut store, &projects, &request, 7, at(3)).unwrap();
    let job = store.get_job(7).unwrap();
    assert_eq!(job.id, 7);
    assert_eq!(job.project_id, "shop");
    assert_eq!(job.repository, "org/shop");
    assert_eq!(job.branch, "main");
    assert_eq!(job.sha, "0123456789abcdef");
    assert_eq!(job.short_sha, "0123456789ab");
    assert_eq!(job.delivery_id.as_deref(), Some("d-1"));
    assert_eq!(job.source_deployment_id, Some(9));
    assert_eq!(job.action, JobAction::Webhook);
    assert_eq!(job.status, JobStatus::Queued);
    assert_eq!(job.created_at, at(3));
    assert_eq!(job.started_at, None);
    assert_eq!(job.finished_at, None);
    assert_eq!(job.current_stage.as_deref(), Some("queued"));
    assert_eq!(job.error, None);
    assert_eq!(job.image, "reg/shop");
    assert_eq!(job.image_reference, "reg/shop:sha-0123456789ab");
    assert_eq!(job.image_digest, None);
    assert_eq!(job.stable_tag.as_deref(), Some("stable"));
    assert_eq!(job.portainer_webhook.as_deref(), Some("https://hook"));
    assert_eq!(job.logs.len(), 0);
}

#[test]
fn given_image_reference_is_kept() {
    let mut store = StateStore::new();
    let projects = vec![project("shop")];
    let request = request("main", "abc", Some("reg/shop:sha-old"));
    enqueue_job_as(&mut store, &projects, &request, 7, at(3)).unwrap();
    assert_eq!(store.get_job(7).unwrap().image_reference, "reg/shop:sha-old");
}

#[test]
fn request_for_an_unknown_project_is_refused() {
    let mut store = StateStore::new();
    let projects = vec![project("other")];
    let request = request("main", "abc", None);
    let error = enqueue_job_as(&mut store, &projects, &request, 7, at(3)).unwrap_err();
    assert!(matches!(&error, EnqueueError::ProjectMissing(id) if id == "shop"));
    assert_eq!(error.message(), "project missing: shop");
    assert!(!store.contains_job(7));
    let error = enqueue_job(&mut store, &projects, &request).unwrap_err();
    assert_eq!(error.message(), "project missing: shop");
    assert_eq!(store.list_jobs().len(), 0);
}

#[test]
fn fresh_ids_are_random_uuids() {
    let mut store = StateStore::new();
    let projects = vec![project("shop")];
    let request = request("main", "abc", None);
    let first = enqueue_job(&mut store, &projects, &request).unwrap();
    let second = enqueue_job(&mut store, &projects, &request).unwrap();
    assert_ne!(first.id, second.id);
    assert_eq!(uuid::Uuid::from_u128(first.id).get_version_num(), 4);
    assert_eq!(ids(&store.list_jobs()), vec![second.id, first.id]);
    assert_eq!(first.line.level, "info");
    assert_eq!(first.line.stage, "system");
    assert_eq!(first.line.message, "Queued from \"shop\" for main@abc");
    let created = store.get_job(first.id).unwrap().created_at;
    assert!(created.secs > 1_600_000_000);
    assert!(created.nanos < 1_000_000_000);
}

#[test]
fn first_line_names_project_branch_and_commit() {
    let line = make_queued_line("\"shop\"", "dev", "abc");
    assert_eq!(line.message, "Queued from \"shop\" for dev@abc");
}

#[test]
fn quoted_project_escapes_quotes() {
    let mut store = StateStore::new();
    let projects = vec![project("a\"b")];
    let mut request = request("main", "abc", None);
    request.project_id = "a\"b".to_string();
    let job = enqueue_job(&mut store, &projects, &request).unwrap();
    assert_eq!(job.line.message, "Queued from \"a\\\"b\" for main@abc");
}

#[test]
fn log_lines_are_kept_in_order() {
    let mut store = queued(&[1]);
    let line = |message: &str| LogLine {
        level: "info",
        stage: "build".to_string(),
        message: message.to_string(),
    };
    let entry = log_line_at(&mut store, 1, line("one"), at(10));
    assert_eq!(entry.ts, at(10));
    log_line_at(&mut store, 1, line("two"), at(11));
    let now = log_line(&mut store, 1, line("three"));
    assert!(now.ts.secs > 1_600_000_000);
    let logs: Vec<JobLogEntry> = store.job_logs(1);
    let messages: Vec<&str> = logs.iter().map(|entry| entry.message.as_str()).collect();
    assert_eq!(messages, vec!["one", "two", "three"]);
    assert_eq!(logs[0].level, "info");
    assert_eq!(logs[0].stage, "build");
    let lost = log_line_at(&mut store, 2, line("nobody"), at(12));
    assert_eq!(lost.message, "nobody");
    assert_eq!(store.job_logs(2).len(), 0);
}

#[test]
fn one_job_per_branch_runs_at_a_time() {
    let projects = vec![project("shop")];
    let mut store = queued(&[1, 2]);
    let lock = match store.begin_job_at(&projects, 1, at(20)).unwrap() {
        BeginOutcome::Started { project, repo_lock } => {
            assert_eq!(project, 0);
            repo_lock
        }
        other => panic!("{:?}", other),
    };
    assert_eq!(lock, "org/shop:main");
    let job = store.get_job(1).unwrap();
    assert_eq!(job.status, JobStatus::Running);
    assert_eq!(job.started_at, Some(at(20)));
    assert_eq!(job.current_stage.as_deref(), Some("preparing"));

    let outcome = store.begin_job_at(&projects, 2, at(21)).unwrap();
    assert!(matches!(outcome, BeginOutcome::WaitForLock { retry_secs: 2 }));
    let job = store.get_job(2).unwrap();
    assert_eq!(job.status, JobStatus::Queued);
    assert_eq!(job.started_at, None);
    assert_eq!(job.current_stage.as_deref(), Some("waiting_lock"));

    store.release_lock(&lock);
    store.release_lock(&lock);
    let outcome = store.begin_job(&projects, 2).unwrap();
    assert!(matches!(outcome, BeginOutcome::Started { .. }));
}

#[test]
fn jobs_on_other_branches_run_beside_each_other() {
    let projects = vec![project("shop")];
    let mut other = stored(2, JobStatus::Queued);
    other.branch = "dev".to_string();
    let mut store = restore_store(vec![stored(1, JobStatus::Queued), other]);
    assert!(matches!(store.begin_job(&projects, 1), Ok(BeginOutcome::Started { .. })));
    assert!(matches!(store.begin_job(&projects, 2), Ok(BeginOutcome::Started { .. })));
}

#[test]
fn job_that_is_not_there_cannot_begin() {
    let projects = vec![project("shop")];
    let mut store = StateStore::new();
    let error = store.begin_job(&projects, 0x0123_4567_89ab_cdef_0123_4567_89ab_cdef).unwrap_err();
    assert!(matches!(error, RunError::JobNotFound(_)));
    assert_eq!(error.message(), "job not found: 01234567-89ab-cdef-0123-456789abcdef");
    assert_eq!(
        error.internal_message(),
        "internal error: job not found: 01234567-89ab-cdef-0123-456789abcdef",
    );
}

#[test]
fn job_without_a_project_cannot_begin() {
    let projects = vec![project("other")];
    let mut store = queued(&[1]);
    let error = store.begin_job(&projects, 1).unwrap_err();
    assert!(matches!(error, RunError::ProjectMissing(_)));
    assert_eq!(error.message(), "project config missing: shop");
    assert_eq!(store.get_job(1).unwrap().status, JobStatus::Queued);
}

#[test]
fn closed_queue_is_reported() {
    assert_eq!(RunError::QueueClosed.internal_message(), "internal error: channel closed");
}

#[test]
fn waiting_job_is_cancelled_and_never_begins() {
    let projects = vec![project("shop")];
    let mut store = queued(&[1]);
    assert!(store.cancel_job_at(1, at(30)));
    let job = store.get_job(1).unwrap();
    assert_eq!(job.status, JobStatus::Cancelled);
    assert_eq!(job.finished_at, Some(at(30)));
    assert_eq!(job.current_stage.as_deref(), Some("cancelled"));
    let outcome = store.begin_job(&projects, 1).unwrap();
    assert!(matches!(outcome, BeginOutcome::AlreadyCancelled));
    assert_eq!(store.get_job(1).unwrap().started_at, None);
}

#[test]
fn running_job_is_not_cancelled_in_the_store() {
    let projects = vec![project("shop")];
    let mut store = queued(&[1]);
    assert!(matches!(store.begin_job(&projects, 1), Ok(BeginOutcome::Started { .. })));
    assert!(store.cancel_job(1));
    assert_eq!(store.get_job(1).unwrap().status, JobStatus::Running);
    assert!(!store.cancel_job(99));
}

#[test]
fn job_ends_in_the_stage_where_it_stood() {
    let mut store = queued(&[1, 2, 3]);
    store.set_stage(1, "build");
    store.end_job_at(1, JobStatus::Failed, "broken".to_string(), at(40));
    let job = store.get_job(1).unwrap();
    assert_eq!(job.status, JobStatus::Failed);
    assert_eq!(job.finished_at, Some(at(40)));
    assert_eq!(job.error.as_deref(), Some("broken"));
    assert_eq!(job.current_stage.as_deref(), Some("build"));

    store.complete_job_at(2, at(41));
    let job = store.get_job(2).unwrap();
    assert_eq!(job.status, JobStatus::Success);
    assert_eq!(job.finished_at, Some(at(41)));
    assert_eq!(job.current_stage.as_deref(), Some("completed"));
    assert_eq!(job.error, None);

    store.fail_job(3, "internal error: x".to_string());
    let job = store.get_job(3).unwrap();
    assert_eq!(job.status, JobStatus::Failed);
    assert_eq!(job.error.as_deref(), Some("internal error: x"));
    assert!(job.finished_at.is_some());
}

#[test]
fn changes_to_missing_jobs_do_nothing() {
    let mut store = queued(&[1]);
    store.set_stage(2, "x");
    store.complete_job_at(2, at(50));
    store.end_job(2, JobStatus::Failed, "x".to_string());
    store.set_digest(2, "x".to_string());
    assert!(!store.contains_job(2));
    assert_eq!(store.list_jobs().len(), 1);
}

#[test]
fn first_digest_stays() {
    let mut store = queued(&[1]);
    store.set_digest(1, "sha256:a".to_string());
    store.set_digest(1, "sha256:b".to_string());
    assert_eq!(store.get_job(1).unwrap().image_digest.as_deref(), Some("sha256:a"));
}

#[test]
fn restart_drops_running_jobs_and_locks() {
    let projects = vec![project("shop")];
    let mut store = restore_store(vec![
        stored(1, JobStatus::Success),
        stored(2, JobStatus::Running),
        stored(3, JobStatus::Queued),
        stored(4, JobStatus::Cancelled),
    ]);
    assert_eq!(ids(&store.list_jobs()), vec![4, 3, 1]);
    assert!(!store.contains_job(2));
    assert!(matches!(store.begin_job(&projects, 3), Ok(BeginOutcome::Started { .. })));
}

#[test]
fn health_counts_waiting_and_running_jobs() {
    let projects = vec![project("shop")];
    let mut store = queued(&[1, 2, 3]);
    assert!(store.cancel_job(3));
    assert!(matches!(store.begin_job(&projects, 1), Ok(BeginOutcome::Started { .. })));
    let health = store.health();
    assert!(health.ok);
    assert_eq!(health.queued, 1);
    assert_eq!(health.running, 1);
    let empty = StateStore::new().health();
    assert_eq!((empty.ok, empty.queued, empty.running), (true, 0, 0));
}

#[test]
fn dashboard_shows_the_fifty_newest_jobs() {
    let all: Vec<u128> = (0..60).collect();
    let store = queued(&all);
    let listed = store.list_jobs();
    assert_eq!(listed.len(), 60);
    assert_eq!(listed[0].id, 59);
    assert_eq!(listed[59].id, 0);
    let shown = store.dashboard_jobs();
    assert_eq!(shown.len(), 50);
    assert_eq!(shown[0].id, 59);
    assert_eq!(shown[49].id, 10);
    assert_eq!(queued(&[1, 2]).dashboard_jobs().len(), 2);
}

#[test]
fn summary_leaves_out_the_log() {
    let mut job = stored(5, JobStatus::Failed);
    job.error = Some("broken".to_string());
    job.image_digest = Some("sha256:d".to_string());
    let summary = JobSummary::from(&job);
    assert_eq!(summary.id, 5);
    assert_eq!(summary.project_id, "shop");
    assert_eq!(summary.repository, "org/shop");
    assert_eq!(summary.branch, "main");
    assert_eq!(summary.sha, "abc");
    assert_eq!(summary.image_reference, "reg/shop:sha-abc");
    assert_eq!(summary.image_digest.as_deref(), Some("sha256:d"));
    assert_eq!(summary.status, JobStatus::Failed);
    assert_eq!(summary.created_at, at(1));
    assert_eq!(summary.current_stage.as_deref(), Some("queued"));
    assert_eq!(summary.error.as_deref(), Some("broken"));
}
