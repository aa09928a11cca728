//! Rows of jobs and deployments.

use deployer::config::ProjectConfig;
use deployer::job::{Deployment, Job, JobLogEntry};
use deployer::records::{
    deployment_from_row, deployment_record, deployment_record_at, deployment_row, job_from_row,
    job_row, oldest_first,
};
use deployer::status::{DeploymentStatus, JobAction, JobStatus, UnknownName};
use deployer::store::{restore_store, StateStore};
use deployer::time::Timestamp;

fn at(secs: i64) -> Timestamp {
    Timestamp { secs, nanos: 7 }
}

fn job(id: u128, finished_at: Option<Timestamp>) -> Job {
    Job {
        id,
        project_id: "shop".to_string(),
        repository: "org/shop".to_string(),
        branch: "main".to_string(),
        sha: "0123456789abcdef".to_string(),
        short_sha: "0123456789ab".to_string(),
        delivery_id: Some("d".to_string()),
        source_deployment_id: Some(-4),
        action: JobAction::Rollback,
        status: JobStatus::Success,
        created_at: at(1),
        started_at: Some(at(2)),
        finished_at,
        current_stage: Some("completed".to_string()),
        error: None,
        image: "reg/shop".to_string(),
        image_reference: "reg/shop:sha-x".to_string(),
        image_digest: Some("sha256:y".to_string()),
        stable_tag: Some("stable".to_string()),
        portainer_webhook: None,
        logs: vec![JobLogEntry {
            ts: at(2),
            level: "info".to_string(),
            stage: "system".to_string(),
            message: "hello".to_string(),
        }],
    }
}

fn project(id: &str, url: Option<&str>) -> ProjectConfig {
    ProjectConfig {
        id: id.to_string(),
        repository: "org/shop".to_string(),
        branch: "main".to_string(),
        workdir: "shop".to_string(),
        image: "reg/shop".to_string(),
        stable_tag: None,
        portainer_webhook: None,
        healthcheck_url: url.map(|url| url.to_string()),
        healthcheck_timeout_sec: None,
        env: Vec::new(),
        steps: Vec::new(),
    }
}

fn deployment(healthcheck_status: Option<u16>) -> Deployment {
    let store = restore_store(vec![job(5, Some(at(3)))]);
    deployment_record_at(
        &store,
        &vec![project("shop", Some("http://x"))],
        5,
        DeploymentStatus::Failed,
        healthcheck_status,
        Some("down".to_string()),
        at(9),
    )
    .unwrap()
}

#[test]
fn job_read_back_is_the_job_written() {
    let before = job(5, Some(at(3)));
    let row = job_row(&before);
    assert_eq!(row.status, "success");
    assert_eq!(row.action, "rollback");
    let after = job_from_row(row, before.logs.clone()).unwrap();
    assert_eq!(format!("{:?}", after), format!("{:?}", before));
}

#[test]
fn job_row_with_unknown_names_is_refused() {
    let mut row = job_row(&job(5, None));
    row.status = "done".to_string();
    let error = job_from_row(row, Vec::new()).unwrap_err();
    assert_eq!(error.message(), "unknown job status: done");
    let mut row = job_row(&job(5, None));
    row.status = "done".to_string();
    row.action = "deploy".to_string();
    let error = job_from_row(row, Vec::new()).unwrap_err();
    assert!(matches!(error, UnknownName::JobAction(_)));
}

#[test]
fn jobs_are_put_oldest_first() {
    let jobs = oldest_first(vec![job(3, None), job(2, None), job(1, None)]);
    let ids: Vec<u128> = jobs.iter().map(|job| job.id).collect();
    assert_eq!(ids, vec![1, 2, 3]);
    assert_eq!(oldest_first(Vec::new()).len(), 0);
}

#[test]
fn deployment_read_back_is_the_deployment_written() {
    let before = deployment(Some(65535));
    let row = deployment_row(&before);
    assert_eq!(row.status, "failed");
    assert_eq!(row.healthcheck_status, Some(65535));
    let after = deployment_from_row(row).unwrap();
    assert_eq!(format!("{:?}", after), format!("{:?}", before));
    let without = deployment(None);
    let after = deployment_from_row(deployment_row(&without)).unwrap();
    assert_eq!(after.healthcheck_status, None);
}

#[test]
fn stored_status_out_of_range_is_dropped() {
    for value in [-1, 65536, i32::MAX, i32::MIN] {
        let mut row = deployment_row(&deployment(Some(200)));
        row.healthcheck_status = Some(value);
        assert_eq!(deployment_from_row(row).unwrap().healthcheck_status, None);
    }
    let mut row = deployment_row(&deployment(Some(200)));
    row.healthcheck_status = Some(0);
    assert_eq!(deployment_from_row(row).unwrap().healthcheck_status, Some(0));
}

#[test]
fn deployment_row_with_an_unknown_status_is_refused() {
    let mut row = deployment_row(&deployment(None));
    row.status = "ok".to_string();
    let error = deployment_from_row(row).unwrap_err();
    assert_eq!(error.message(), "unknown deployment status: ok");
}

#[test]
fn deployment_is_made_from_the_job() {
    let record = deployment(Some(500));
    assert_eq!(record.id, 0);
    assert_eq!(record.job_id, 5);
    assert_eq!(record.project_id, "shop");
    assert_eq!(record.repository, "org/shop");
    assert_eq!(record.branch, "main");
    assert_eq!(record.sha, "0123456789abcdef");
    assert_eq!(record.image, "reg/shop");
    assert_eq!(record.image_reference, "reg/shop:sha-x");
    assert_eq!(record.image_digest.as_deref(), Some("sha256:y"));
    assert_eq!(record.stable_tag.as_deref(), Some("stable"));
    assert_eq!(record.status, DeploymentStatus::Failed);
    assert_eq!(record.deployed_at, at(3));
    assert_eq!(record.healthcheck_url.as_deref(), Some("http://x"));
    assert_eq!(record.healthcheck_status, Some(500));
    assert_eq!(record.healthcheck_error.as_deref(), Some("down"));
}

#[test]
fn unfinished_job_is_deployed_now() {
    let store = restore_store(vec![job(5, None)]);
    let none: Vec<ProjectConfig> = Vec::new();
    let status = DeploymentStatus::Success;
    let record = deployment_record_at(&store, &none, 5, status, None, None, at(9)).unwrap();
    assert_eq!(record.deployed_at, at(9));
    assert_eq!(record.healthcheck_url, None);
    let record = deployment_record(&store, &none, 5, status, None, None).unwrap();
    assert!(record.deployed_at.secs > 1_600_000_000);
    assert!(deployment_record(&StateStore::new(), &none, 5, status, None, None).is_none());
}
