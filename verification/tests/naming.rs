//! Stored names, configuration lookups, texts and references.

use deployer::config::{
    extract_database_name, find_mapping, find_project, map_db_connect_error, pool_size,
    worker_count, DatabaseConfig, EnvVar, ProjectConfig, RunnerConfig,
};
use deployer::queue::immutable_image_reference;
use deployer::signature::hex_encode;
use deployer::status::{DeploymentStatus, JobAction, JobStatus, UnknownName};
use deployer::text::{format_i64, format_u64, replace, same_text, strip_prefix, take_chars, trim};

fn project(id: &str, repository: &str, branch: &str) -> ProjectConfig {
    ProjectConfig {
        id: id.to_string(),
        repository: repository.to_string(),
        branch: branch.to_string(),
        workdir: "work".to_string(),
        image: "registry/app".to_string(),
        stable_tag: None,
        portainer_webhook: None,
        healthcheck_url: None,
        healthcheck_timeout_sec: None,
        env: vec![EnvVar { name: "A".to_string(), value: "1".to_string() }],
        steps: Vec::new(),
    }
}

#[test]
fn job_status_names_round_trip() {
    let all = [
        (JobStatus::Queued, "queued"),
        (JobStatus::Running, "running"),
        (JobStatus::Success, "success"),
        (JobStatus::Failed, "failed"),
        (JobStatus::Cancelled, "cancelled"),
    ];
    for (status, name) in all {
        assert_eq!(status.as_str(), name);
        assert_eq!(JobStatus::from_db(name).unwrap(), status);
    }
}

#[test]
fn job_action_names_round_trip() {
    let all = [
        (JobAction::Webhook, "webhook"),
        (JobAction::Retry, "retry"),
        (JobAction::Manual, "manual"),
        (JobAction::Rollback, "rollback"),
    ];
    for (action, name) in all {
        assert_eq!(action.as_str(), name);
        assert_eq!(JobAction::from_db(name).unwrap(), action);
    }
}

#[test]
fn deployment_status_names_round_trip() {
    assert_eq!(DeploymentStatus::Success.as_str(), "success");
    assert_eq!(DeploymentStatus::Failed.as_str(), "failed");
    assert_eq!(DeploymentStatus::from_db("success").unwrap(), DeploymentStatus::Success);
    assert_eq!(DeploymentStatus::from_db("failed").unwrap(), DeploymentStatus::Failed);
}

#[test]
fn unknown_names_are_reported() {
    let error = JobStatus::from_db("Queued").unwrap_err();
    assert!(matches!(error, UnknownName::JobStatus(_)));
    assert_eq!(error.message(), "unknown job status: Queued");
    let error = JobAction::from_db("deploy").unwrap_err();
    assert!(matches!(error, UnknownName::JobAction(_)));
    assert_eq!(error.message(), "unknown job action: deploy");
    let error = DeploymentStatus::from_db("").unwrap_err();
    assert!(matches!(error, UnknownName::DeploymentStatus(_)));
    assert_eq!(error.message(), "unknown deployment status: ");
}

#[test]
fn database_name_stands_between_the_last_slash_and_the_query() {
    assert_eq!(extract_database_name("postgres://u:p@host:5432/cicd"), Some("cicd"));
    assert_eq!(extract_database_name("postgres://host/cicd?sslmode=disable"), Some("cicd"));
    assert_eq!(extract_database_name("postgres://host/cicd?path=/a/b"), Some("cicd"));
    assert_eq!(extract_database_name("cicd"), Some("cicd"));
    assert_eq!(extract_database_name("postgres://host/"), None);
    assert_eq!(extract_database_name("postgres://host/?x=1"), None);
    assert_eq!(extract_database_name(""), None);
}

#[test]
fn missing_database_is_explained() {
    assert_eq!(
        map_db_connect_error(Some("3D000"), "postgres://host/cicd?x=1").unwrap(),
        "failed to connect to postgres: database \"cicd\" does not exist. \
create it first (for example: createdb cicd) or update [database].url in config",
    );
    assert_eq!(
        map_db_connect_error(Some("3D000"), "postgres://host/").unwrap(),
        "failed to connect to postgres: database \"<unknown>\" does not exist. \
create it first (for example: createdb <unknown>) or update [database].url in config",
    );
    assert_eq!(map_db_connect_error(Some("28P01"), "postgres://host/cicd"), None);
    assert_eq!(map_db_connect_error(None, "postgres://host/cicd"), None);
}

#[test]
fn first_project_wins() {
    let projects = vec![
        project("a", "org/app", "main"),
        project("b", "org/app", "dev"),
        project("a", "org/app", "dev"),
    ];
    assert_eq!(find_project(&projects, "a"), Some(0));
    assert_eq!(find_project(&projects, "b"), Some(1));
    assert_eq!(find_project(&projects, "c"), None);
    assert_eq!(find_mapping(&projects, "org/app", "dev"), Some(1));
    assert_eq!(find_mapping(&projects, "org/app", "main"), Some(0));
    assert_eq!(find_mapping(&projects, "org/other", "main"), None);
    assert_eq!(find_mapping(&projects, "org/app", "mai"), None);
}

#[test]
fn limits_have_defaults() {
    let runner = |max_parallel_jobs| RunnerConfig {
        workspace_root: "/w".to_string(),
        max_parallel_jobs,
    };
    assert_eq!(worker_count(&runner(0)), 1);
    assert_eq!(worker_count(&runner(1)), 1);
    assert_eq!(worker_count(&runner(4)), 4);
    let database = |max_connections| DatabaseConfig { url: "u".to_string(), max_connections };
    assert_eq!(pool_size(&database(None)), 5);
    assert_eq!(pool_size(&database(Some(0))), 0);
    assert_eq!(pool_size(&database(Some(12))), 12);
}

#[test]
fn image_reference_is_tagged_with_the_commit() {
    assert_eq!(immutable_image_reference("reg/app", "0123456789ab"), "reg/app:sha-0123456789ab");
    assert_ne!(immutable_image_reference("reg/app", "a"), immutable_image_reference("reg/app", "b"));
}

#[test]
fn hexadecimal_form_of_bytes() {
    assert_eq!(hex_encode(&[]), "");
    assert_eq!(hex_encode(&[0x00, 0x0f, 0xf0, 0xff, 0x9a]), "000ff0ff9a");
    assert_ne!(hex_encode(&[0x01]), hex_encode(&[0x10]));
}

#[test]
fn texts_are_cut_and_replaced_by_characters() {
    assert_eq!(replace("aXbXX", "X", "--"), "a--b----");
    assert_eq!(replace("aaa", "aa", "b"), "ba");
    assert_eq!(replace("", "x", "y"), "");
    assert_eq!(trim(" \t a b \n\u{3000}"), "a b");
    assert_eq!(trim("\u{2003}"), "");
    assert_eq!(trim("\u{200b}x"), "\u{200b}x");
    assert_eq!(strip_prefix("refs/heads/main", "refs/heads/"), Some("main"));
    assert_eq!(strip_prefix("refs/tags/v1", "refs/heads/"), None);
    assert_eq!(take_chars("äöüß", 2), "äö");
    assert_eq!(take_chars("ab", 12), "ab");
    assert!(same_text("äb", "äb"));
    assert!(!same_text("ab", "abc"));
}

#[test]
fn numbers_are_written_in_decimal() {
    assert_eq!(format_u64(0), "0");
    assert_eq!(format_u64(9), "9");
    assert_eq!(format_u64(10), "10");
    assert_eq!(format_u64(u64::MAX), "18446744073709551615");
    assert_eq!(format_i64(-7), "-7");
    assert_eq!(format_i64(i64::MIN), "-9223372036854775808");
    assert_eq!(format_i64(i64::MAX), "9223372036854775807");
}
