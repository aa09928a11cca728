//! Pipelines, commands, health checks, digests and the run of a job.

use deployer::artifact::{
    extract_digest_from_logs, extract_digest_from_text, hydrate_job_artifact_metadata,
    probe_artifact, read_digest, resolve_image_digest,
};
use deployer::config::{ProjectConfig, StepConfig};
use deployer::healthcheck::{HealthAction, HealthCheck, Probe, ProbeVerdict};
use deployer::job::{Job, JobLogEntry, LogLine};
use deployer::pipeline::{step_matches_action, PipelineAction, PipelineError, PipelineRun};
use deployer::run::{apply_effect, apply_effect_at, Effect, JobRun, Phase};
use deployer::shell::{check_step, judge_step, stream_reader, ShellError, StreamEvent, Wait, WatchAction};
use deployer::status::{DeploymentStatus, JobAction, JobStatus};
use deployer::store::{restore_store, BeginOutcome, StateStore};
use deployer::time::Timestamp;

fn at(secs: i64) -> Timestamp {
    Timestamp { secs, nanos: 0 }
}

fn step(name: &str, only: Option<&[&str]>, skip: Option<&[&str]>) -> StepConfig {
    let list = |names: &[&str]| names.iter().map(|name| name.to_string()).collect();
    StepConfig {
        name: name.to_string(),
        run: format!("echo {name} $SHORT_SHA"),
        shell: None,
        timeout_sec: None,
        only_actions: only.map(list),
        skip_actions: skip.map(list),
    }
}

fn project(steps: Vec<StepConfig>) -> ProjectConfig {
    ProjectConfig {
        id: "shop".to_string(),
        repository: "org/shop".to_string(),
        branch: "main".to_string(),
        workdir: "shop".to_string(),
        image: "reg/shop".to_string(),
        stable_tag: None,
        portainer_webhook: None,
        healthcheck_url: Some("http://shop/health".to_string()),
        healthcheck_timeout_sec: Some(10),
        env: Vec::new(),
        steps,
    }
}

fn store(action: JobAction) -> StateStore {
    restore_store(vec![Job {
        id: 1,
        project_id: "shop".to_string(),
        repository: "org/shop".to_string(),
        branch: "main".to_string(),
        sha: "0123456789abcdef".to_string(),
        short_sha: "0123456789ab".to_string(),
        delivery_id: None,
        source_deployment_id: None,
        action,
        status: JobStatus::Queued,
        created_at: at(1),
        started_at: None,
        finished_at: None,
        current_stage: None,
        error: None,
        image: "reg/shop".to_string(),
        image_reference: "reg/shop:sha-0123456789ab".to_string(),
        image_digest: None,
        stable_tag: None,
        portainer_webhook: None,
        logs: Vec::new(),
    }])
}

fn entry(message: &str) -> JobLogEntry {
    JobLogEntry {
        ts: at(1),
        level: "info".to_string(),
        stage: "build".to_string(),
        message: message.to_string(),
    }
}

fn digest(c: char) -> String {
    format!("sha256:{}", c.to_string().repeat(64))
}

#[test]
fn steps_are_filtered_by_action() {
    let all = step("a", None, None);
    let only = step("b", Some(&["webhook", "retry"]), None);
    let skip = step("c", None, Some(&["rollback"]));
    let both = step("d", Some(&["manual"]), Some(&["manual"]));
    let none = step("e", Some(&[]), Some(&[]));
    assert!(step_matches_action(&all, &JobAction::Rollback));
    assert!(step_matches_action(&only, &JobAction::Retry));
    assert!(!step_matches_action(&only, &JobAction::Manual));
    assert!(step_matches_action(&skip, &JobAction::Webhook));
    assert!(!step_matches_action(&skip, &JobAction::Rollback));
    assert!(!step_matches_action(&both, &JobAction::Manual));
    assert!(!step_matches_action(&none, &JobAction::Webhook));
}

#[test]
fn pipeline_runs_the_selected_steps_in_order() {
    let mut store = store(JobAction::Rollback);
    let mut last = step("deploy", None, None);
    last.shell = Some("/bin/bash".to_string());
    last.timeout_sec = Some(5);
    let project = project(vec![
        step("checkout", None, None),
        step("build", None, Some(&["rollback"])),
        last,
    ]);
    let mut run = PipelineRun::start(&store, 1).unwrap();
    match run.next(&mut store, 1, &project, false) {
        PipelineAction::Run(command) => {
            assert_eq!(command.stage, "checkout");
            assert_eq!((command.line.level, command.line.stage.as_str()), ("info", "checkout"));
            assert_eq!(command.line.message, "Running: echo checkout $SHORT_SHA");
            assert_eq!(command.shell, "/bin/sh");
            assert_eq!(command.command, "echo checkout 0123456789ab");
            assert_eq!(command.timeout_secs, 1800);
        }
        other => panic!("{:?}", other),
    }
    run.step_ended(true);
    assert_eq!(store.get_job(1).unwrap().current_stage.as_deref(), Some("checkout"));
    match run.next(&mut store, 1, &project, true) {
        PipelineAction::Skip(line) => {
            assert_eq!((line.level, line.stage.as_str()), ("info", "planner"));
            assert_eq!(line.message, "Skipping step 'build' for action rollback");
        }
        other => panic!("{:?}", other),
    }
    assert_eq!(store.get_job(1).unwrap().current_stage.as_deref(), Some("checkout"));
    match run.next(&mut store, 1, &project, false) {
        PipelineAction::Run(command) => {
            assert_eq!(command.shell, "/bin/bash");
            assert_eq!(command.timeout_secs, 5);
        }
        other => panic!("{:?}", other),
    }
    run.step_ended(true);
    assert!(matches!(run.next(&mut store, 1, &project, true), PipelineAction::Finished(Ok(()))));
}

#[test]
fn cancelled_pipeline_stops_before_the_next_step() {
    let mut store = store(JobAction::Webhook);
    let project = project(vec![step("checkout", None, None)]);
    let mut run = PipelineRun::start(&store, 1).unwrap();
    match run.next(&mut store, 1, &project, true) {
        PipelineAction::Finished(Err(error)) => {
            assert_eq!(error.message(), "job cancelled before step checkout");
        }
        other => panic!("{:?}", other),
    }
    assert_eq!(store.get_job(1).unwrap().current_stage, None);
    assert!(matches!(
        run.next(&mut store, 1, &project, false),
        PipelineAction::Finished(Err(PipelineError::Cancelled(_)))
    ));
}

#[test]
fn cancelled_pipeline_names_the_first_selected_step_not_run() {
    let mut store = store(JobAction::Webhook);
    let project = project(vec![
        step("build", None, None),
        step("promote", Some(&["rollback"]), None),
        step("deploy", None, None),
    ]);
    let mut run = PipelineRun::start(&store, 1).unwrap();
    assert!(matches!(run.next(&mut store, 1, &project, false), PipelineAction::Run(_)));
    run.step_ended(true);
    assert!(matches!(run.next(&mut store, 1, &project, true), PipelineAction::Skip(_)));
    match run.next(&mut store, 1, &project, true) {
        PipelineAction::Finished(Err(error)) => {
            assert_eq!(error.message(), "job cancelled before step deploy");
        }
        other => panic!("{:?}", other),
    }
}

#[test]
fn failed_step_stops_the_pipeline() {
    let mut store = store(JobAction::Webhook);
    let project = project(vec![step("build", None, None), step("deploy", None, None)]);
    let mut run = PipelineRun::start(&store, 1).unwrap();
    assert!(matches!(run.next(&mut store, 1, &project, false), PipelineAction::Run(_)));
    run.step_ended(false);
    for _ in 0..2 {
        match run.next(&mut store, 1, &project, false) {
            PipelineAction::Finished(Err(error)) => {
                assert_eq!(error.message(), "step 'build' failed");
            }
            other => panic!("{:?}", other),
        }
    }
    assert_eq!(store.get_job(1).unwrap().current_stage.as_deref(), Some("build"));
}

#[test]
fn pipeline_errors_have_messages() {
    assert!(matches!(PipelineRun::start(&StateStore::new(), 1), Err(PipelineError::JobMissing)));
    assert_eq!(PipelineError::JobMissing.message(), "job missing");
    assert_eq!(
        PipelineError::Workdir("/w/shop".to_string()).message(),
        "failed to create project workdir: /w/shop",
    );
    assert_eq!(
        PipelineError::StepFailed("build".to_string()).message(),
        "step 'build' failed",
    );
}

#[test]
fn cancellation_comes_before_the_timeout() {
    assert!(matches!(check_step(true, 99, 10), WatchAction::Kill(ShellError::CancelRequested)));
    assert!(matches!(check_step(false, 10, 10), WatchAction::Kill(ShellError::Timeout(10))));
    assert!(matches!(check_step(false, 0, 0), WatchAction::Kill(ShellError::Timeout(0))));
    assert!(matches!(check_step(false, 9, 10), WatchAction::Poll));
}

#[test]
fn command_is_judged_by_its_exit() {
    assert!(matches!(judge_step(Wait::Running), WatchAction::Sleep(250)));
    let exit = |success| Wait::Exited { success, status: "exit status: 1".to_string() };
    assert!(matches!(judge_step(exit(true)), WatchAction::Ended(Ok(()))));
    match judge_step(exit(false)) {
        WatchAction::Ended(Err(error)) => {
            assert_eq!(error.message(), "command exited with status exit status: 1");
        }
        other => panic!("{:?}", other),
    }
    match judge_step(Wait::Failed("no child".to_string())) {
        WatchAction::Abandon(error) => assert_eq!(error.message(), "no child"),
        other => panic!("{:?}", other),
    }
}

#[test]
fn shell_errors_have_messages() {
    let start = ShellError::Start { shell: "/bin/zsh".to_string(), workdir: "/w".to_string() };
    assert_eq!(start.message(), "failed to start shell '/bin/zsh' in /w");
    assert_eq!(ShellError::CancelRequested.message(), "cancel requested");
    assert_eq!(ShellError::Timeout(1800).message(), "step timeout after 1800s");
}

#[test]
fn output_is_logged_line_by_line() {
    let step = stream_reader("warn", "build", StreamEvent::Line("hello".to_string()));
    assert!(step.more);
    let line = step.line.unwrap();
    assert_eq!((line.level, line.stage.as_str(), line.message.as_str()), ("warn", "build", "hello"));
    let step = stream_reader("info", "build", StreamEvent::End);
    assert!(!step.more && step.line.is_none());
    let step = stream_reader("info", "build", StreamEvent::Failed("bad utf-8".to_string()));
    assert!(!step.more);
    let line = step.line.unwrap();
    assert_eq!((line.level, line.stage.as_str()), ("error", "build"));
    assert_eq!(line.message, "log stream error: bad utf-8");
}

#[test]
fn health_check_passes_with_the_first_success() {
    let (mut check, line) = HealthCheck::start(&project(Vec::new())).unwrap();
    assert_eq!((line.level, line.stage.as_str()), ("info", "healthcheck"));
    assert_eq!(line.message, "Checking http://shop/health");
    assert_eq!(check.address(), "http://shop/health");
    assert!(matches!(check.poll(0), HealthAction::Request));
    match check.answered(Probe::Status(503)) {
        ProbeVerdict::Again { line, wait_secs } => {
            assert_eq!((line.level, wait_secs), ("warn", 3));
            assert_eq!(line.message, "Healthcheck returned HTTP 503");
        }
        other => panic!("{:?}", other),
    }
    assert!(matches!(check.poll(9), HealthAction::Request));
    match check.answered(Probe::Status(204)) {
        ProbeVerdict::Passed { status, line } => {
            assert_eq!((status, line.level), (204, "info"));
            assert_eq!(line.message, "Healthcheck passed with HTTP 204");
        }
        other => panic!("{:?}", other),
    }
}

#[test]
fn only_two_hundreds_are_successes() {
    for status in [199u16, 300, 404, 500] {
        let (mut check, _) = HealthCheck::start(&project(Vec::new())).unwrap();
        assert!(matches!(check.answered(Probe::Status(status)), ProbeVerdict::Again { .. }));
    }
    for status in [200u16, 299] {
        let (mut check, _) = HealthCheck::start(&project(Vec::new())).unwrap();
        assert!(matches!(check.answered(Probe::Status(status)), ProbeVerdict::Passed { .. }));
    }
}

#[test]
fn late_health_check_fails_with_its_last_complaint() {
    let (mut check, _) = HealthCheck::start(&project(Vec::new())).unwrap();
    match check.poll(10) {
        HealthAction::GiveUp(message) => assert_eq!(message, "healthcheck timed out"),
        other => panic!("{:?}", other),
    }
    check.answered(Probe::Status(500));
    check.answered(Probe::Failed("refused".to_string()));
    match check.poll(11) {
        HealthAction::GiveUp(message) => {
            assert_eq!(message, "Healthcheck request failed: refused");
        }
        other => panic!("{:?}", other),
    }
}

#[test]
fn health_check_defaults() {
    let mut open = project(Vec::new());
    open.healthcheck_timeout_sec = None;
    let (check, _) = HealthCheck::start(&open).unwrap();
    assert!(matches!(check.poll(59), HealthAction::Request));
    assert!(matches!(check.poll(60), HealthAction::GiveUp(_)));
    open.healthcheck_url = None;
    assert!(HealthCheck::start(&open).is_none());
}

#[test]
fn first_digest_in_a_text() {
    let text = format!("Name: x\nDigest: {} and {}", digest('a'), digest('b'));
    assert_eq!(extract_digest_from_text(&text), Some(digest('a')));
    assert_eq!(extract_digest_from_text(&format!("{}9", digest('0'))), Some(digest('0')));
    assert_eq!(extract_digest_from_text("sha256:abc"), None);
    assert_eq!(extract_digest_from_text(&digest('A')), None);
    assert_eq!(extract_digest_from_text(&format!("sha256:sha256:{}", "c".repeat(64))), Some(digest('c')));
    assert_eq!(extract_digest_from_text(""), None);
}

#[test]
fn latest_digest_in_a_log() {
    let logs = vec![entry(&digest('a')), entry(&format!("x {}", digest('b'))), entry("done")];
    assert_eq!(extract_digest_from_logs(&logs), Some(digest('b')));
    assert_eq!(extract_digest_from_logs(&vec![entry("done")]), None);
    assert_eq!(extract_digest_from_logs(&Vec::new()), None);
}

#[test]
fn registry_is_asked_for_the_reference() {
    let mut store = store(JobAction::Webhook);
    store.append_log(1, entry(&digest('d')));
    let probe = probe_artifact(&store, 1).unwrap();
    assert_eq!(
        probe.command,
        "docker buildx imagetools inspect 'reg/shop:sha-0123456789ab' 2>/dev/null || docker manifest inspect 'reg/shop:sha-0123456789ab' 2>/dev/null",
    );
    assert_eq!(probe.fallback, Some(digest('d')));
    assert!(probe_artifact(&store, 2).is_none());
}

#[test]
fn digest_is_read_from_the_output() {
    let output = format!("Digest: {}\n", digest('e'));
    let resolved = resolve_image_digest(true, output.as_bytes()).unwrap();
    assert_eq!(resolved.digest, digest('e'));
    assert_eq!((resolved.line.level, resolved.line.stage.as_str()), ("info", "artifact"));
    assert_eq!(resolved.line.message, format!("Resolved image digest {}", digest('e')));
    assert!(resolve_image_digest(false, output.as_bytes()).is_none());
    assert!(resolve_image_digest(true, b"nothing").is_none());
    let mut odd = vec![0xff, 0xfe];
    odd.extend_from_slice(digest('f').as_bytes());
    assert_eq!(resolve_image_digest(true, &odd).unwrap().digest, digest('f'));
    assert_eq!(read_digest(&output).unwrap().digest, digest('e'));
}

#[test]
fn registry_wins_over_the_log() {
    let mut both = store(JobAction::Webhook);
    assert!(hydrate_job_artifact_metadata(&mut both, 1, Some("r".to_string()), Some("l".to_string())));
    assert_eq!(both.get_job(1).unwrap().image_digest.as_deref(), Some("r"));
    let mut fallback = store(JobAction::Webhook);
    assert!(hydrate_job_artifact_metadata(&mut fallback, 1, None, Some("l".to_string())));
    assert_eq!(fallback.get_job(1).unwrap().image_digest.as_deref(), Some("l"));
    let mut neither = store(JobAction::Webhook);
    assert!(!hydrate_job_artifact_metadata(&mut neither, 1, None, None));
    assert_eq!(neither.get_job(1).unwrap().image_digest, None);
    assert!(hydrate_job_artifact_metadata(&mut both, 1, Some("x".to_string()), None));
    assert_eq!(both.get_job(1).unwrap().image_digest.as_deref(), Some("r"));
}

fn describe(effects: &[Effect]) -> Vec<String> {
    effects.iter().map(|effect| format!("{:?}", effect)).collect()
}

fn begun() -> (JobRun, Vec<Effect>) {
    JobRun::begin("org/shop:main".to_string())
}

#[test]
fn run_starts_with_flag_store_and_log() {
    let (run, effects) = begun();
    assert_eq!(run.phase(), Phase::Pipeline);
    assert_eq!(effects.len(), 3);
    assert!(matches!(effects[0], Effect::RegisterCancelFlag));
    assert!(matches!(effects[1], Effect::Persist));
    match &effects[2] {
        Effect::Log(line) => {
            assert_eq!((line.level, line.stage.as_str()), ("info", "worker"));
            assert_eq!(line.message, "Job picked by worker");
        }
        other => panic!("{:?}", other),
    }
}

#[test]
fn successful_run_records_its_deployment() {
    let (mut run, _) = begun();
    assert_eq!(run.pipeline_ended(Ok(())).len(), 0);
    assert_eq!(run.phase(), Phase::Healthcheck);
    let effects = run.health_ended(Ok(Some(200)));
    assert_eq!(run.phase(), Phase::Finished);
    assert_eq!(effects.len(), 7);
    assert!(matches!(effects[0], Effect::HydrateArtifact));
    assert!(matches!(&effects[1], Effect::ReleaseLock(lock) if lock == "org/shop:main"));
    assert!(matches!(effects[2], Effect::DropCancelFlag));
    assert!(matches!(effects[3], Effect::Complete));
    assert!(matches!(&effects[4], Effect::Log(line) if line.message == "Job finished successfully"));
    assert!(matches!(effects[5], Effect::Persist));
    assert!(matches!(
        effects[6],
        Effect::RecordDeployment {
            result: DeploymentStatus::Success,
            healthcheck_status: Some(200),
            healthcheck_error: None,
        }
    ));
}

#[test]
fn failed_pipeline_skips_the_health_check() {
    let (mut run, _) = begun();
    let effects = run.pipeline_ended(Err("step 'build' failed".to_string()));
    assert_eq!(run.phase(), Phase::CancelFlag);
    assert_eq!(effects.len(), 3);
    let effects = run.cancel_flag_read(false);
    assert_eq!(run.phase(), Phase::Finished);
    assert_eq!(effects.len(), 4);
    assert!(matches!(&effects[0], Effect::End { status: JobStatus::Failed, error } if error == "step 'build' failed"));
    match &effects[1] {
        Effect::Log(line) => {
            assert_eq!((line.level, line.stage.as_str()), ("error", "system"));
            assert_eq!(line.message, "Job finished with Failed: step 'build' failed");
        }
        other => panic!("{:?}", other),
    }
    match &effects[3] {
        Effect::RecordDeployment { result, healthcheck_status, healthcheck_error } => {
            assert_eq!(*result, DeploymentStatus::Failed);
            assert_eq!(*healthcheck_status, None);
            assert_eq!(healthcheck_error.as_deref(), Some("step 'build' failed"));
        }
        other => panic!("{:?}", other),
    }
}

#[test]
fn cancelled_run_leaves_no_deployment() {
    let (mut run, _) = begun();
    run.pipeline_ended(Err("step 'build' failed".to_string()));
    let effects = run.cancel_flag_read(true);
    assert_eq!(effects.len(), 3);
    assert!(matches!(&effects[0], Effect::End { status: JobStatus::Cancelled, .. }));
    assert!(matches!(&effects[1], Effect::Log(line) if line.level == "warn"
        && line.message == "Job finished with Cancelled: step 'build' failed"));
    assert!(matches!(effects[2], Effect::Persist));
}

#[test]
fn failed_health_check_fails_the_run() {
    let (mut run, _) = begun();
    run.pipeline_ended(Ok(()));
    let effects = run.health_ended(Err("healthcheck timed out".to_string()));
    assert_eq!(run.phase(), Phase::CancelFlag);
    assert_eq!(describe(&effects), describe(&{
        let (mut other, _) = begun();
        other.pipeline_ended(Err("x".to_string()))
    }));
    let effects = run.cancel_flag_read(false);
    assert!(matches!(&effects[0], Effect::End { error, .. } if error == "healthcheck timed out"));
}

#[test]
fn whole_run_frees_the_lock_and_settles_the_job() {
    let mut store = store(JobAction::Webhook);
    let projects = vec![project(Vec::new())];
    let repo_lock = match store.begin_job(&projects, 1).unwrap() {
        BeginOutcome::Started { repo_lock, .. } => repo_lock,
        other => panic!("{:?}", other),
    };
    let (mut run, mut effects) = JobRun::begin(repo_lock);
    effects.extend(run.pipeline_ended(Ok(())));
    effects.extend(run.health_ended(Err("down".to_string())));
    effects.extend(run.cancel_flag_read(false));
    let mut logged: Vec<String> = Vec::new();
    for effect in effects {
        if let Some(entry) = apply_effect(&mut store, 1, effect) {
            logged.push(entry.message);
        }
    }
    assert_eq!(logged, vec!["Job picked by worker", "Job finished with Failed: down"]);
    let job = store.get_job(1).unwrap();
    assert_eq!(job.status, JobStatus::Failed);
    assert_eq!(job.error.as_deref(), Some("down"));
    assert_eq!(job.logs.len(), 2);
    store.set_stage(1, "again");
    assert!(matches!(store.begin_job(&projects, 1), Ok(BeginOutcome::Started { .. })));
}

#[test]
fn effects_on_the_store_take_their_time() {
    let mut store = store(JobAction::Webhook);
    let line = LogLine { level: "info", stage: "s".to_string(), message: "m".to_string() };
    let entry = apply_effect_at(&mut store, 1, Effect::Log(line), at(50)).unwrap();
    assert_eq!(entry.ts, at(50));
    assert!(apply_effect_at(&mut store, 1, Effect::Complete, at(51)).is_none());
    assert_eq!(store.get_job(1).unwrap().finished_at, Some(at(51)));
    assert!(apply_effect_at(&mut store, 1, Effect::Persist, at(52)).is_none());
    assert_eq!(store.get_job(1).unwrap().status, JobStatus::Success);
}
