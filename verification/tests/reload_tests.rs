use frr_agent::reload::{
    build_exec_args, config_file_path, frr_reload, ExecOutcome, FrrErr, Orchestrator,
    ReloadAction, ReloadRun, StageOutcome,
};

#[test]
fn successful_two_phase_run() {
    let mut run = ReloadRun::new();
    assert_eq!(run.next_action(), Some(ReloadAction::WriteConfigFile));
    run.record_stage(StageOutcome::Written);
    assert_eq!(run.next_action(), Some(ReloadAction::RunTool { test: true }));
    run.record_exec(ExecOutcome::Exited(true));
    assert_eq!(run.next_action(), Some(ReloadAction::RunTool { test: false }));
    run.record_exec(ExecOutcome::Exited(true));
    assert_eq!(run.next_action(), None);
    assert!(run.is_done());
    assert_eq!(run.response(), "Ok");
}

#[test]
fn validate_failure_never_reaches_apply() {
    let mut run = ReloadRun::new();
    run.record_stage(StageOutcome::Written);
    assert_eq!(run.next_action(), Some(ReloadAction::RunTool { test: true }));
    run.record_exec(ExecOutcome::Exited(false));
    // The attempt is over: the apply invocation is never requested.
    assert_eq!(run.next_action(), None);
    assert!(run.is_done());
    assert_eq!(run.response(), "Reloading error: validation failed");
}

#[test]
fn staging_failure_never_reaches_subprocess() {
    let mut run = ReloadRun::new();
    run.record_stage(StageOutcome::Failed("disk full".to_string()));
    assert_eq!(run.next_action(), None);
    assert!(run.is_done());
    assert_eq!(run.response(), "Failed to write config file: disk full");
}

#[test]
fn apply_failure_response() {
    let mut run = ReloadRun::new();
    run.record_stage(StageOutcome::Written);
    run.record_exec(ExecOutcome::Exited(true));
    run.record_exec(ExecOutcome::Exited(false));
    assert!(run.is_done());
    assert_eq!(run.response(), "Reloading error: apply failed");
}

#[test]
fn spawn_and_wait_failures() {
    let mut run = ReloadRun::new();
    run.record_stage(StageOutcome::Written);
    run.record_exec(ExecOutcome::SpawnFailed("no such file".to_string()));
    assert_eq!(run.response(), "Failed to spawn reloader: no such file");

    let mut run = ReloadRun::new();
    run.record_stage(StageOutcome::Written);
    run.record_exec(ExecOutcome::Exited(true));
    run.record_exec(ExecOutcome::WaitFailed("interrupted".to_string()));
    assert_eq!(run.response(), "Failed to wait for reloader: interrupted");
}

#[test]
fn describe_is_distinct_per_stage() {
    assert_eq!(
        FrrErr::StagingFailed("e1".to_string()).describe(),
        "Failed to write config file: e1"
    );
    assert_eq!(
        FrrErr::ValidationFailed.describe(),
        "Reloading error: validation failed"
    );
    assert_eq!(FrrErr::ApplyFailed.describe(), "Reloading error: apply failed");
    assert_eq!(
        FrrErr::ProcessSpawnFailed("e2".to_string()).describe(),
        "Failed to spawn reloader: e2"
    );
    assert_eq!(
        FrrErr::ProcessWaitFailed("e3".to_string()).describe(),
        "Failed to wait for reloader: e3"
    );
}

#[test]
fn frr_reload_collapses_outcomes() {
    assert_eq!(frr_reload(&Ok(())), "Ok");
    assert_eq!(
        frr_reload(&Err(FrrErr::ValidationFailed)),
        "Reloading error: validation failed"
    );
}

#[test]
fn staged_path_is_deterministic() {
    assert_eq!(
        config_file_path("/tmp/configs/hedgehog", 3),
        "/tmp/configs/hedgehog/frr-config-gen-3.conf"
    );
    // The path depends on the directory and the generation id alone:
    // staging the same id for two different payloads targets one file.
    let first = config_file_path("/tmp/out", 17);
    let second = config_file_path("/tmp/out", 17);
    assert_eq!(first, second);
}

#[test]
fn staged_path_renders_ids() {
    assert_eq!(config_file_path("/o", 0), "/o/frr-config-gen-0.conf");
    assert_eq!(config_file_path("/o", -5), "/o/frr-config-gen--5.conf");
    assert_eq!(
        config_file_path("/o", i64::MAX),
        "/o/frr-config-gen-9223372036854775807.conf"
    );
    assert_eq!(
        config_file_path("/o", i64::MIN),
        "/o/frr-config-gen--9223372036854775808.conf"
    );
}

#[test]
fn exec_args_order() {
    let fixed = vec!["--stdout", "--debug", "--bindir", "/usr/local/bin"];
    let argv = build_exec_args(true, &fixed, "/o/frr-config-gen-3.conf");
    assert_eq!(
        argv,
        vec![
            "--test",
            "--stdout",
            "--debug",
            "--bindir",
            "/usr/local/bin",
            "/o/frr-config-gen-3.conf"
        ]
    );
    let argv = build_exec_args(false, &fixed, "/o/frr-config-gen-3.conf");
    assert_eq!(argv[0], "--reload");
    assert_eq!(argv.len(), 6);
}

#[test]
fn at_most_one_reload_in_flight() {
    let mut orch = Orchestrator::new();
    let first = orch.try_begin();
    assert!(first.is_some());
    // While the first attempt is in flight, no second one can start.
    assert!(orch.try_begin().is_none());
    let mut run = first.unwrap();
    run.record_stage(StageOutcome::Written);
    run.record_exec(ExecOutcome::Exited(true));
    run.record_exec(ExecOutcome::Exited(true));
    orch.finish(run);
    // Once it completed, the slot is free again.
    assert!(orch.try_begin().is_some());
}
