use xtask::errors::TestError;
use xtask::judge::plan_judge_run;
use xtask::pipeline::{
    classify_format_version, do_test, step_kind, FormatVersionPolicy, StepKind, TestArgs,
    TestContext, TestRun,
};
use xtask::plan::{ForbiddenPatterns, ForbiddenPatternsGroup, JudgeRun, RunCmd, TestPlan, TestStep};
use xtask::profile::BuildProfile;
use xtask::resolver::{
    build_args, configure_args, host_cpu_count, BuildResolver, ResolverAction, ResolverEvent,
    ResolverState,
};
use xtask::template::{artifact_path, process_cmd_arg, run_cmd_profile, RepoConfig};

fn config() -> RepoConfig {
    RepoConfig::new("/repo".to_string())
}

#[test]
fn tool_registry_resolves_known_tools() {
    let cfg = config();
    assert_eq!(cfg.get_tool("nej-runner").unwrap(), "common/tools/test.py");
    assert_eq!(
        cfg.get_tool_path("clang-fmt-runner").unwrap(),
        "/repo/common/tools/run-clang-format.py"
    );
    match cfg.get_tool("missing").unwrap_err() {
        TestError::ToolNotFound { name } => assert_eq!(name, "missing"),
        other => panic!("expected ToolNotFound, got {:?}", other),
    }
}

#[test]
fn tokens_resolve_per_processor() {
    let cfg = config();
    let lit = process_cmd_arg(&cfg, "/repo/task", BuildProfile::Debug, "plain-arg").unwrap();
    assert_eq!(lit.arg, "plain-arg");
    assert!(lit.build.is_none());

    let tool = process_cmd_arg(&cfg, "/repo/task", BuildProfile::Debug, "tool:nej-runner").unwrap();
    assert_eq!(tool.arg, "/repo/common/tools/test.py");
    assert!(tool.build.is_none());

    let local = process_cmd_arg(&cfg, "/repo/task", BuildProfile::Debug, "local:data:x.txt")
        .unwrap();
    assert_eq!(local.arg, "/repo/task/data:x.txt");
    assert!(local.build.is_none());

    let build = process_cmd_arg(&cfg, "/repo/task", BuildProfile::Debug, "build:solver").unwrap();
    assert_eq!(build.arg, "/repo/build_debug/solver");
    assert_eq!(build.build, Some(("solver".to_string(), BuildProfile::Debug)));

    let tagged = process_cmd_arg(&cfg, "/repo/task", BuildProfile::Debug, "build(rel):solver")
        .unwrap();
    assert_eq!(tagged.arg, "/repo/build_release/solver");
    assert_eq!(tagged.build, Some(("solver".to_string(), BuildProfile::Release)));

    match process_cmd_arg(&cfg, "/repo/task", BuildProfile::Debug, "nope:x").unwrap_err() {
        TestError::ProcessorNotFound { name } => assert_eq!(name, "nope"),
        other => panic!("expected ProcessorNotFound, got {:?}", other),
    }

    match process_cmd_arg(&cfg, "/repo/task", BuildProfile::Debug, "tool:missing").unwrap_err() {
        TestError::ToolNotFound { name } => assert_eq!(name, "missing"),
        other => panic!("expected ToolNotFound, got {:?}", other),
    }
}

#[test]
fn command_plan_collects_builds_in_token_order() {
    let cfg = config();
    let rc = RunCmd {
        cmd: vec![
            "build:runner".to_string(),
            "--data".to_string(),
            "build(tsan):aux".to_string(),
        ],
        echo: true,
        profiles: vec![BuildProfile::Release],
    };
    let plan = run_cmd_profile(&cfg, "/repo/task", &rc, BuildProfile::Release, false).unwrap();
    assert_eq!(
        plan.argv,
        vec!["/repo/build_release/runner", "--data", "/repo/build_tsan/aux"]
    );
    assert_eq!(
        plan.builds,
        vec![
            ("runner".to_string(), BuildProfile::Release),
            ("aux".to_string(), BuildProfile::TSan),
        ]
    );
    assert!(plan.echo);
    assert!(plan.run);
}

#[test]
fn empty_command_fails_unless_build_only() {
    let cfg = config();
    let rc = RunCmd { cmd: vec![], echo: false, profiles: vec![BuildProfile::Debug] };
    match run_cmd_profile(&cfg, "/t", &rc, BuildProfile::Debug, false).unwrap_err() {
        TestError::NoCmdGiven => {},
        other => panic!("expected NoCmdGiven, got {:?}", other),
    }
    let plan = run_cmd_profile(&cfg, "/t", &rc, BuildProfile::Debug, true).unwrap();
    assert!(!plan.run);
    assert!(plan.argv.is_empty());
}

#[test]
fn artifact_paths_are_deterministic() {
    let once = artifact_path("/repo", "solver", BuildProfile::ASan);
    let twice = artifact_path("/repo", "solver", BuildProfile::ASan);
    assert_eq!(once, "/repo/build_asan/solver");
    assert_eq!(once, twice);
}

fn drive(resolver: &mut BuildResolver, answers: &[(ResolverAction, ResolverEvent)]) -> Vec<ResolverAction> {
    let mut seen = Vec::new();
    for (expected, answer) in answers {
        let action = resolver.next_action().unwrap();
        assert_eq!(action, *expected);
        seen.push(action);
        resolver.on_event(*answer);
    }
    seen
}

#[test]
fn second_resolution_without_source_change_never_reconfigures() {
    // The directory is in place and the incremental build succeeds:
    // the only actions are the directory check and one build.
    let mut r = BuildResolver::new("solver".to_string(), BuildProfile::Debug);
    let actions = drive(
        &mut r,
        &[
            (ResolverAction::CheckDir, ResolverEvent::DirChecked { exists: true }),
            (ResolverAction::Build, ResolverEvent::Built { ok: true }),
        ],
    );
    assert_eq!(r.state, ResolverState::Succeeded);
    assert!(r.next_action().is_none());
    assert!(actions
        .iter()
        .all(|a| !matches!(a, ResolverAction::Configure { .. })));
}

#[test]
fn first_use_creates_and_configures_the_build_tree() {
    let mut r = BuildResolver::new("solver".to_string(), BuildProfile::Release);
    drive(
        &mut r,
        &[
            (ResolverAction::CheckDir, ResolverEvent::DirChecked { exists: false }),
            (ResolverAction::CreateDir, ResolverEvent::DirCreated { ok: true }),
            (ResolverAction::Configure { fresh: false }, ResolverEvent::Configured { ok: true }),
            (ResolverAction::Build, ResolverEvent::Built { ok: true }),
        ],
    );
    assert_eq!(r.state, ResolverState::Succeeded);
}

#[test]
fn failed_configuration_is_fatal_and_not_retried() {
    let mut r = BuildResolver::new("solver".to_string(), BuildProfile::Release);
    drive(
        &mut r,
        &[
            (ResolverAction::CheckDir, ResolverEvent::DirChecked { exists: false }),
            (ResolverAction::CreateDir, ResolverEvent::DirCreated { ok: true }),
            (ResolverAction::Configure { fresh: false }, ResolverEvent::Configured { ok: false }),
        ],
    );
    assert_eq!(r.state, ResolverState::FailedConfigure);
    assert!(r.next_action().is_none());
}

#[test]
fn build_recovery_reconfigures_once_and_retries_once() {
    // The retried build succeeds: exactly one forced reconfiguration.
    let mut r = BuildResolver::new("solver".to_string(), BuildProfile::Debug);
    let actions = drive(
        &mut r,
        &[
            (ResolverAction::CheckDir, ResolverEvent::DirChecked { exists: true }),
            (ResolverAction::Build, ResolverEvent::Built { ok: false }),
            (ResolverAction::Configure { fresh: true }, ResolverEvent::Configured { ok: true }),
            (ResolverAction::Build, ResolverEvent::Built { ok: true }),
        ],
    );
    assert_eq!(r.state, ResolverState::Succeeded);
    let reconfigures = actions
        .iter()
        .filter(|a| matches!(a, ResolverAction::Configure { fresh: true }))
        .count();
    assert_eq!(reconfigures, 1);

    // The retried build fails too: the failure is fatal.
    let mut r = BuildResolver::new("solver".to_string(), BuildProfile::Debug);
    drive(
        &mut r,
        &[
            (ResolverAction::CheckDir, ResolverEvent::DirChecked { exists: true }),
            (ResolverAction::Build, ResolverEvent::Built { ok: false }),
            (ResolverAction::Configure { fresh: true }, ResolverEvent::Configured { ok: true }),
            (ResolverAction::Build, ResolverEvent::Built { ok: false }),
        ],
    );
    assert_eq!(r.state, ResolverState::FailedBuild);
    assert!(r.next_action().is_none());
}

#[test]
fn build_tool_command_lines_are_exact() {
    assert_eq!(
        configure_args("/repo/build_debug", "/repo", BuildProfile::Debug, false),
        vec!["-B", "/repo/build_debug", "-S", "/repo", "-DCMAKE_BUILD_TYPE=Debug"]
    );
    assert_eq!(
        configure_args("/repo/build_asan", "/repo", BuildProfile::ASan, true),
        vec!["-B", "/repo/build_asan", "-S", "/repo", "-DCMAKE_BUILD_TYPE=Asan", "--fresh"]
    );
    assert_eq!(
        build_args("/repo/build_debug", "solver", 8),
        vec!["--build", "/repo/build_debug", "--target", "solver", "-j", "8"]
    );
    assert!(host_cpu_count() >= 1);
}

#[test]
fn judge_plan_resolves_references_and_flags() {
    let cfg = config();
    let jr = JudgeRun {
        solution: "sol".to_string(),
        checker: Some("build:chk".to_string()),
        interactor: Some("std::graders::collect".to_string()),
        extra_args: vec!["--quiet".to_string()],
        retests_count: 2,
        retries_count: 5,
        profiles: vec![BuildProfile::Release],
    };
    let plan = plan_judge_run(&cfg, &jr, BuildProfile::Release, false).unwrap();
    assert_eq!(
        plan.argv,
        vec![
            "/repo/common/tools/test.py",
            "--checker",
            "/repo/build_release/chk",
            "--interactor",
            "std::graders::collect",
            "--retests-count",
            "2",
            "--retries-count",
            "5",
            "--run-cmd",
            "/repo/build_release/sol",
            "--quiet",
        ]
    );
    assert_eq!(
        plan.builds,
        vec![
            ("sol".to_string(), BuildProfile::Release),
            ("chk".to_string(), BuildProfile::Release),
        ]
    );
    assert!(plan.run);
    let built_only = plan_judge_run(&cfg, &jr, BuildProfile::Release, true).unwrap();
    assert!(!built_only.run);
}

fn three_step_plan() -> TestPlan {
    let step = |name: &str| {
        TestStep::RunCmd(RunCmd {
            cmd: vec![name.to_string()],
            echo: false,
            profiles: vec![BuildProfile::Debug],
        })
    };
    TestPlan { tests: vec![step("a"), step("b"), step("c")], editable: vec![] }
}

#[test]
fn pipeline_stops_at_first_failure() {
    let ctx = TestContext::new(
        "/repo".to_string(),
        "/repo/task".to_string(),
        TestArgs { build_only: false },
    );
    let mut run: TestRun = do_test(&ctx, &three_step_plan());
    // Step A succeeds, step B fails: the run reports B and C never runs.
    assert_eq!(run.current_step(), Some(0));
    run.on_step_result(true);
    assert_eq!(run.current_step(), Some(1));
    run.on_step_result(false);
    assert_eq!(run.current_step(), None);
    assert_eq!(run.outcome(), Some(Err(1)));
}

#[test]
fn pipeline_succeeds_when_every_step_does() {
    let ctx = TestContext::new(
        "/repo".to_string(),
        "/repo/task".to_string(),
        TestArgs { build_only: false },
    );
    let mut run = do_test(&ctx, &three_step_plan());
    while let Some(_) = run.current_step() {
        run.on_step_result(true);
    }
    assert_eq!(run.outcome(), Some(Ok(())));
}

#[test]
fn steps_dispatch_by_kind() {
    let cmd = TestStep::RunCmd(RunCmd { cmd: vec![], echo: false, profiles: vec![] });
    assert_eq!(step_kind(&cmd), StepKind::RunCmd);
    let pats = TestStep::ForbiddenPatterns(ForbiddenPatterns::new(
        ForbiddenPatternsGroup {
            substring: vec![],
            token: vec![],
            regex: vec![],
            hint: None,
        },
        vec![],
    ));
    assert_eq!(step_kind(&pats), StepKind::ForbiddenPatterns);
    let judge = TestStep::JudgeRun(JudgeRun {
        solution: "s".to_string(),
        checker: None,
        interactor: None,
        extra_args: vec![],
        retests_count: 1,
        retries_count: 1,
        profiles: vec![],
    });
    assert_eq!(step_kind(&judge), StepKind::JudgeRun);
}

#[test]
fn format_version_policy_has_exact_boundaries() {
    assert_eq!(classify_format_version(10), FormatVersionPolicy::TooOld);
    assert_eq!(classify_format_version(11), FormatVersionPolicy::Conservative);
    assert_eq!(classify_format_version(14), FormatVersionPolicy::Conservative);
    assert_eq!(classify_format_version(15), FormatVersionPolicy::Current);
    assert_eq!(classify_format_version(20), FormatVersionPolicy::Current);
}
