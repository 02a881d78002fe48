use wrkflw::actions::{detect_setup_runtimes, fnv1a_hash};
use wrkflw::dependency::resolve_dependencies;
use wrkflw::engine::{
    extract_docker_runs_config, runner_image_plan, DockerRunsFields, ExecutionError, JobResult, RunnerImagePlan,
    RunsArgs, WorkflowRun,
};
use wrkflw::expr_parser::Expr;
use wrkflw::expression::{
    classify_reference, contains_ignore_case, ends_with_ignore_case, eq_ignore_ascii_case, format_placeholders,
    is_user_env_var, join_value, parse_condition, starts_with_ignore_case, ContextRef,
};
use wrkflw::gitlab::{validate_pipeline_structure, GitlabJob, Pipeline};
use wrkflw::logging::{log, set_log_level, set_quiet_mode, Console, LogLevel, LogState};
use wrkflw::order::sort_strings;
use wrkflw::paths::{prepare_step_container_context, StepContainerContext};
use wrkflw::step_exec::{guarded_outcome, input_env_key, skipped_outcome, StepOutcome};
use wrkflw::steps::{JobStatus, StepLoopState, StepResult, StepStatus};
use wrkflw::strmap::StrMap;
use wrkflw::tracking::ResourceTracker;
use wrkflw::workflow::{warn_unsupported_container_fields, ContainerCredentials, Job, JobContainer, Step, WorkflowDefinition};

fn str_map(pairs: &[(&str, &str)]) -> StrMap<String> {
    let mut m = StrMap::new();
    for (k, v) in pairs {
        m.insert(k.to_string(), v.to_string());
    }
    m
}

fn job(needs: Option<Vec<&str>>) -> Job {
    Job {
        runs_on: Some(vec!["ubuntu-latest".to_string()]),
        needs: needs.map(|v| v.into_iter().map(String::from).collect()),
        container: None,
        steps: vec![],
        env: StrMap::new(),
        strategy: None,
        services: StrMap::new(),
        if_condition: None,
        outputs: None,
        permissions: None,
        uses: None,
        with: None,
        defaults: None,
    }
}

fn workflow(jobs: Vec<(&str, Option<Vec<&str>>)>) -> WorkflowDefinition {
    let mut m = StrMap::new();
    for (name, needs) in jobs {
        m.insert(name.to_string(), job(needs));
    }
    WorkflowDefinition { name: "wf".to_string(), on: vec![], jobs: m, defaults: None, env: StrMap::new() }
}

fn uses_step(uses: &str) -> Step {
    Step {
        name: None,
        uses: Some(uses.to_string()),
        run: None,
        with: None,
        env: StrMap::new(),
        continue_on_error: None,
        if_condition: None,
        id: None,
        working_directory: None,
        shell: None,
    }
}

// ---- dependency plans ----

#[test]
fn plan_runs_each_job_after_its_needs() {
    let wf = workflow(vec![("deploy", Some(vec!["test"])), ("test", Some(vec!["build"])), ("build", None)]);
    let plan = resolve_dependencies(&wf).unwrap();
    assert_eq!(plan, vec![vec!["build".to_string()], vec!["test".to_string()], vec!["deploy".to_string()]]);
}

#[test]
fn plan_groups_independent_jobs_in_one_batch() {
    let wf = workflow(vec![("a", None), ("b", None), ("c", Some(vec!["a", "b"]))]);
    let plan = resolve_dependencies(&wf).unwrap();
    assert_eq!(plan.len(), 2);
    let mut first = plan[0].clone();
    first.sort();
    assert_eq!(first, vec!["a".to_string(), "b".to_string()]);
    assert_eq!(plan[1], vec!["c".to_string()]);
}

#[test]
fn plan_rejects_missing_need() {
    let wf = workflow(vec![("a", Some(vec!["ghost"]))]);
    let err = resolve_dependencies(&wf).unwrap_err();
    assert_eq!(err, "Job 'a' depends on non-existent job 'ghost'");
}

#[test]
fn plan_rejects_cycle() {
    let wf = workflow(vec![("a", Some(vec!["b"])), ("b", Some(vec!["a"]))]);
    let err = resolve_dependencies(&wf).unwrap_err();
    assert!(err.starts_with("Circular dependency detected in workflow jobs: "));
    assert!(err.contains('a') && err.contains('b'));
}

// ---- sorting ----

#[test]
fn sort_strings_orders_and_keeps_items() {
    let v = vec!["pear".to_string(), "apple".to_string(), "fig".to_string(), "apple".to_string()];
    let r = sort_strings(&v);
    assert_eq!(r, vec!["apple", "apple", "fig", "pear"]);
}

#[test]
fn sort_strings_is_independent_of_input_order() {
    let a = sort_strings(&vec!["b".to_string(), "a".to_string(), "c".to_string()]);
    let b = sort_strings(&vec!["c".to_string(), "b".to_string(), "a".to_string()]);
    assert_eq!(a, b);
}

// ---- expressions ----

#[test]
fn condition_delimiters_are_optional() {
    let with = parse_condition("${{ success() }}").ok().unwrap().unwrap();
    let without = parse_condition("success()").ok().unwrap().unwrap();
    match (with, without) {
        (Expr::Call(a, _), Expr::Call(b, _)) => {
            assert_eq!(a, "success");
            assert_eq!(b, "success");
        }
        _ => panic!("expected calls"),
    }
}

#[test]
fn condition_reports_unterminated_string() {
    assert!(parse_condition("'abc").is_err());
}

#[test]
fn empty_condition_has_no_expression() {
    assert!(parse_condition("  ").ok().unwrap().is_none());
}

#[test]
fn github_and_runner_keys_are_not_user_variables() {
    assert!(!is_user_env_var("GITHUB_TOKEN"));
    assert!(!is_user_env_var("RUNNER_OS"));
    assert!(!is_user_env_var("CI"));
    assert!(is_user_env_var("MY_VAR"));
}

#[test]
fn inputs_reference_reads_uppercased_input_variable() {
    let parts = vec!["inputs".to_string(), "node-version".to_string()];
    match classify_reference(&parts) {
        ContextRef::Env(k) => assert_eq!(k, "INPUT_NODE_VERSION"),
        _ => panic!("expected an env reference"),
    }
}

#[test]
fn github_reference_reads_github_variable() {
    let parts = vec!["github".to_string(), "event".to_string(), "name".to_string()];
    match classify_reference(&parts) {
        ContextRef::Env(k) => assert_eq!(k, "GITHUB_EVENT_NAME"),
        _ => panic!("expected an env reference"),
    }
}

#[test]
fn step_output_reference_is_classified() {
    let parts = vec!["steps".to_string(), "build".to_string(), "outputs".to_string(), "v".to_string()];
    match classify_reference(&parts) {
        ContextRef::StepOutput(s, k) => {
            assert_eq!(s, "build");
            assert_eq!(k, "v");
        }
        _ => panic!("expected a step output"),
    }
}

#[test]
fn case_insensitive_string_functions() {
    assert!(contains_ignore_case("Hello World", "WORLD"));
    assert!(!contains_ignore_case("Hello", "xyz"));
    assert!(starts_with_ignore_case("Hello", "hE"));
    assert!(ends_with_ignore_case("Hello", "LO"));
    assert!(eq_ignore_ascii_case("Success", "SUCCESS"));
    assert!(!eq_ignore_ascii_case("a", "b"));
}

#[test]
fn format_replaces_placeholders() {
    let args = vec!["a".to_string(), "{0}".to_string()];
    assert_eq!(format_placeholders("x {0} y {1} z {2}", &args), "x a y {0} z {2}");
}

#[test]
fn join_replaces_commas() {
    assert_eq!(join_value("a,b,c", Some("-")), "a-b-c");
    assert_eq!(join_value("a,b", None), "a,b");
}

#[test]
fn input_env_key_uppercases() {
    assert_eq!(input_env_key("token"), "INPUT_TOKEN");
}

// ---- hashing ----

#[test]
fn fnv1a_known_values() {
    assert_eq!(fnv1a_hash(b""), 0xcbf29ce484222325);
    assert_eq!(fnv1a_hash(b"a"), 0xaf63dc4c8601ec8c);
}

// ---- outside calls through the library ----

#[test]
fn bad_quoting_error_quotes_the_text() {
    let r = DockerRunsFields { entrypoint: None, args: RunsArgs::Text("hello 'world".into()) };
    let err = extract_docker_runs_config(Some(&r)).unwrap_err();
    assert_eq!(err, "unmatched quote in runs.args: \"hello 'world\"");
}

#[test]
fn credentials_debug_hides_password() {
    let creds = ContainerCredentials { username: Some("me".into()), password: Some("pw".into()) };
    assert_eq!(
        creds.debug_string(),
        "ContainerCredentials { username: Some(\"me\"), password: \"[REDACTED]\" }"
    );
    let anon = ContainerCredentials { username: None, password: None };
    assert_eq!(anon.debug_string(), "ContainerCredentials { username: None, password: \"[REDACTED]\" }");
}

#[test]
fn step_container_context_builds_volumes_in_order() {
    let mut step_env = str_map(&[("WRKFLW_RUNTIME_MODE", "docker")]);
    let job_env = str_map(&[("GITHUB_ENV", "/tmp/run/github/env")]);
    let c = JobContainer {
        image: "node:18".into(),
        credentials: None,
        env: StrMap::new(),
        ports: None,
        volumes: Some(vec!["/a:/b".into()]),
        options: None,
    };
    let ctx: StepContainerContext = prepare_step_container_context(&mut step_env, &job_env, Some(&c));
    let vols = ctx.build_volumes("/work", "/github/workspace");
    assert_eq!(
        vols,
        vec![
            ("/work".to_string(), "/github/workspace".to_string()),
            ("/tmp/run/github".to_string(), "/github/workflow".to_string()),
            ("/a".to_string(), "/b".to_string()),
        ]
    );
}

#[test]
fn unsupported_container_fields_are_reported_in_order() {
    let c = JobContainer {
        image: "x".into(),
        credentials: Some(ContainerCredentials { username: None, password: None }),
        env: StrMap::new(),
        ports: Some(vec!["80".into()]),
        volumes: None,
        options: Some("--cpus 1".into()),
    };
    let w = warn_unsupported_container_fields(&c);
    assert_eq!(w.len(), 3);
    assert!(w[0].contains("'options'"));
    assert!(w[1].contains("'credentials'"));
    assert!(w[2].contains("'ports'"));
}

// ---- runner images ----

#[test]
fn runner_image_plan_uses_container_image() {
    let mut j = job(None);
    j.container = Some(JobContainer {
        image: "alpine:3".into(),
        credentials: None,
        env: StrMap::new(),
        ports: None,
        volumes: None,
        options: None,
    });
    j.steps = vec![uses_step("actions/setup-node@v4")];
    match runner_image_plan(&j) {
        RunnerImagePlan::Ready(img) => assert_eq!(img, "alpine:3"),
        _ => panic!("container image should be used as it is"),
    }
}

#[test]
fn runner_image_plan_combines_setup_runtimes() {
    let mut j = job(None);
    j.steps = vec![uses_step("actions/setup-node@v4"), uses_step("actions/setup-python@v5")];
    match runner_image_plan(&j) {
        RunnerImagePlan::Combined { runtimes, .. } => {
            assert_eq!(runtimes.len(), 2);
            assert_eq!(runtimes[0].language, "node");
            assert_eq!(runtimes[1].language, "python");
        }
        _ => panic!("expected a combined image"),
    }
}

#[test]
fn detected_languages_are_distinct() {
    let steps = vec![
        uses_step("actions/setup-node@v3"),
        uses_step("actions/setup-python@v5"),
        uses_step("actions/setup-node@v4"),
    ];
    let rts = detect_setup_runtimes(&steps);
    assert_eq!(rts.len(), 2);
    assert_ne!(rts[0].language, rts[1].language);
}

// ---- step outcomes ----

#[test]
fn continue_on_error_keeps_job_running() {
    let run = Ok(StepResult::new("lint".into(), StepStatus::Failure, "bad".into()));
    match guarded_outcome(run, "lint".into(), Some(true)) {
        StepOutcome::Completed { result, abort_job } => {
            assert!(!abort_job);
            assert_eq!(result.outcome, StepStatus::Failure);
            assert_eq!(result.conclusion, StepStatus::Success);
        }
        _ => panic!("expected a completed step"),
    }
}

#[test]
fn failure_without_continue_on_error_aborts() {
    let run = Ok(StepResult::new("build".into(), StepStatus::Failure, String::new()));
    match guarded_outcome(run, "build".into(), None) {
        StepOutcome::Completed { abort_job, result } => {
            assert!(abort_job);
            assert_eq!(result.conclusion, StepStatus::Failure);
        }
        _ => panic!("expected a completed step"),
    }
}

#[test]
fn step_error_becomes_failed_result() {
    let run = Err(ExecutionError::Runtime("boom".into()));
    match guarded_outcome(run, "deploy".into(), None) {
        StepOutcome::Completed { result, abort_job } => {
            assert!(abort_job);
            assert_eq!(result.status, StepStatus::Failure);
            assert_eq!(result.output, "Error: Runtime error: boom");
        }
        _ => panic!("expected a completed step"),
    }
}

#[test]
fn step_loop_records_outcomes() {
    let mut state = StepLoopState::new();
    let skipped = skipped_outcome("s1".into(), "false");
    assert!(!state.process_outcome(skipped, Some("s1"), false));
    let done = guarded_outcome(Ok(StepResult::new("s2".into(), StepStatus::Failure, "out".into())), "s2".into(), None);
    assert!(state.process_outcome(done, Some("s2"), false));
    assert_eq!(state.step_results.len(), 2);
    assert_eq!(state.job_status_str, "failure");
    assert_eq!(state.job_logs, "\n=== Output from step 's2' ===\nout\n=== End output ===\n\n");
    let (o, c) = state.step_status_map.get("s1").unwrap();
    assert_eq!(o, "skipped");
    assert_eq!(c, "skipped");
}

#[test]
fn step_loop_logs_status_line_when_not_verbose() {
    let mut state = StepLoopState::new();
    let done = guarded_outcome(Ok(StepResult::new("ok".into(), StepStatus::Success, "x".into())), "ok".into(), None);
    assert!(!state.process_outcome(done, None, false));
    assert_eq!(state.job_logs, "Step 'ok' completed with status: Success\n");
    assert_eq!(state.job_status_str, "success");
}

// ---- workflow run bookkeeping ----

fn job_result(name: &str, status: JobStatus, outputs: &[(&str, &str)]) -> JobResult {
    JobResult {
        name: name.to_string(),
        canonical_name: name.to_string(),
        status,
        steps: vec![StepResult::new("s".into(), StepStatus::Failure, "broke".into())],
        logs: String::new(),
        outputs: str_map(outputs),
    }
}

#[test]
fn workflow_run_gathers_results_and_failures() {
    let mut run = WorkflowRun::new();
    run.record_batch(vec![job_result("build", JobStatus::Success, &[("v", "1")])]);
    assert!(!run.has_failures);
    assert_eq!(run.job_results.get("build").map(|s| s.as_str()), Some("success"));
    assert_eq!(run.job_outputs.get("build").unwrap().get("v").map(|s| s.as_str()), Some("1"));
    run.record_batch(vec![job_result("test", JobStatus::Failure, &[])]);
    assert!(run.has_failures);
    let result = run.finish();
    assert_eq!(result.jobs.len(), 2);
    let details = result.failure_details.unwrap();
    assert_eq!(details, "\n\u{2716} Job failed: test\n  \u{2716} s: broke\n");
}

#[test]
fn workflow_run_without_failures_has_no_report() {
    let mut run = WorkflowRun::new();
    run.record_batch(vec![job_result("a", JobStatus::Skipped, &[])]);
    let result = run.finish();
    assert!(result.failure_details.is_none());
}

// ---- errors ----

#[test]
fn execution_error_messages() {
    assert_eq!(ExecutionError::Parse("p".into()).message(), "Parse error: p");
    assert_eq!(ExecutionError::Runtime("r".into()).message(), "Runtime error: r");
    let e: ExecutionError = String::from("x").into();
    assert_eq!(e.message(), "Parse error: x");
}

// ---- resource tracking ----

#[test]
fn removed_container_is_no_longer_tracked() {
    let mut t = ResourceTracker::new();
    t.add_container("c1");
    t.add_container("c2");
    t.add_network("n1");
    t.remove_container("c1");
    assert_eq!(t.containers(), vec!["c2".to_string()]);
    assert_eq!(t.networks(), vec!["n1".to_string()]);
    t.remove_network("n1");
    assert!(t.networks().is_empty());
}

// ---- logging ----

#[test]
fn log_levels_filter_console_output() {
    let mut s = LogState::new();
    set_log_level(&mut s, LogLevel::Warning);
    assert!(matches!(log(&mut s, LogLevel::Info, "10:00:00", "hi"), Console::Silent));
    match log(&mut s, LogLevel::Error, "10:00:01", "bad") {
        Console::Stderr(m) => assert!(m.starts_with("[10:00:01] ") && m.ends_with(" bad")),
        _ => panic!("errors go to standard error"),
    }
    set_quiet_mode(&mut s, true);
    assert!(matches!(log(&mut s, LogLevel::Error, "10:00:02", "x"), Console::Silent));
    assert_eq!(s.logs.len(), 3);
}

// ---- gitlab ----

fn gitlab_job(stage: Option<&str>, script: Option<Vec<&str>>, deps: Option<Vec<&str>>) -> GitlabJob {
    GitlabJob {
        stage: stage.map(String::from),
        script: script.map(|v| v.into_iter().map(String::from).collect()),
        before_script: None,
        after_script: None,
        extends: None,
        dependencies: deps.map(|v| v.into_iter().map(String::from).collect()),
        variables: None,
        services: None,
        template: None,
    }
}

#[test]
fn empty_pipeline_is_invalid() {
    let p = Pipeline { stages: None, variables: None, jobs: StrMap::new() };
    let r = validate_pipeline_structure(&p);
    assert!(!r.is_valid);
    assert_eq!(r.issues, vec!["Pipeline must contain at least one job".to_string()]);
}

#[test]
fn pipeline_with_script_is_valid() {
    let mut jobs = StrMap::new();
    jobs.insert("build".to_string(), gitlab_job(Some("build"), Some(vec!["make"]), None));
    let p = Pipeline { stages: Some(vec!["build".into()]), variables: None, jobs };
    let r = validate_pipeline_structure(&p);
    assert!(r.is_valid, "{:?}", r.issues);
}
