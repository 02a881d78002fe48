use wrkflw::action_inputs::{
    cache_hit_line, cache_report, cache_request, download_all_report, download_report, input_lines, upload_report,
    upload_request,
};
use wrkflw::action_step::{
    add_step_inputs, checkout_result, container_step_result, docker_step_call, hides_action_messages,
    host_command_result, image_action_result, system_rust_result,
};
use wrkflw::composite::{composite_input_env, github_output_entry, CompositeInput, CompositeRun};
use wrkflw::docker::{docker_container_plan, join_pairs, removes_container};
use wrkflw::engine::{
    clone_plan, effective_runtime, matrix_chunks, ExecutionError, JobResult, MatrixRun, RuntimeType, WorkflowRun,
};
use wrkflw::environment::add_matrix_context;
use wrkflw::language_env::{language_dockerfile, language_image_tag};
use wrkflw::paths::is_copied_name;
use wrkflw::podman::{PodmanCleanup, PodmanRuntime};
use wrkflw::reusable::{
    called_workflow_env, called_workflow_result, parse_uses_ref, remote_repo_url, SecretsPassing, UsesRef,
};
use wrkflw::step_exec::ContainerOutput;
use wrkflw::template::{template_parts, TemplatePart};
use wrkflw::steps::{extract_language_info, format_annotation_location, JobStatus, StepResult, StepStatus};
use wrkflw::strmap::StrMap;

fn s(x: &str) -> String {
    x.to_string()
}

fn pairs(p: &[(&str, &str)]) -> Vec<(String, String)> {
    p.iter().map(|(a, b)| (s(a), s(b))).collect()
}

fn job_result(name: &str, status: JobStatus) -> JobResult {
    JobResult {
        name: s(name),
        canonical_name: s(name),
        status,
        steps: vec![],
        logs: String::new(),
        outputs: StrMap::new(),
    }
}

#[test]
fn matrix_chunks_cover_combinations_in_order() {
    assert_eq!(matrix_chunks(5, 2), vec![(0, 2), (2, 4), (4, 5)]);
    assert_eq!(matrix_chunks(4, 4), vec![(0, 4)]);
    assert_eq!(matrix_chunks(3, 10), vec![(0, 3)]);
    assert!(matrix_chunks(0, 3).is_empty());
}

#[test]
fn matrix_run_fail_fast_skips_after_failure() {
    let mut run = MatrixRun::new(true);
    assert!(!run.skips_next_chunk());
    assert!(run.record(Ok(job_result("a", JobStatus::Success))).is_none());
    assert!(!run.skips_next_chunk());
    assert!(run.record(Ok(job_result("b", JobStatus::Failure))).is_none());
    assert!(run.any_failed);
    assert!(run.skips_next_chunk());
    run.skip(s("test (os: linux)"), "test");
    assert_eq!(run.results.len(), 3);
    let last = &run.results[2];
    assert_eq!(last.status, JobStatus::Skipped);
    assert_eq!(last.name, "test (os: linux)");
    assert_eq!(last.canonical_name, "test");
    assert_eq!(last.logs, "Job skipped due to previous matrix job failure");
}

#[test]
fn matrix_run_error_stops_only_under_fail_fast() {
    let mut fast = MatrixRun::new(true);
    let stop = fast.record(Err(ExecutionError::Execution(s("boom"))));
    assert!(matches!(stop, Some(ExecutionError::Execution(ref m)) if m == "boom"));
    assert!(fast.any_failed);
    assert!(fast.results.is_empty());

    let mut slow = MatrixRun::new(false);
    assert!(slow.record(Err(ExecutionError::Execution(s("boom")))).is_none());
    assert!(slow.any_failed);
    assert!(!slow.skips_next_chunk());
}

#[test]
fn effective_runtime_falls_back_to_emulation() {
    assert_eq!(effective_runtime(RuntimeType::Docker, true, true), RuntimeType::Docker);
    assert_eq!(effective_runtime(RuntimeType::Docker, false, true), RuntimeType::Emulation);
    assert_eq!(effective_runtime(RuntimeType::Podman, true, false), RuntimeType::Emulation);
    assert_eq!(effective_runtime(RuntimeType::SecureEmulation, false, false), RuntimeType::SecureEmulation);
}

#[test]
fn clone_plan_for_branch_and_sha() {
    let branch = clone_plan("https://github.com/actions/checkout", "v4", "/tmp/a");
    assert_eq!(
        branch,
        vec![vec![
            s("-c"),
            s("core.hooksPath=/dev/null"),
            s("clone"),
            s("--depth"),
            s("1"),
            s("--single-branch"),
            s("--branch"),
            s("v4"),
            s("--"),
            s("https://github.com/actions/checkout"),
            s("/tmp/a"),
        ]]
    );
    let sha = "0123456789abcdef0123456789abcdef01234567";
    let plan = clone_plan("https://x/y", sha, "/t");
    assert_eq!(plan.len(), 3);
    assert_eq!(plan[0], vec![s("-c"), s("core.hooksPath=/dev/null"), s("init"), s("/t")]);
    assert_eq!(plan[1][5..], [s("--depth"), s("1"), s("--"), s("https://x/y"), s(sha)]);
    assert_eq!(plan[2][4..], [s("checkout"), s("FETCH_HEAD")]);
}

#[test]
fn docker_plan_for_plain_windows_and_macos_images() {
    let cmd = vec![s("echo"), s("hi")];
    let env = pairs(&[("A", "1")]);
    let vols = pairs(&[("/h", "/c")]);
    let plain = docker_container_plan("ubuntu:22.04", &cmd, &env, "/w", &vols);
    assert_eq!(plain.env, vec![s("A=1")]);
    assert_eq!(plain.binds, vec![s("/h:/c")]);
    assert_eq!(plain.cmd, cmd);
    assert_eq!(plain.working_dir, "/w");
    assert!(plain.platform.is_none() && !plain.process_isolation && plain.user.is_none());
    assert!(plain.entrypoint.is_none() && plain.platform_label.is_none());

    let win = docker_container_plan("mcr.microsoft.com/windows/servercore:ltsc2022", &cmd, &env, "/w", &vols);
    assert_eq!(win.platform.as_deref(), Some("windows"));
    assert!(win.process_isolation);
    assert_eq!(win.user.as_deref(), Some("ContainerAdministrator"));

    let mac = docker_container_plan("catthehacker/ubuntu:act-latest", &cmd, &env, "/w", &vols);
    assert_eq!(mac.env.len(), 7);
    assert_eq!(mac.env[1], "RUNNER_OS=macOS");
    assert_eq!(mac.entrypoint, Some(vec![s("bash"), s("-l"), s("-c")]));
    assert_eq!(mac.platform_label.as_deref(), Some("macos"));
}

#[test]
fn join_pairs_and_container_removal() {
    assert_eq!(join_pairs(&pairs(&[("a", "b"), ("c", "")]), "="), vec![s("a=b"), s("c=")]);
    assert!(removes_container(0, true));
    assert!(!removes_container(1, true));
    assert!(removes_container(1, false));
}

#[test]
fn podman_run_args_and_cleanup() {
    let rt = PodmanRuntime::new_unchecked(false);
    let args = rt.run_args(
        "wrkflw-1",
        "/github/workspace",
        "wrkflw-python-3.11",
        "wrkflw-",
        &pairs(&[("K", "V")]),
        &pairs(&[("/h", "/c")]),
        Some("sh"),
        &vec![s("-c"), s("true")],
    );
    assert_eq!(
        args,
        vec![
            s("run"),
            s("--rm"),
            s("--name"),
            s("wrkflw-1"),
            s("-w"),
            s("/github/workspace"),
            s("--pull=never"),
            s("-e"),
            s("K=V"),
            s("-v"),
            s("/h:/c"),
            s("--entrypoint"),
            s("sh"),
            s("wrkflw-python-3.11"),
            s("-c"),
            s("true"),
        ]
    );
    assert_eq!(rt.cleanup_after(Some(1)), PodmanCleanup::Nothing);

    let keep = PodmanRuntime::new_unchecked(true);
    let args = keep.run_args("n", "/w", "alpine", "wrkflw-", &vec![], &vec![], Some(""), &vec![]);
    assert_eq!(args, vec![s("run"), s("--name"), s("n"), s("-w"), s("/w"), s("alpine")]);
    assert_eq!(keep.cleanup_after(Some(0)), PodmanCleanup::Remove);
    assert_eq!(keep.cleanup_after(Some(2)), PodmanCleanup::Preserve);
    assert_eq!(keep.cleanup_after(None), PodmanCleanup::ForceRemove);
}

#[test]
fn composite_inputs_take_with_values_then_defaults() {
    let mut job_env = StrMap::new();
    job_env.insert(s("CI"), s("true"));
    let inputs = vec![
        CompositeInput { name: s("who"), default: s("world") },
        CompositeInput { name: s("greeting"), default: s("hello") },
    ];
    let mut with = StrMap::new();
    with.insert(s("who"), s("verus"));
    let env = composite_input_env(&job_env, &inputs, Some(&with));
    assert_eq!(env.get("CI").map(|v| v.as_str()), Some("true"));
    assert_eq!(env.get("INPUT_WHO").map(|v| v.as_str()), Some("verus"));
    assert_eq!(env.get("INPUT_GREETING").map(|v| v.as_str()), Some("hello"));
    let env = composite_input_env(&job_env, &inputs, None);
    assert_eq!(env.get("INPUT_WHO").map(|v| v.as_str()), Some("world"));
}

#[test]
fn composite_run_records_and_reports() {
    let mut run = CompositeRun::new();
    let ok = StepResult::new(s("a"), StepStatus::Success, s("done"));
    assert!(!run.record(0, Some("first"), &ok));
    assert_eq!(run.lines, vec![s("Step 1: done")]);
    assert_eq!(run.job_status, "success");
    let quiet = run.succeeded(None, false, "./act", None, None);
    assert_eq!(quiet.name, "Composite Action");
    assert_eq!(quiet.status, StepStatus::Success);
    assert_eq!(quiet.output, "Executed composite action with 1 steps");
    let verbose = run.succeeded(Some(s("Build")), true, "./act", Some("My action"), None);
    assert_eq!(
        verbose.output,
        "Executed composite action from: ./act\n\nAction name: My action\n\nStep outputs:\nStep 1: done\n"
    );
    let bad = StepResult::new(s("b"), StepStatus::Failure, s("oops"));
    assert!(run.record(1, None, &bad));
    assert_eq!(run.job_status, "failure");
    let failed = run.failed(None);
    assert_eq!(failed.status, StepStatus::Failure);
    assert_eq!(failed.output, "Step 1: done\nStep 2: oops");
}

#[test]
fn github_output_entries() {
    assert_eq!(github_output_entry("k", "v"), "k=v\n");
    let multi = github_output_entry("k", "a\nb");
    assert_eq!(multi, "k<<ghadelimiter\na\nb\nghadelimiter\n");
    let clash = github_output_entry("k", "ghadelimiter\nx\n");
    assert_eq!(clash, "k<<ghadelimiter_1\nghadelimiter\nx\nghadelimiter_1\n");
}

#[test]
fn language_dockerfiles_and_tags() {
    let py = language_dockerfile("python", Some("3.12"), Some(&vec![s("numpy")])).unwrap();
    assert_eq!(
        py,
        "FROM python:3.12\n\nRUN apt-get update && apt-get install -y --no-install-recommends \\\n    build-essential \\\n    && rm -rf /var/lib/apt/lists/*\nRUN pip install numpy\n"
    );
    let java = language_dockerfile("java", None, Some(&vec![s("ignored")])).unwrap();
    assert!(java.starts_with("FROM eclipse-temurin:17-jdk\n\n"));
    assert!(!java.contains("ignored"));
    let dotnet = language_dockerfile("dotnet", None, None).unwrap();
    assert_eq!(dotnet, "FROM mcr.microsoft.com/dotnet/sdk:7.0\n\n");
    assert_eq!(language_dockerfile("cobol", None, None), Err(s("Unsupported language: cobol")));
    assert_eq!(language_image_tag("node", Some("18")), "wrkflw-node-18");
    assert_eq!(language_image_tag("go", None), "wrkflw-go-latest");
}

#[test]
fn action_input_lists_and_reports() {
    assert_eq!(input_lines("  a \n\n b\n"), vec![s("a"), s("b")]);
    assert!(input_lines("").is_empty());
    let req = cache_request(Some("k1"), Some("~/.cargo\ntarget\n"), Some("k-\n")).ok().unwrap();
    assert_eq!(req.key, "k1");
    assert_eq!(req.paths, vec![s("~/.cargo"), s("target")]);
    assert_eq!(req.restore_keys, vec![s("k-")]);
    assert_eq!(
        cache_request(Some("k1"), Some("  \n"), None).err(),
        Some(s("Required inputs 'key' and 'path' not provided for actions/cache"))
    );
    assert!(cache_request(None, Some("p"), None).is_err());
    assert_eq!(cache_report(Some("k0"), "k1"), "Cache restored (key: k0)");
    assert_eq!(cache_report(None, "k1"), "Cache miss for key 'k1'. Save deferred to end of job.");
    assert_eq!(cache_hit_line(true), "cache-hit=true\n");
    assert_eq!(upload_request(None, Some("dist/")), Ok((s("artifact"), s("dist/"))));
    assert_eq!(upload_request(Some("x"), None), Err(s("Required input 'path' not provided for upload-artifact")));
    assert_eq!(upload_report("x", 3), "Uploaded artifact 'x': 3 file(s)");
    assert_eq!(download_report("x", 12), "Downloaded artifact 'x': 12 file(s)");
    assert_eq!(download_all_report(2, 10), "Downloaded 2 artifact(s), 10 file(s) total");
}

#[test]
fn matrix_context_variables() {
    let mut env = StrMap::new();
    add_matrix_context(&mut env, &pairs(&[("os", "ubuntu"), ("node-version", "18")]), Some("{\"os\":\"ubuntu\"}"));
    assert_eq!(env.get("MATRIX_OS").map(|v| v.as_str()), Some("ubuntu"));
    assert_eq!(env.get("MATRIX_NODE-VERSION").map(|v| v.as_str()), Some("18"));
    assert_eq!(env.get("MATRIX_CONTEXT").map(|v| v.as_str()), Some("{\"os\":\"ubuntu\"}"));
    let mut plain = StrMap::new();
    add_matrix_context(&mut plain, &pairs(&[("x", "1")]), None);
    assert!(plain.get("MATRIX_CONTEXT").is_none());
    assert_eq!(plain.len(), 1);
}

#[test]
fn copied_file_names() {
    assert!(is_copied_name("src"));
    assert!(is_copied_name(".github"));
    assert!(is_copied_name(".gitignore"));
    assert!(is_copied_name(".env.local"));
    assert!(!is_copied_name(".git"));
    assert!(!is_copied_name(".cache"));
}

#[test]
fn uses_references_local_and_remote() {
    assert!(matches!(parse_uses_ref("./.github/workflows/build.yml"), Ok(UsesRef::LocalPath(p)) if p == "./.github/workflows/build.yml"));
    assert!(matches!(parse_uses_ref("/abs/wf.yml"), Ok(UsesRef::LocalPath(_))));
    match parse_uses_ref("octo/tools/.github/workflows/ci.yml@v2") {
        Ok(UsesRef::Remote { owner, repo, path, git_ref }) => {
            assert_eq!(owner, "octo");
            assert_eq!(repo, "tools");
            assert_eq!(path, ".github/workflows/ci.yml");
            assert_eq!(git_ref, "v2");
        }
        _ => panic!("expected a remote reference"),
    }
    for bad in ["octo/tools@v1", "octo/tools/ci.yml", "a/b/c@d@e", "octo//ci.yml@v1", "octo/tools/@v1"] {
        match parse_uses_ref(bad) {
            Err(m) => assert_eq!(m, format!("Invalid reusable workflow reference: {}", bad)),
            Ok(_) => panic!("{} should be refused", bad),
        }
    }
    assert!(matches!(parse_uses_ref("o/r/p@"), Ok(UsesRef::Remote { git_ref, .. }) if git_ref.is_empty()));
    assert_eq!(remote_repo_url("octo", "tools"), "https://github.com/octo/tools.git");
}

#[test]
fn called_workflow_environment() {
    let mut env = StrMap::new();
    env.insert(s("GITHUB_SHA"), s("abc"));
    let mut with = StrMap::new();
    with.insert(s("target"), s("prod"));
    let mut parent = StrMap::new();
    parent.insert(s("token"), s("t0"));
    let inherit = called_workflow_env(&env, Some(&with), Some(&SecretsPassing::Inherit), &parent);
    assert_eq!(inherit.get("GITHUB_SHA").map(|v| v.as_str()), Some("abc"));
    assert_eq!(inherit.get("INPUT_TARGET").map(|v| v.as_str()), Some("prod"));
    assert_eq!(inherit.get("SECRET_TOKEN").map(|v| v.as_str()), Some("t0"));
    let explicit = SecretsPassing::Explicit(pairs(&[("api_key", "k1")]));
    let env2 = called_workflow_env(&env, None, Some(&explicit), &parent);
    assert_eq!(env2.get("SECRET_API_KEY").map(|v| v.as_str()), Some("k1"));
    assert!(env2.get("SECRET_TOKEN").is_none());
    assert_eq!(env2.len(), 2);
    let env3 = called_workflow_env(&env, None, None, &parent);
    assert_eq!(env3.len(), 1);
}

#[test]
fn called_workflow_summary_result() {
    let mut run = WorkflowRun::new();
    let mut build = job_result("build", JobStatus::Success);
    build.outputs.insert(s("version"), s("1.2"));
    build.outputs.insert(s("empty"), s(""));
    let mut deploy = job_result("deploy", JobStatus::Failure);
    deploy.outputs.insert(s("version"), s("1.3"));
    run.record_batch(vec![build]);
    run.record_batch(vec![deploy]);
    let r = called_workflow_result("call", "./wf.yml", "/repo/wf.yml", &run);
    assert_eq!(r.name, "call");
    assert_eq!(r.canonical_name, "call");
    assert_eq!(r.status, JobStatus::Failure);
    assert_eq!(r.logs, "Called workflow: /repo/wf.yml\n- build: Success\n- deploy: Failure\n");
    assert_eq!(r.steps.len(), 1);
    assert_eq!(r.steps[0].name, "Run reusable workflow: ./wf.yml");
    assert_eq!(r.steps[0].status, StepStatus::Failure);
    assert_eq!(r.steps[0].output, r.logs);
    assert_eq!(r.outputs.get("version").map(|v| v.as_str()), Some("1.3"));
    assert!(r.outputs.get("empty").is_none());

    let mut ok = WorkflowRun::new();
    ok.record_batch(vec![job_result("only", JobStatus::Success)]);
    let r = called_workflow_result("c", "o/r/w.yml@v1", "w.yml", &ok);
    assert_eq!(r.status, JobStatus::Success);
    assert_eq!(r.steps[0].status, StepStatus::Success);
}

fn out(stdout: &str, stderr: &str, code: i32) -> ContainerOutput {
    ContainerOutput { stdout: s(stdout), stderr: s(stderr), exit_code: code }
}

#[test]
fn checkout_reports() {
    let quiet = checkout_result(s("Checkout"), false, "/ws", Some(3));
    assert_eq!(quiet.status, StepStatus::Success);
    assert_eq!(quiet.output, "Emulated checkout: Copied current directory to workspace");
    let verbose = checkout_result(s("Checkout"), true, "/ws", Some(3));
    assert_eq!(
        verbose.output,
        "Emulated checkout: Copied current directory to workspace\n\nCheckout Details:\n  - Source: Local directory\n  - Destination: /ws\n\nCopied 3 top-level items to workspace\n"
    );
    let unlisted = checkout_result(s("Checkout"), true, "/ws", None);
    assert!(unlisted.output.ends_with("  - Destination: /ws\n"));
}

#[test]
fn docker_step_with_overrides() {
    let mut env = StrMap::new();
    let mut with = StrMap::new();
    with.insert(s("args"), s("--flag 'two words'"));
    with.insert(s("entrypoint"), s("/bin/sh"));
    let call = docker_step_call(&mut env, Some(&with), "o/a@v1", Some(s("/entry")), vec![s("x")]).ok().unwrap();
    assert_eq!(call.args, vec![s("--flag"), s("two words")]);
    assert_eq!(call.entrypoint.as_deref(), Some("/bin/sh"));
    assert_eq!(env.get("INPUT_ARGS").map(|v| v.as_str()), Some("--flag 'two words'"));
    assert_eq!(env.get("INPUT_ENTRYPOINT").map(|v| v.as_str()), Some("/bin/sh"));

    let mut env = StrMap::new();
    let call = docker_step_call(&mut env, None, "o/a@v1", Some(s("/entry")), vec![s("x")]).ok().unwrap();
    assert_eq!(call.args, vec![s("x")]);
    assert_eq!(call.entrypoint.as_deref(), Some("/entry"));
    assert_eq!(env.len(), 0);

    let mut empty_args = StrMap::new();
    empty_args.insert(s("args"), s(""));
    let mut env = StrMap::new();
    let call = docker_step_call(&mut env, Some(&empty_args), "o/a@v1", None, vec![s("x")]).ok().unwrap();
    assert!(call.args.is_empty());

    let mut bad = StrMap::new();
    bad.insert(s("args"), s("'open"));
    let mut env = StrMap::new();
    let err = docker_step_call(&mut env, Some(&bad), "o/a@v1", None, vec![]).err().unwrap();
    assert_eq!(err, "Failed to parse 'with.args' for action 'o/a@v1': unmatched quote in \"'open\"");
}

#[test]
fn step_inputs_are_uppercased() {
    let mut env = StrMap::new();
    let mut with = StrMap::new();
    with.insert(s("node-version"), s("20"));
    add_step_inputs(&mut env, Some(&with));
    assert_eq!(env.get("INPUT_NODE-VERSION").map(|v| v.as_str()), Some("20"));
    add_step_inputs(&mut env, None);
    assert_eq!(env.len(), 1);
}

#[test]
fn container_and_image_action_results() {
    let ok = container_step_result(s("a"), &out("hi", "", 0));
    assert_eq!(ok.status, StepStatus::Success);
    assert_eq!(ok.output, "Exit code: 0\nhi\n");
    let bad = container_step_result(s("a"), &out("", "boom", -2));
    assert_eq!(bad.status, StepStatus::Failure);
    assert_eq!(bad.output, "Exit code: -2\n\nboom");

    let mut env = StrMap::new();
    env.insert(s("GITHUB_SHA"), s("abc"));
    env.insert(s("INPUT_TOKEN"), s("secret"));
    env.insert(s("HOME"), s("/root"));
    env.insert(s("RUSTFLAGS"), s("-D warnings"));
    let cmd = vec![s("sh"), s("-c"), s("cargo build")];
    let failed = image_action_result(s("r"), "actions-rs/cargo@v1", &cmd, &env, &out("o", "e", 101));
    assert_eq!(failed.status, StepStatus::Failure);
    assert_eq!(
        failed.output,
        "o\ne\n\n\n\u{2716} Command failed with exit code: 101\nCommand: sh -c cargo build\n\nEnvironment:\n  GITHUB_SHA: abc\n  INPUT_TOKEN: ***\n  RUSTFLAGS: -D warnings\n\nDetailed output:\noe"
    );
    let other = image_action_result(s("n"), "actions/setup-node@v4", &cmd, &env, &out("o", "e", 1));
    assert_eq!(other.status, StepStatus::Failure);
    assert_eq!(other.output, "Exit code: 1\no\ne");
    let fine = image_action_result(s("r"), "actions-rs/cargo@v1", &cmd, &env, &out("o", "", 0));
    assert_eq!(fine.status, StepStatus::Success);
    assert_eq!(fine.output, "Exit code: 0\no\n");
}

#[test]
fn host_and_rust_results() {
    let ok = host_command_result(s("c"), Ok(out("built", "warn", 0)));
    assert_eq!(ok.status, StepStatus::Success);
    assert_eq!(ok.output, "built\nwarn");
    let failed = host_command_result(s("c"), Ok(out("", "", 3)));
    assert_eq!(failed.status, StepStatus::Failure);
    let unstarted = host_command_result(s("c"), Err(s("no sh")));
    assert_eq!(unstarted.status, StepStatus::Failure);
    assert_eq!(unstarted.output, "Failed to execute command: no sh");
    let rust = system_rust_result(s("t"), "rustc 1.80.0 (abc)\n");
    assert_eq!(rust.status, StepStatus::Success);
    assert_eq!(rust.output, "Using system Rust: rustc 1.80.0 (abc)");
}

#[test]
fn action_message_hiding() {
    let mut env = StrMap::new();
    assert!(!hides_action_messages(&env));
    env.insert(s("WRKFLW_HIDE_ACTION_MESSAGES"), s("false"));
    assert!(!hides_action_messages(&env));
    env.insert(s("WRKFLW_HIDE_ACTION_MESSAGES"), s("true"));
    assert!(hides_action_messages(&env));
}

#[test]
fn failure_flag_follows_recorded_jobs() {
    let mut run = WorkflowRun::new();
    assert!(!run.has_failures);
    run.record_batch(vec![job_result("a", JobStatus::Success), job_result("b", JobStatus::Skipped)]);
    assert_eq!(run.has_failures, run.results.iter().any(|j| j.status == JobStatus::Failure));
    run.record_batch(vec![job_result("c", JobStatus::Failure)]);
    assert_eq!(run.has_failures, run.results.iter().any(|j| j.status == JobStatus::Failure));
    assert!(run.has_failures);
    run.record_batch(vec![job_result("d", JobStatus::Success)]);
    assert!(run.has_failures);
}

#[test]
fn annotation_locations() {
    assert_eq!(format_annotation_location(Some("a.rs"), Some(3), Some(7)), "a.rs:3:7: ");
    assert_eq!(format_annotation_location(Some("a.rs"), Some(3), None), "a.rs:3: ");
    assert_eq!(format_annotation_location(Some("a.rs"), None, None), "a.rs: ");
    assert_eq!(format_annotation_location(Some("a.rs"), None, Some(7)), "");
    assert_eq!(format_annotation_location(None, Some(3), Some(7)), "");
}

#[test]
fn language_of_images() {
    assert_eq!(extract_language_info("python:3.12"), Some(("python", s("3.12"))));
    assert_eq!(extract_language_info("Python:3.11"), Some(("python", s("3.11"))));
    assert_eq!(extract_language_info("node:20-slim"), Some(("node", s("20-slim"))));
    assert_eq!(extract_language_info("eclipse-temurin:17-jdk"), Some(("java", s(":17-jdk"))));
    assert_eq!(extract_language_info("golang:1.21"), Some(("go", s(":1.21"))));
    assert_eq!(extract_language_info("mcr.microsoft.com/dotnet/sdk:8.0"), Some(("dotnet", s("8.0"))));
    assert_eq!(extract_language_info("rust:1.80"), Some(("rust", s("1.80"))));
    assert_eq!(extract_language_info("ubuntu:22.04"), None);
}

fn parts(text: &str) -> Vec<(bool, String)> {
    template_parts(text)
        .into_iter()
        .map(|p| match p {
            TemplatePart::Text(t) => (false, t),
            TemplatePart::Expr(e) => (true, e),
        })
        .collect()
}

#[test]
fn template_parts_split_expressions() {
    assert_eq!(parts("plain"), vec![(false, s("plain"))]);
    assert_eq!(
        parts("a ${{ env.X }} b ${{y}}"),
        vec![(false, s("a ")), (true, s(" env.X ")), (false, s(" b ")), (true, s("y")), (false, s(""))]
    );
    assert_eq!(parts("x ${{ open"), vec![(false, s("x ${{ open"))]);
    assert_eq!(parts("}} ${{a}}}}"), vec![(false, s("}} ")), (true, s("a")), (false, s("}}"))]);
    assert_eq!(parts(""), vec![(false, s(""))]);
}
