use std::collections::HashSet;
use wrkflw::dependency::{collect_transitive_deps, filter_plan_to_job, filter_plan_to_job_by_stage};
use wrkflw::strmap::StrMap;
use wrkflw::workflow::Job;

fn job_with_needs(needs: Option<Vec<&str>>) -> Job {
    Job {
        runs_on: None,
        needs: needs.map(|v| v.into_iter().map(String::from).collect()),
        container: None,
        steps: vec![],
        env: StrMap::new(),
        strategy: None,
        services: StrMap::new(),
        if_condition: None,
        outputs: None,
        permissions: None,
        uses: None,
        with: None,
        defaults: None,
    }
}

fn jobs_of(entries: Vec<(&str, Option<Vec<&str>>)>) -> StrMap<Job> {
    let mut jobs = StrMap::new();
    for (name, needs) in entries {
        jobs.insert(name.to_string(), job_with_needs(needs));
    }
    jobs
}

fn set_of(names: &[&str]) -> HashSet<String> {
    names.iter().map(|s| s.to_string()).collect()
}

fn plan_of(batches: &[&[&str]]) -> Vec<Vec<String>> {
    batches.iter().map(|b| b.iter().map(|s| s.to_string()).collect()).collect()
}

#[test]
fn test_collect_transitive_deps_no_deps() {
    let jobs = jobs_of(vec![("build", None), ("test", None)]);
    let deps: HashSet<String> = collect_transitive_deps("build", &jobs).into_iter().collect();
    assert_eq!(deps, set_of(&["build"]));
}

#[test]
fn test_collect_transitive_deps_linear_chain() {
    let jobs = jobs_of(vec![("setup", None), ("build", Some(vec!["setup"])), ("deploy", Some(vec!["build"]))]);
    let deps: HashSet<String> = collect_transitive_deps("deploy", &jobs).into_iter().collect();
    assert_eq!(deps, set_of(&["setup", "build", "deploy"]));
}

#[test]
fn test_collect_transitive_deps_diamond() {
    let jobs = jobs_of(vec![
        ("a", None),
        ("b", Some(vec!["a"])),
        ("c", Some(vec!["a"])),
        ("d", Some(vec!["b", "c"])),
    ]);
    let deps: HashSet<String> = collect_transitive_deps("d", &jobs).into_iter().collect();
    assert_eq!(deps, set_of(&["a", "b", "c", "d"]));
}

#[test]
fn test_collect_transitive_deps_partial_graph() {
    let jobs = jobs_of(vec![("a", None), ("b", Some(vec!["a"])), ("unrelated", None)]);
    let deps: HashSet<String> = collect_transitive_deps("b", &jobs).into_iter().collect();
    assert_eq!(deps, set_of(&["a", "b"]));
    assert!(!deps.contains("unrelated"));
}

#[test]
fn test_filter_plan_to_job_not_found() {
    let jobs = StrMap::new();
    let plan = plan_of(&[&["a"]]);

    let result = filter_plan_to_job(plan, "missing", &jobs, "workflow");
    assert!(result.is_err());
    let err = result.unwrap_err();
    assert!(err.contains("missing"));
    assert!(err.contains("workflow"));
}

#[test]
fn test_filter_plan_to_job_not_found_lists_available() {
    let jobs = jobs_of(vec![("build", None), ("test", None)]);
    let plan = plan_of(&[&["build", "test"]]);

    let err = filter_plan_to_job(plan, "deploy", &jobs, "pipeline").unwrap_err();
    assert!(err.contains("build"));
    assert!(err.contains("test"));
    assert!(err.contains("pipeline"));
}

#[test]
fn test_filter_plan_to_job_with_deps() {
    let jobs = jobs_of(vec![
        ("a", None),
        ("x", None),
        ("b", Some(vec!["a"])),
        ("y", Some(vec!["x"])),
        ("c", Some(vec!["b"])),
    ]);
    let plan = plan_of(&[&["a", "x"], &["b", "y"], &["c"]]);

    let filtered = filter_plan_to_job(plan, "c", &jobs, "workflow").unwrap();
    assert_eq!(filtered, plan_of(&[&["a"], &["b"], &["c"]]));
}

#[test]
fn test_filter_plan_to_job_no_deps() {
    let jobs = jobs_of(vec![("a", None), ("b", None)]);
    let plan = plan_of(&[&["a", "b"]]);

    let filtered = filter_plan_to_job(plan, "a", &jobs, "workflow").unwrap();
    assert_eq!(filtered, plan_of(&[&["a"]]));
}

#[test]
fn test_filter_plan_to_job_removes_empty_batches() {
    let jobs = jobs_of(vec![("a", None), ("x", None), ("y", Some(vec!["x"]))]);
    let plan = plan_of(&[&["a", "x"], &["y"]]);

    let filtered = filter_plan_to_job(plan, "a", &jobs, "workflow").unwrap();
    assert_eq!(filtered, plan_of(&[&["a"]]));
}

#[test]
fn test_filter_by_stage_not_found() {
    let jobs = StrMap::new();
    let plan = plan_of(&[&["a"]]);

    let result = filter_plan_to_job_by_stage(plan, "missing", &jobs, "pipeline");
    assert!(result.is_err());
    let err = result.unwrap_err();
    assert!(err.contains("missing"));
    assert!(err.contains("pipeline"));
}

#[test]
fn test_filter_by_stage_target_in_first_stage() {
    let jobs = jobs_of(vec![("build", None), ("lint", None), ("test", None), ("deploy", None)]);
    let plan = plan_of(&[&["build", "lint"], &["test"], &["deploy"]]);

    let filtered = filter_plan_to_job_by_stage(plan, "build", &jobs, "pipeline").unwrap();
    assert_eq!(filtered, plan_of(&[&["build"]]));
}

#[test]
fn test_filter_by_stage_target_in_middle_stage() {
    let jobs = jobs_of(vec![("build", None), ("lint", None), ("test", None), ("deploy", None)]);
    let plan = plan_of(&[&["build", "lint"], &["test"], &["deploy"]]);

    let filtered = filter_plan_to_job_by_stage(plan, "test", &jobs, "pipeline").unwrap();
    assert_eq!(filtered, plan_of(&[&["build", "lint"], &["test"]]));
}

#[test]
fn test_filter_by_stage_target_in_last_stage() {
    let jobs = jobs_of(vec![("build", None), ("test", None), ("deploy", None)]);
    let plan = plan_of(&[&["build"], &["test"], &["deploy"]]);

    let filtered = filter_plan_to_job_by_stage(plan, "deploy", &jobs, "pipeline").unwrap();
    assert_eq!(filtered, plan_of(&[&["build"], &["test"], &["deploy"]]));
}

#[test]
fn test_filter_by_stage_filters_peers_in_target_stage() {
    let jobs = jobs_of(vec![("a", None), ("b", None), ("c", None)]);
    let plan = plan_of(&[&["a", "b", "c"]]);

    let filtered = filter_plan_to_job_by_stage(plan, "b", &jobs, "pipeline").unwrap();
    assert_eq!(filtered, plan_of(&[&["b"]]));
}

#[test]
fn test_filter_by_stage_drops_later_stages() {
    let jobs = jobs_of(vec![
        ("compile", None),
        ("unit_test", None),
        ("integration_test", None),
        ("deploy_staging", None),
        ("deploy_prod", None),
    ]);
    let plan = plan_of(&[&["compile"], &["unit_test", "integration_test"], &["deploy_staging", "deploy_prod"]]);

    let filtered = filter_plan_to_job_by_stage(plan, "unit_test", &jobs, "pipeline").unwrap();
    assert_eq!(filtered, plan_of(&[&["compile"], &["unit_test"]]));
}
