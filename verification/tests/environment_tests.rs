use wrkflw::environment::{extract_repo_from_url, get_ref_name, get_ref_type, get_repository_owner};

#[test]
fn ref_name_strips_heads_prefix() {
    assert_eq!(get_ref_name("refs/heads/main"), "main");
    assert_eq!(get_ref_name("refs/heads/feature/foo"), "feature/foo");
}

#[test]
fn ref_name_strips_tags_prefix() {
    assert_eq!(get_ref_name("refs/tags/v1.0.0"), "v1.0.0");
}

#[test]
fn ref_name_returns_input_for_unknown_prefix() {
    assert_eq!(get_ref_name("some/other/ref"), "some/other/ref");
}

#[test]
fn ref_type_detects_tag() {
    assert_eq!(get_ref_type("refs/tags/v1.0.0"), "tag");
}

#[test]
fn ref_type_defaults_to_branch() {
    assert_eq!(get_ref_type("refs/heads/main"), "branch");
    assert_eq!(get_ref_type("something-else"), "branch");
}

#[test]
fn repository_owner_extracts_owner() {
    assert_eq!(get_repository_owner("octocat/hello-world"), "octocat");
}

#[test]
fn repository_owner_handles_no_slash() {
    assert_eq!(get_repository_owner("myrepo"), "myrepo");
}

#[test]
fn repository_owner_handles_empty() {
    assert_eq!(get_repository_owner(""), "");
}

#[test]
fn extract_repo_from_ssh_url() {
    assert_eq!(extract_repo_from_url("git@github.com:owner/repo.git"), Some("owner/repo".to_string()));
}

#[test]
fn extract_repo_from_https_url() {
    assert_eq!(extract_repo_from_url("https://github.com/owner/repo.git"), Some("owner/repo".to_string()));
}

#[test]
fn extract_repo_from_invalid_url() {
    assert_eq!(extract_repo_from_url("not-a-url"), None);
}
