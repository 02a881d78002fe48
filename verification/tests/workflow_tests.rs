use wrkflw::strmap::StrMap;
use wrkflw::workflow::{ContainerCredentials, WorkflowDefinition};

fn empty_definition() -> WorkflowDefinition {
    WorkflowDefinition {
        name: String::new(),
        on: vec![],
        jobs: StrMap::new(),
        defaults: None,
        env: StrMap::new(),
    }
}

#[test]
fn resolve_action_parses_version() {
    let wd = empty_definition();
    let info = wd.resolve_action("actions/checkout@v4");
    assert_eq!(info.repository, "actions/checkout");
    assert_eq!(info.version, "v4");
    assert!(info.sub_path.is_none());
    assert!(!info.is_docker);
    assert!(!info.is_local);
}

#[test]
fn resolve_action_defaults_version_to_main() {
    let wd = empty_definition();
    let info = wd.resolve_action("owner/repo");
    assert_eq!(info.repository, "owner/repo");
    assert_eq!(info.version, "main");
    assert!(info.sub_path.is_none());
}

#[test]
fn resolve_action_docker_reference() {
    let wd = empty_definition();
    let info = wd.resolve_action("docker://alpine:3.18");
    assert_eq!(info.repository, "docker://alpine:3.18");
    assert_eq!(info.version, "");
    assert!(info.is_docker);
    assert!(!info.is_local);
}

#[test]
fn resolve_action_local_path() {
    let wd = empty_definition();
    let info = wd.resolve_action("./my-action");
    assert_eq!(info.repository, "./my-action");
    assert_eq!(info.version, "");
    assert!(!info.is_docker);
    assert!(info.is_local);
}

#[test]
fn resolve_action_docker_with_digest() {
    let wd = empty_definition();
    let info = wd.resolve_action("docker://alpine@sha256:abcdef1234567890");
    assert_eq!(info.repository, "docker://alpine@sha256:abcdef1234567890");
    assert_eq!(info.version, "");
    assert!(info.is_docker);
    assert!(!info.is_local);
}

#[test]
fn resolve_action_with_sha_version() {
    let wd = empty_definition();
    let info = wd.resolve_action("actions/checkout@a81bbbf8298c0fa03ea29cdc473d45769f953675");
    assert_eq!(info.repository, "actions/checkout");
    assert_eq!(info.version, "a81bbbf8298c0fa03ea29cdc473d45769f953675");
    assert!(info.sub_path.is_none());
}

#[test]
fn resolve_action_with_sub_path() {
    let wd = empty_definition();
    let info = wd.resolve_action("owner/repo/path/to/action@v2");
    assert_eq!(info.repository, "owner/repo");
    assert_eq!(info.version, "v2");
    assert_eq!(info.sub_path.as_deref(), Some("path/to/action"));
    assert!(!info.is_docker);
    assert!(!info.is_local);
}

#[test]
fn resolve_action_with_single_sub_path() {
    let wd = empty_definition();
    let info = wd.resolve_action("github/codeql-action/init@v3");
    assert_eq!(info.repository, "github/codeql-action");
    assert_eq!(info.version, "v3");
    assert_eq!(info.sub_path.as_deref(), Some("init"));
}

#[test]
fn container_credentials_serialize_redacts_password() {
    let creds = ContainerCredentials {
        username: Some("user".into()),
        password: Some("super-secret".into()),
    };
    let written = creds.redacted();
    assert_eq!(written.username.as_deref(), Some("user"));
    assert_eq!(written.password.as_deref(), Some("[REDACTED]"));
    assert!(!creds.debug_string().contains("super-secret"));
}

#[test]
fn container_credentials_serialize_null_password() {
    let creds = ContainerCredentials {
        username: Some("user".into()),
        password: None,
    };
    let written = creds.redacted();
    assert_eq!(written.username.as_deref(), Some("user"));
    assert!(written.password.is_none());
}
