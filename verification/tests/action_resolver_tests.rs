use wrkflw::action_resolver::{action_type_of, ActionRuns, ActionType};

fn runs(using: Option<&str>, image: Option<&str>) -> ActionRuns {
    ActionRuns { using: using.map(String::from), image: image.map(String::from) }
}

#[test]
fn test_parse_node_action() {
    let resolved = action_type_of(Some(&runs(Some("node20"), None))).unwrap();
    match resolved {
        ActionType::Node { version } => assert_eq!(version, 20),
        _ => panic!("Expected Node action"),
    }
}

#[test]
fn test_parse_docker_action() {
    let resolved = action_type_of(Some(&runs(Some("docker"), Some("docker://rust:latest")))).unwrap();
    match &resolved {
        ActionType::Docker { image } => assert_eq!(image, "rust:latest"),
        _ => panic!("Expected Docker action"),
    }
}

#[test]
fn test_parse_docker_action_with_dockerfile() {
    let resolved = action_type_of(Some(&runs(Some("docker"), Some("Dockerfile")))).unwrap();
    assert!(matches!(resolved, ActionType::DockerBuild), "Expected DockerBuild");
}

#[test]
fn test_parse_docker_action_with_relative_dockerfile() {
    let resolved = action_type_of(Some(&runs(Some("docker"), Some("./docker/Dockerfile")))).unwrap();
    assert!(matches!(resolved, ActionType::DockerBuild), "Expected DockerBuild");
}

#[test]
fn test_parse_composite_action() {
    let resolved = action_type_of(Some(&runs(Some("composite"), None))).unwrap();
    assert!(matches!(resolved, ActionType::Composite));
}

#[test]
fn test_parse_missing_runs() {
    assert!(action_type_of(None).is_err());
}

#[test]
fn test_parse_node16_action() {
    let resolved = action_type_of(Some(&runs(Some("node16"), None))).unwrap();
    match resolved {
        ActionType::Node { version } => assert_eq!(version, 16),
        _ => panic!("Expected Node 16"),
    }
}

#[test]
fn test_parse_unknown_using_value() {
    let err = action_type_of(Some(&runs(Some("python3"), None))).err().unwrap();
    assert!(err.contains("Unknown runs.using value"));
}

#[test]
fn test_parse_missing_using_field() {
    let err = action_type_of(Some(&runs(None, None))).err().unwrap();
    assert!(err.contains("runs.using"));
}

#[test]
fn test_parse_docker_missing_image() {
    let err = action_type_of(Some(&runs(Some("docker"), None))).err().unwrap();
    assert!(err.contains("runs.image"));
}

#[test]
fn test_parse_docker_with_docker_prefix_and_dockerfile() {
    let resolved = action_type_of(Some(&runs(Some("docker"), Some("docker://Dockerfile")))).unwrap();
    assert!(matches!(resolved, ActionType::DockerBuild), "docker://Dockerfile should be DockerBuild");
}
