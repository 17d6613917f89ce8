use wraut::status::{DBError, ServiceError, ServiceStatus};

#[test]
fn from_error_maps_dedicated_outcomes() {
    assert_eq!(
        ServiceStatus::from_error(ServiceError::Discovery),
        ServiceStatus::DiscoveryFailed
    );
    assert_eq!(
        ServiceStatus::from_error(ServiceError::CloneOrPull),
        ServiceStatus::CloneOrPullFailed
    );
    assert_eq!(ServiceStatus::from_error(ServiceError::Unknown), ServiceStatus::Unknown);
}

#[test]
fn from_error_collapses_command_failures() {
    assert_eq!(
        ServiceStatus::from_error(ServiceError::Command("boom".to_string())),
        ServiceStatus::CommandFailed("boom".to_string())
    );
    assert_eq!(
        ServiceStatus::from_error(ServiceError::Status),
        ServiceStatus::CommandFailed("Command resulted in failure status".to_string())
    );
    assert_eq!(
        ServiceStatus::from_error(ServiceError::Unexpected),
        ServiceStatus::CommandFailed("Command resulted in unexpected string".to_string())
    );
    assert_eq!(
        ServiceStatus::from_error(ServiceError::Parse),
        ServiceStatus::CommandFailed("Failed to parse command output".to_string())
    );
    assert_eq!(
        ServiceStatus::from_error(ServiceError::Start),
        ServiceStatus::CommandFailed("Failed to start Docker service".to_string())
    );
    assert_eq!(
        ServiceStatus::from_error(ServiceError::Stop),
        ServiceStatus::CommandFailed("Failed to stop Docker service".to_string())
    );
    assert_eq!(
        ServiceStatus::from_error(ServiceError::Remove),
        ServiceStatus::CommandFailed("Failed to remove live directory contents".to_string())
    );
    assert_eq!(
        ServiceStatus::from_error(ServiceError::Copy),
        ServiceStatus::CommandFailed("Failed to copy repo contents".to_string())
    );
    assert_eq!(
        ServiceStatus::from_error(ServiceError::Yaml),
        ServiceStatus::CommandFailed("Failed to parse YAML file".to_string())
    );
    assert_eq!(
        ServiceStatus::from_error(ServiceError::Key("services".to_string())),
        ServiceStatus::CommandFailed("Failed to find key 'services'".to_string())
    );
}

#[test]
fn status_labels() {
    assert_eq!(ServiceStatus::Inactive.to_string(), "Inactive");
    assert_eq!(ServiceStatus::Running.to_string(), "Running");
    assert_eq!(ServiceStatus::DiscoveryFailed.to_string(), "Failed to discover service");
    assert_eq!(
        ServiceStatus::CommandFailed("oops".to_string()).to_string(),
        "Failed command | oops"
    );
    assert_eq!(ServiceStatus::CloneOrPullFailed.to_string(), "Failed to clone or pull");
    assert_eq!(ServiceStatus::DeploymentRequested.to_string(), "Deployment requested...");
    assert_eq!(ServiceStatus::Cloning.to_string(), "Cloning repo...");
    assert_eq!(ServiceStatus::Pulling.to_string(), "Pulling repo...");
    assert_eq!(ServiceStatus::Stopping.to_string(), "Stopping service...");
    assert_eq!(ServiceStatus::Starting.to_string(), "Starting service...");
    assert_eq!(ServiceStatus::Copying.to_string(), "Copying repo...");
    assert_eq!(
        ServiceStatus::RewritingConfig.to_string(),
        "Rewriting docker-compose.yml..."
    );
    assert_eq!(ServiceStatus::Unknown.to_string(), "Unknown status");
}

#[test]
fn error_messages() {
    assert_eq!(
        ServiceError::Command("io".to_string()).message(),
        "No response from system command"
    );
    assert_eq!(ServiceError::Status.message(), "System command resulted in failure");
    assert_eq!(
        ServiceError::Unexpected.message(),
        "System command returned unexpected output"
    );
    assert_eq!(ServiceError::Parse.message(), "Failed to parse output string");
    assert_eq!(ServiceError::Unknown.message(), "Error unknown to Service domain");
    assert_eq!(ServiceError::Discovery.message(), "Error in Service discovery in Docker");
    assert_eq!(ServiceError::CloneOrPull.message(), "Error cloning or pulling a repo");
    assert_eq!(ServiceError::Start.message(), "Error starting the Docker service");
    assert_eq!(ServiceError::Stop.message(), "Error stopping the Docker service");
    assert_eq!(
        ServiceError::Remove.message(),
        "Error removing the contents of a directory"
    );
    assert_eq!(ServiceError::Copy.message(), "Error copying the contents of a directory");
    assert_eq!(ServiceError::Yaml.message(), "Error parsing YAML file");
    assert_eq!(ServiceError::Key("x".to_string()).message(), "Error parsing expected key");
    assert_eq!(DBError::Sql("locked".to_string()).message(), "Unable to use database");
}

#[test]
fn duplicate_keeps_payloads() {
    let s = ServiceStatus::CommandFailed("exact text".to_string());
    assert_eq!(s.duplicate(), s);
    let e = ServiceError::Key("labels".to_string());
    assert_eq!(e.duplicate(), e);
}
