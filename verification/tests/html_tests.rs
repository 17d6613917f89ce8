use wraut::docker::DockerServiceEntry;
use wraut::html::{
    app_status_class, app_status_name, list, service, service_class_name, service_status_name,
    unknown,
};
use wraut::service::Service;
use wraut::status::{DBError, ServiceError, ServiceStatus};

fn web(id: i64) -> Service {
    Service {
        id,
        name: "web".to_string(),
        compose_name: "web".to_string(),
        repo_url: "https://example.invalid/repo.git".to_string(),
        access_url: "https://web.example.invalid".to_string(),
        active: true,
        cred_file: None,
        use_key: false,
    }
}

fn running_entry() -> DockerServiceEntry {
    DockerServiceEntry {
        id: "c1".to_string(),
        image: "img".to_string(),
        names: "web".to_string(),
        labels: "|||web|||".to_string(),
        state: "running".to_string(),
    }
}

#[test]
fn chip_classes_per_status() {
    assert_eq!(app_status_class(&ServiceStatus::Unknown), "unknown");
    assert_eq!(app_status_class(&ServiceStatus::Running), "success");
    assert_eq!(app_status_class(&ServiceStatus::Inactive), "success");
    assert_eq!(app_status_class(&ServiceStatus::DiscoveryFailed), "error");
    assert_eq!(
        app_status_class(&ServiceStatus::CommandFailed("x".to_string())),
        "error"
    );
    assert_eq!(app_status_class(&ServiceStatus::CloneOrPullFailed), "error");
    assert_eq!(app_status_class(&ServiceStatus::Cloning), "warning");
    assert_eq!(app_status_class(&ServiceStatus::RewritingConfig), "warning");
}

#[test]
fn chip_names_per_status() {
    assert_eq!(app_status_name(&ServiceStatus::Unknown), "Service unknown");
    assert_eq!(app_status_name(&ServiceStatus::DiscoveryFailed), "Service failure");
    assert_eq!(app_status_name(&ServiceStatus::Pulling), "Service pending...");
    assert_eq!(app_status_name(&ServiceStatus::Running), "Connected");
    assert_eq!(app_status_name(&ServiceStatus::Inactive), "Connected");
}

#[test]
fn service_cell_classes_per_status() {
    assert_eq!(service_class_name(&ServiceStatus::Inactive), "unknown");
    assert_eq!(service_class_name(&ServiceStatus::Running), "success");
    assert_eq!(service_class_name(&ServiceStatus::CloneOrPullFailed), "error");
    assert_eq!(service_class_name(&ServiceStatus::Starting), "warning");
    assert_eq!(
        service_status_name(&ServiceStatus::Stopping),
        "Stopping service..."
    );
}

#[test]
fn service_fragment_targets_the_status_cell() {
    let fragment = service(Ok(web(12)), ServiceStatus::Cloning);
    assert_eq!(fragment.status_class, "warning");
    assert_eq!(fragment.status_string, "Service pending...");
    assert_eq!(fragment.html_targets.len(), 1);
    let target = &fragment.html_targets[0];
    assert_eq!(target.id, "service-12-status");
    assert_eq!(target.element, "div");
    assert_eq!(target.class, Some("warning".to_string()));
    assert_eq!(target.html_content, "Cloning repo...");
}

#[test]
fn service_fragment_reports_store_failures() {
    let fragment = service(Err(DBError::Sql("locked".to_string())), ServiceStatus::Cloning);
    assert_eq!(fragment.status_class, "error");
    assert_eq!(fragment.status_string, "Unknown service error");
    let target = &fragment.html_targets[0];
    assert_eq!(target.id, "app-message");
    assert_eq!(
        target.html_content,
        "Unable to access service from the database | Unable to use database"
    );
}

#[test]
fn unknown_fragment_carries_the_message() {
    let fragment = unknown("something odd".to_string());
    assert_eq!(fragment.status_class, "error");
    assert_eq!(fragment.status_string, "Unknown error");
    let target = &fragment.html_targets[0];
    assert_eq!(target.id, "app-message");
    assert_eq!(target.element, "div");
    assert_eq!(target.class, Some("error".to_string()));
    assert_eq!(target.html_content, "something odd");
}

#[test]
fn list_fragment_shows_live_statuses() {
    let fragment = list(Ok(vec![web(3)]), Ok(vec![running_entry()]));
    assert_eq!(fragment.status_class, "success");
    assert_eq!(fragment.status_string, "Services found");
    assert_eq!(fragment.html_targets.len(), 1);
    let target = &fragment.html_targets[0];
    assert_eq!(target.id, "services-list");
    assert_eq!(target.element, "table");
    assert_eq!(target.class, None);
    assert!(target.html_content.contains("<th>ID</th>"));
    assert!(target.html_content.contains("<td>3</td>"));
    assert!(target.html_content.contains("<td>web</td>"));
    assert!(target.html_content.contains("<td>https://example.invalid/repo.git</td>"));
    assert!(target.html_content.contains("<td>true</td>"));
    assert!(target
        .html_content
        .contains("<td id=\"service-3-status\" class=\"success-chip\">Running</td>"));
}

#[test]
fn list_fragment_marks_stopped_services_inactive() {
    let fragment = list(Ok(vec![web(3)]), Ok(vec![]));
    let target = &fragment.html_targets[0];
    assert!(target
        .html_content
        .contains("<td id=\"service-3-status\" class=\"unknown-chip\">Inactive</td>"));
}

#[test]
fn list_fragment_degrades_without_discovery() {
    let fragment = list(Ok(vec![web(3)]), Err(ServiceError::Status));
    assert_eq!(fragment.status_class, "warning");
    assert_eq!(fragment.status_string, "Services status unknown");
    let target = &fragment.html_targets[0];
    assert!(target
        .html_content
        .contains("<td id=\"service-3-status\" class=\"unknown-chip\">Unknown status</td>"));
    assert!(target.html_content.contains(
        "<tr><td colspan=\"6\" class=\"error-chip\">System command resulted in failure</td></tr>"
    ));
}

#[test]
fn list_fragment_reports_store_failures() {
    let fragment = list(Err(DBError::Sql("locked".to_string())), Ok(vec![]));
    assert_eq!(fragment.status_class, "error");
    assert_eq!(fragment.status_string, "Database error");
    let target = &fragment.html_targets[0];
    assert!(target.html_content.contains(
        "<tr><td class=\"error-chip\">Unable to retrieve services from database. | Unable to use database </td></tr>"
    ));
}
