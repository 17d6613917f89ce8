use wraut::compose::{ComposeShape, LabelsField};
use wraut::service::Service;
use wraut::status::ServiceError;

fn service(name: &str, compose_name: &str) -> Service {
    Service {
        id: 3,
        name: name.to_string(),
        compose_name: compose_name.to_string(),
        repo_url: "https://example.invalid/repo.git".to_string(),
        access_url: "https://example.invalid".to_string(),
        active: true,
        cred_file: None,
        use_key: false,
    }
}

#[test]
fn missing_services_key_is_reported() {
    let s = service("web", "web");
    assert_eq!(
        s.apply_tags(ComposeShape::NoServices),
        Err(ServiceError::Key("services".to_string()))
    );
}

#[test]
fn missing_unit_is_reported_by_name() {
    let s = service("web", "frontend");
    assert_eq!(
        s.apply_tags(ComposeShape::NoUnit),
        Err(ServiceError::Key("frontend".to_string()))
    );
}

#[test]
fn non_mapping_unit_is_reported() {
    let s = service("web", "frontend");
    assert_eq!(
        s.apply_tags(ComposeShape::UnitNotMapping),
        Err(ServiceError::Key("frontend (as map)".to_string()))
    );
}

#[test]
fn non_sequence_labels_are_reported() {
    let s = service("web", "frontend");
    assert_eq!(
        s.apply_tags(ComposeShape::Unit(LabelsField::NotASequence)),
        Err(ServiceError::Key("frontend labels (as sequence)".to_string()))
    );
}

#[test]
fn missing_labels_become_a_one_label_sequence() {
    let s = service("web", "web");
    assert_eq!(
        s.apply_tags(ComposeShape::Unit(LabelsField::Missing)),
        Ok(vec!["|||web|||".to_string()])
    );
}

#[test]
fn existing_labels_are_kept_and_appended_to() {
    let s = service("web", "web");
    let before = vec!["traefik.enable=true".to_string()];
    assert_eq!(
        s.apply_tags(ComposeShape::Unit(LabelsField::Items(before))),
        Ok(vec!["traefik.enable=true".to_string(), "|||web|||".to_string()])
    );
}

#[test]
fn rewriting_twice_appends_two_copies() {
    let s = service("web", "web");
    let first = s
        .apply_tags(ComposeShape::Unit(LabelsField::Items(vec![])))
        .expect("first rewrite");
    let second = s
        .apply_tags(ComposeShape::Unit(LabelsField::Items(first.clone())))
        .expect("second rewrite");
    assert_eq!(first, vec!["|||web|||".to_string()]);
    assert_eq!(
        second,
        vec!["|||web|||".to_string(), "|||web|||".to_string()]
    );
    let copies = second.iter().filter(|l| l.as_str() == "|||web|||").count();
    assert_eq!(copies, 2);
}
