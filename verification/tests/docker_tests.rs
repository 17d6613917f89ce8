use wraut::docker::{parse_container_list, parse_line, DockerServiceEntry};
use wraut::service::Service;

fn service(name: &str) -> Service {
    Service {
        id: 1,
        name: name.to_string(),
        compose_name: name.to_string(),
        repo_url: "https://example.invalid/repo.git".to_string(),
        access_url: "https://example.invalid".to_string(),
        active: true,
        cred_file: None,
        use_key: false,
    }
}

fn entry(labels: &str, state: &str) -> DockerServiceEntry {
    DockerServiceEntry {
        id: "abc123".to_string(),
        image: "img:latest".to_string(),
        names: "one".to_string(),
        labels: labels.to_string(),
        state: state.to_string(),
    }
}

#[test]
fn parses_a_listing_line() {
    let line = r#"{"ID":"f2a","Image":"nginx:1.25","Names":"web","Labels":"com.x=1,|||web|||","State":"running"}"#;
    let e = parse_line(line).expect("line should parse");
    assert_eq!(e.id, "f2a");
    assert_eq!(e.image, "nginx:1.25");
    assert_eq!(e.names, "web");
    assert_eq!(e.labels, "com.x=1,|||web|||");
    assert_eq!(e.state, "running");
}

#[test]
fn parses_extra_fields_and_whitespace() {
    let line = "  { \"Command\" : \"\\\"/docker-entrypoint.sh\\\"\" , \"CreatedAt\" : \"2024\", \"ID\":\"a\", \"Image\":\"i\", \"Names\":\"n\", \"Labels\":\"l\", \"State\":\"exited\", \"Size\": \"12B\" }  ";
    let e = parse_line(line).expect("line should parse");
    assert_eq!(e.id, "a");
    assert_eq!(e.state, "exited");
}

#[test]
fn unescapes_string_values() {
    let line = r#"{"ID":"a","Image":"i","Names":"n","Labels":"quote \" slash \\ tab \t","State":"running"}"#;
    let e = parse_line(line).expect("line should parse");
    assert_eq!(e.labels, "quote \" slash \\ tab \t");
}

#[test]
fn rejects_lines_outside_the_grammar() {
    assert!(parse_line("").is_none());
    assert!(parse_line("not json").is_none());
    assert!(parse_line("{\"ID\":\"a\"}").is_none());
    assert!(parse_line("{\"ID\":1,\"Image\":\"i\",\"Names\":\"n\",\"Labels\":\"l\",\"State\":\"s\"}").is_none());
    assert!(parse_line("{\"ID\":\"a\",\"Image\":\"i\",\"Names\":\"n\",\"Labels\":\"l\",\"State\":\"s\"} trailing").is_none());
    assert!(parse_line("{\"ID\":\"a\",\"Image\":\"i\",\"Names\":\"n\",\"Labels\":\"l\",\"State\":\"s\"").is_none());
}

#[test]
fn listing_skips_empty_and_malformed_lines() {
    let text = "{\"ID\":\"a\",\"Image\":\"i1\",\"Names\":\"n1\",\"Labels\":\"l1\",\"State\":\"running\"}\n\ngarbage garbage\n{\"ID\":\"b\",\"Image\":\"i2\",\"Names\":\"n2\",\"Labels\":\"l2\",\"State\":\"exited\"}\n";
    let list = parse_container_list(text);
    assert_eq!(list.len(), 2);
    assert_eq!(list[0].id, "a");
    assert_eq!(list[1].id, "b");
    assert_eq!(list[1].state, "exited");
}

#[test]
fn empty_listing_parses_to_nothing() {
    assert_eq!(parse_container_list("").len(), 0);
    assert_eq!(parse_container_list("\n\n").len(), 0);
}

#[test]
fn is_running_on_empty_list_is_false() {
    let web = service("web");
    assert!(!web.is_running(&vec![]));
}

#[test]
fn is_running_needs_label_and_running_state() {
    let web = service("web");
    // label matches and state is running
    assert!(web.is_running(&vec![entry("x=1,|||web|||,y=2", "running")]));
    // label matches but the container is not running
    assert!(!web.is_running(&vec![entry("|||web|||", "exited")]));
    // state is running but the label does not embed the name
    assert!(!web.is_running(&vec![entry("|||webx|||", "running")]));
    // some entry matches among others
    assert!(web.is_running(&vec![
        entry("|||other|||", "running"),
        entry("|||web|||", "running"),
    ]));
    // a matching stopped container does not hide a matching running one
    assert!(web.is_running(&vec![
        entry("|||web|||", "exited"),
        entry("|||web|||", "running"),
    ]));
}

#[test]
fn label_name_fences_the_service_name() {
    let web = service("web");
    assert_eq!(web.label_name(), "|||web|||");
    let labels = web.make_labels();
    assert_eq!(labels, vec!["|||web|||".to_string()]);
}
