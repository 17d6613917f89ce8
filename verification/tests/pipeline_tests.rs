use wraut::bus::ServiceEvent;
use wraut::pipeline::{
    rejected_deployment, terminal_update, CmdOutcome, CommandSpec, Pipeline, PipelineAction,
    StepInput, StepResult,
};
use wraut::service::Service;
use wraut::status::{DBError, ServiceError, ServiceStatus};

fn service(name: &str, cred_file: Option<&str>) -> Service {
    Service {
        id: 7,
        name: name.to_string(),
        compose_name: name.to_string(),
        repo_url: "https://example.invalid/repo.git".to_string(),
        access_url: "https://example.invalid".to_string(),
        active: true,
        cred_file: cred_file.map(|c| c.to_string()),
        use_key: cred_file.is_some(),
    }
}

fn ok(stdout: Option<&str>) -> StepInput {
    StepInput::Command(CmdOutcome::Finished { ok: true, stdout: stdout.map(|s| s.to_string()) })
}

fn exit_failure() -> StepInput {
    StepInput::Command(CmdOutcome::Finished { ok: false, stdout: None })
}

fn statuses(events: &[ServiceEvent]) -> Vec<ServiceStatus> {
    events
        .iter()
        .map(|e| match e {
            ServiceEvent::ServiceUpdate { id, status } => {
                assert_eq!(*id, 7);
                status.clone()
            }
            other => panic!("unexpected event {:?}", other),
        })
        .collect()
}

/// Feeds the answers to the machine in order, collecting every published
/// event, every requested command, and the final outcome.
fn drive(
    p: &mut Pipeline,
    first: StepResult,
    answers: Vec<StepInput>,
) -> (Vec<ServiceEvent>, Vec<PipelineAction>, Option<Result<(), ServiceError>>) {
    let mut events = first.events;
    let mut actions = Vec::new();
    if let Some(a) = first.action {
        actions.push(a);
    }
    let mut outcome = first.outcome;
    for answer in answers {
        assert!(outcome.is_none(), "the driver answered a finished pipeline");
        let step = p.step(answer);
        events.extend(step.events);
        if let Some(a) = step.action {
            actions.push(a);
        }
        outcome = step.outcome;
    }
    (events, actions, outcome)
}

fn running_listing(name: &str) -> String {
    format!(
        "{{\"ID\":\"c1\",\"Image\":\"img\",\"Names\":\"{}\",\"Labels\":\"|||{}|||\",\"State\":\"running\"}}\n",
        name, name
    )
}

#[test]
fn fresh_deployment_publishes_the_clone_sequence() {
    let (mut p, first) = Pipeline::new(service("web", None), "/srv/repos", "/srv/live");
    let answers = vec![
        ok(Some("")),      // discovery: nothing running
        ok(Some("N\n")),   // staging directory missing
        ok(None),          // mkdir staging
        ok(None),          // git clone
        ok(Some("N\n")),   // live directory missing
        ok(None),          // mkdir live
        ok(None),          // copy to live
        StepInput::TagRewrite(Ok(())),
        ok(None),          // compose up
    ];
    let (mut events, actions, outcome) = drive(&mut p, first, answers);
    assert!(p.is_finished());
    assert_eq!(outcome, Some(Ok(())));
    // the caller publishes the terminal Running update on success
    if let Some(done) = terminal_update(7, &outcome.unwrap()) {
        events.push(done);
    }
    assert_eq!(
        statuses(&events),
        vec![
            ServiceStatus::DeploymentRequested,
            ServiceStatus::Cloning,
            ServiceStatus::Copying,
            ServiceStatus::RewritingConfig,
            ServiceStatus::Starting,
            ServiceStatus::Running,
        ]
    );
    // never Pulling or Stopping on a first deployment
    assert!(!statuses(&events).contains(&ServiceStatus::Pulling));
    assert!(!statuses(&events).contains(&ServiceStatus::Stopping));
    // the requested commands, in order
    let programs: Vec<String> = actions
        .iter()
        .map(|a| match a {
            PipelineAction::RunCommand(CommandSpec { program, .. }) => program.clone(),
            PipelineAction::RewriteTags { .. } => "<tags>".to_string(),
        })
        .collect();
    assert_eq!(
        programs,
        vec!["docker", "sh", "mkdir", "git", "sh", "mkdir", "cp", "<tags>", "docker"]
    );
}

#[test]
fn redeployment_of_running_service_stops_before_starting() {
    let (mut p, first) = Pipeline::new(service("web", None), "/srv/repos", "/srv/live");
    let answers = vec![
        ok(Some(running_listing("web").as_str())),
        ok(Some("Y\n")),   // staging directory exists: pull
        ok(None),          // git pull
        ok(Some("Y\n")),   // live directory exists: purge first
        ok(None),          // rm contents
        ok(None),          // copy to live
        StepInput::TagRewrite(Ok(())),
        ok(None),          // compose stop
        ok(None),          // compose up
    ];
    let (mut events, actions, outcome) = drive(&mut p, first, answers);
    assert_eq!(outcome, Some(Ok(())));
    if let Some(done) = terminal_update(7, &outcome.unwrap()) {
        events.push(done);
    }
    assert_eq!(
        statuses(&events),
        vec![
            ServiceStatus::DeploymentRequested,
            ServiceStatus::Pulling,
            ServiceStatus::Copying,
            ServiceStatus::RewritingConfig,
            ServiceStatus::Stopping,
            ServiceStatus::Starting,
            ServiceStatus::Running,
        ]
    );
    let programs: Vec<String> = actions
        .iter()
        .map(|a| match a {
            PipelineAction::RunCommand(CommandSpec { program, .. }) => program.clone(),
            PipelineAction::RewriteTags { .. } => "<tags>".to_string(),
        })
        .collect();
    assert_eq!(
        programs,
        vec!["docker", "sh", "git", "sh", "rm", "cp", "<tags>", "docker", "docker"]
    );
}

#[test]
fn discovery_failure_publishes_exactly_two_events_and_stops() {
    let (mut p, first) = Pipeline::new(service("web", None), "/srv/repos", "/srv/live");
    let (events, actions, outcome) = drive(&mut p, first, vec![exit_failure()]);
    assert_eq!(
        statuses(&events),
        vec![ServiceStatus::DeploymentRequested, ServiceStatus::DiscoveryFailed]
    );
    assert_eq!(outcome, Some(Err(ServiceError::Discovery)));
    // the caller adds nothing on failure: still exactly two events
    assert!(terminal_update(7, &Err(ServiceError::Discovery)).is_none());
    // only discovery itself was ever requested
    assert_eq!(actions.len(), 1);
    assert!(p.is_finished());
}

#[test]
fn undecodable_discovery_output_is_a_discovery_failure() {
    let (mut p, first) = Pipeline::new(service("web", None), "/srv/repos", "/srv/live");
    let (events, _, outcome) = drive(&mut p, first, vec![ok(None)]);
    assert_eq!(
        statuses(&events),
        vec![ServiceStatus::DeploymentRequested, ServiceStatus::DiscoveryFailed]
    );
    assert_eq!(outcome, Some(Err(ServiceError::Discovery)));
}

#[test]
fn clone_failure_aborts_before_copy_and_tagging() {
    let (mut p, first) = Pipeline::new(service("web", None), "/srv/repos", "/srv/live");
    let answers = vec![ok(Some("")), ok(Some("N\n")), ok(None), exit_failure()];
    let (events, actions, outcome) = drive(&mut p, first, answers);
    assert_eq!(
        statuses(&events),
        vec![
            ServiceStatus::DeploymentRequested,
            ServiceStatus::Cloning,
            ServiceStatus::CloneOrPullFailed,
        ]
    );
    assert_eq!(outcome, Some(Err(ServiceError::CloneOrPull)));
    // discovery, probe, mkdir, clone — and nothing after the failure
    assert_eq!(actions.len(), 4);
    assert!(p.is_finished());
}

#[test]
fn pull_failure_aborts_before_copy_and_tagging() {
    let (mut p, first) = Pipeline::new(service("web", None), "/srv/repos", "/srv/live");
    let answers = vec![ok(Some("")), ok(Some("Y\n")), exit_failure()];
    let (events, actions, outcome) = drive(&mut p, first, answers);
    assert_eq!(
        statuses(&events),
        vec![
            ServiceStatus::DeploymentRequested,
            ServiceStatus::Pulling,
            ServiceStatus::CloneOrPullFailed,
        ]
    );
    assert_eq!(outcome, Some(Err(ServiceError::CloneOrPull)));
    assert_eq!(actions.len(), 3);
}

#[test]
fn unexpected_probe_output_aborts() {
    let (mut p, first) = Pipeline::new(service("web", None), "/srv/repos", "/srv/live");
    let answers = vec![ok(Some("")), ok(Some("maybe\n"))];
    let (events, _, outcome) = drive(&mut p, first, answers);
    assert_eq!(
        statuses(&events),
        vec![
            ServiceStatus::DeploymentRequested,
            ServiceStatus::CommandFailed("Command resulted in unexpected string".to_string()),
        ]
    );
    assert_eq!(outcome, Some(Err(ServiceError::Unexpected)));
}

#[test]
fn invocation_failure_carries_its_own_text() {
    let (mut p, first) = Pipeline::new(service("web", None), "/srv/repos", "/srv/live");
    let answers = vec![
        ok(Some("")),
        ok(Some("N\n")),
        StepInput::Command(CmdOutcome::Failed("spawn denied".to_string())),
    ];
    let (events, _, outcome) = drive(&mut p, first, answers);
    assert_eq!(
        statuses(&events),
        vec![
            ServiceStatus::DeploymentRequested,
            ServiceStatus::CommandFailed("spawn denied".to_string()),
        ]
    );
    assert_eq!(outcome, Some(Err(ServiceError::Command("spawn denied".to_string()))));
}

#[test]
fn tag_rewrite_failure_aborts_with_the_missing_key() {
    let (mut p, first) = Pipeline::new(service("web", None), "/srv/repos", "/srv/live");
    let answers = vec![
        ok(Some("")),
        ok(Some("N\n")),
        ok(None),
        ok(None),
        ok(Some("N\n")),
        ok(None),
        ok(None),
        StepInput::TagRewrite(Err(ServiceError::Key("services".to_string()))),
    ];
    let (events, _, outcome) = drive(&mut p, first, answers);
    assert_eq!(
        statuses(&events),
        vec![
            ServiceStatus::DeploymentRequested,
            ServiceStatus::Cloning,
            ServiceStatus::Copying,
            ServiceStatus::RewritingConfig,
            ServiceStatus::CommandFailed("Failed to find key 'services'".to_string()),
        ]
    );
    assert_eq!(outcome, Some(Err(ServiceError::Key("services".to_string()))));
}

#[test]
fn stop_failure_aborts_before_start() {
    let (mut p, first) = Pipeline::new(service("web", None), "/srv/repos", "/srv/live");
    let answers = vec![
        ok(Some(running_listing("web").as_str())),
        ok(Some("Y\n")),
        ok(None),
        ok(Some("Y\n")),
        ok(None),
        ok(None),
        StepInput::TagRewrite(Ok(())),
        exit_failure(),
    ];
    let (events, _, outcome) = drive(&mut p, first, answers);
    assert_eq!(outcome, Some(Err(ServiceError::Stop)));
    let seen = statuses(&events);
    assert_eq!(
        seen.last(),
        Some(&ServiceStatus::CommandFailed("Failed to stop Docker service".to_string()))
    );
    assert!(!seen.contains(&ServiceStatus::Starting));
}

#[test]
fn start_failure_returns_the_start_error() {
    let (mut p, first) = Pipeline::new(service("web", None), "/srv/repos", "/srv/live");
    let answers = vec![
        ok(Some("")),
        ok(Some("N\n")),
        ok(None),
        ok(None),
        ok(Some("N\n")),
        ok(None),
        ok(None),
        StepInput::TagRewrite(Ok(())),
        exit_failure(),
    ];
    let (events, _, outcome) = drive(&mut p, first, answers);
    assert_eq!(outcome, Some(Err(ServiceError::Start)));
    assert_eq!(
        statuses(&events).last(),
        Some(&ServiceStatus::CommandFailed("Failed to start Docker service".to_string()))
    );
}

#[test]
fn commands_carry_the_service_paths() {
    let (mut p, first) = Pipeline::new(service("web", None), "/srv/repos", "/srv/live");
    match first.action {
        Some(PipelineAction::RunCommand(c)) => {
            assert_eq!(c.program, "docker");
            assert_eq!(c.args, vec!["ps", "--format", "json"]);
            assert_eq!(c.cwd, None);
        }
        other => panic!("unexpected first action {:?}", other),
    }
    let probe = p.step(ok(Some("")));
    match probe.action {
        Some(PipelineAction::RunCommand(c)) => {
            assert_eq!(c.program, "sh");
            assert_eq!(
                c.args,
                vec!["-c", "[ -d /srv/repos/web ] && echo \"Y\" || echo \"N\""]
            );
        }
        other => panic!("unexpected probe action {:?}", other),
    }
    let pull = p.step(ok(Some("Y\n")));
    match pull.action {
        Some(PipelineAction::RunCommand(c)) => {
            assert_eq!(c.program, "git");
            assert_eq!(c.args, vec!["pull"]);
            assert_eq!(c.cwd, Some("/srv/repos/web".to_string()));
        }
        other => panic!("unexpected pull action {:?}", other),
    }
}

#[test]
fn clone_uses_the_configured_credential_file() {
    let (mut p, _) = Pipeline::new(
        service("web", Some("/home/deploy/.ssh/key")),
        "/srv/repos",
        "/srv/live",
    );
    let _ = p.step(ok(Some("")));
    let _ = p.step(ok(Some("N\n")));
    let clone = p.step(ok(None));
    match clone.action {
        Some(PipelineAction::RunCommand(c)) => {
            assert_eq!(c.program, "git");
            assert_eq!(
                c.args,
                vec![
                    "clone".to_string(),
                    " -c \"core.sshCommand=ssh -i /home/deploy/.ssh/key\" ".to_string(),
                    "https://example.invalid/repo.git".to_string(),
                    "/srv/repos/web".to_string(),
                ]
            );
        }
        other => panic!("unexpected clone action {:?}", other),
    }
}

#[test]
fn copy_and_removal_address_the_live_directory() {
    let (mut p, _) = Pipeline::new(service("web", None), "/srv/repos", "/srv/live");
    let _ = p.step(ok(Some("")));
    let _ = p.step(ok(Some("Y\n")));
    let probe_live = p.step(ok(None));
    match probe_live.action {
        Some(PipelineAction::RunCommand(c)) => assert_eq!(c.program, "sh"),
        other => panic!("unexpected action {:?}", other),
    }
    let rm = p.step(ok(Some("Y\n")));
    match rm.action {
        Some(PipelineAction::RunCommand(c)) => {
            assert_eq!(c.program, "rm");
            assert_eq!(c.args, vec!["-rf", "/srv/live/web/*"]);
        }
        other => panic!("unexpected action {:?}", other),
    }
    let cp = p.step(ok(None));
    match cp.action {
        Some(PipelineAction::RunCommand(c)) => {
            assert_eq!(c.program, "cp");
            assert_eq!(c.args, vec!["-af", "/srv/repos/web/.", "."]);
            assert_eq!(c.cwd, Some("/srv/live/web".to_string()));
        }
        other => panic!("unexpected action {:?}", other),
    }
    let tags = p.step(ok(None));
    match tags.action {
        Some(PipelineAction::RewriteTags { live_dir }) => {
            assert_eq!(live_dir, "/srv/live/web");
        }
        other => panic!("unexpected action {:?}", other),
    }
}

#[test]
fn finished_pipeline_ignores_further_answers() {
    let (mut p, first) = Pipeline::new(service("web", None), "/srv/repos", "/srv/live");
    let (_, _, outcome) = drive(&mut p, first, vec![exit_failure()]);
    assert_eq!(outcome, Some(Err(ServiceError::Discovery)));
    let extra = p.step(ok(None));
    assert!(extra.events.is_empty());
    assert!(extra.action.is_none());
    assert!(extra.outcome.is_none());
}

#[test]
fn rejected_deployment_reports_the_store_failure() {
    let (event, err) = rejected_deployment(&DBError::Sql("no such table".to_string()));
    assert_eq!(
        event,
        ServiceEvent::UnknownEvent { msg: "Unable to use database".to_string() }
    );
    assert_eq!(err, ServiceError::Unknown);
}
