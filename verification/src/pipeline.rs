//! The deployment pipeline: an explicit status state machine.
//!
//! A deployment runs a fixed ordered sequence of operations — discovery,
//! clone-or-pull into the staging directory, copy to the live directory,
//! tag rewrite, a conditional stop, and start — each guarded by the previous
//! step's success, publishing a status event at every transition and exactly
//! one failure status on abort. The machine itself performs no side effect:
//! each step it decides returns the events to publish and the next action —
//! a process invocation or a compose-file rewrite — for the surrounding
//! driver to perform, and the driver hands the action's outcome back as a
//! plain value. One production driver runs real processes; a test driver
//! feeds recorded outcomes, so the pipeline's logic runs without git or
//! docker installed.
//!
//! No mutual exclusion is provided between two concurrent deployments of the
//! same service: both may observe the same missing directory and race to
//! create, clone and copy into the same paths. Single-deployment idempotence
//! comes from the get-or-create steps alone; a per-service lock would be an
//! enhancement, not reproduced behavior.
//!
//! On any abort the pipeline has already published the specific failure
//! status; the caller receives the typed error besides, and publishes the
//! terminal `Running` update itself on full success. No step is retried and
//! no compensation runs: re-invocation is safe only because every directory
//! operation is get-or-create.

use vstd::prelude::*;

use crate::bus::{ServiceEvent, ServiceEventView};
use crate::docker::{is_running_spec, parse_container_list, parse_lines_spec};
use crate::service::{Service, ServiceView};
use crate::staging::{classify_dir_sentinel, classify_sentinel, DirProbe};
use crate::status::{
    db_error_message, status_of_error, DBError, ServiceError, ServiceErrorView, ServiceStatus,
    ServiceStatusView,
};

verus! {

/// One command for the process runner: program, arguments, and an optional
/// working directory.
#[derive(Clone, Debug, PartialEq, Eq)]
pub struct CommandSpec {
    pub program: String,
    pub args: Vec<String>,
    pub cwd: Option<String>,
}

/// Mathematical model of a `CommandSpec`.
pub struct CommandSpecView {
    pub program: Seq<char>,
    pub args: Seq<Seq<char>>,
    pub cwd: Option<Seq<char>>,
}

impl View for CommandSpec {
    type V = CommandSpecView;

    open spec fn view(&self) -> CommandSpecView {
        CommandSpecView {
            program: self.program@,
            args: self.args@.map_values(|a: String| a@),
            cwd: match self.cwd {
                Option::Some(d) => Option::Some(d@),
                Option::None => Option::None,
            },
        }
    }
}

/// What became of one requested command: it could not be invoked at all
/// (with the invocation error's text), or it finished with an exit status
/// and its captured standard output — `None` when the output did not decode
/// as text.
#[derive(Clone, Debug, PartialEq, Eq)]
pub enum CmdOutcome {
    Failed(String),
    Finished { ok: bool, stdout: Option<String> },
}

/// Mathematical model of a `CmdOutcome`.
pub enum CmdOutcomeView {
    Failed(Seq<char>),
    Finished { ok: bool, stdout: Option<Seq<char>> },
}

impl View for CmdOutcome {
    type V = CmdOutcomeView;

    open spec fn view(&self) -> CmdOutcomeView {
        match self {
            CmdOutcome::Failed(m) => CmdOutcomeView::Failed(m@),
            CmdOutcome::Finished { ok, stdout } => CmdOutcomeView::Finished {
                ok: *ok,
                stdout: match stdout {
                    Option::Some(s) => Option::Some(s@),
                    Option::None => Option::None,
                },
            },
        }
    }
}

/// What the pipeline asks its driver to do next: run a command, or load the
/// live directory's compose file, apply the verified tag rewrite, and write
/// it back.
#[derive(Clone, Debug, PartialEq, Eq)]
pub enum PipelineAction {
    RunCommand(CommandSpec),
    RewriteTags { live_dir: String },
}

/// Mathematical model of a `PipelineAction`.
pub enum PipelineActionView {
    RunCommand(CommandSpecView),
    RewriteTags { live_dir: Seq<char> },
}

impl View for PipelineAction {
    type V = PipelineActionView;

    open spec fn view(&self) -> PipelineActionView {
        match self {
            PipelineAction::RunCommand(c) => PipelineActionView::RunCommand(c@),
            PipelineAction::RewriteTags { live_dir } => PipelineActionView::RewriteTags {
                live_dir: live_dir@,
            },
        }
    }
}

/// The driver's answer to the last requested action.
#[derive(Debug)]
pub enum StepInput {
    Command(CmdOutcome),
    TagRewrite(Result<(), ServiceError>),
}

/// Mathematical model of a `StepInput`.
pub enum StepInputView {
    Command(CmdOutcomeView),
    TagRewrite(Result<(), ServiceErrorView>),
}

impl View for StepInput {
    type V = StepInputView;

    open spec fn view(&self) -> StepInputView {
        match self {
            StepInput::Command(o) => StepInputView::Command(o@),
            StepInput::TagRewrite(r) => StepInputView::TagRewrite(
                match r {
                    Result::Ok(_) => Result::Ok(()),
                    Result::Err(e) => Result::Err(e@),
                },
            ),
        }
    }
}

/// Where the pipeline stands: which action's outcome it is waiting for.
/// `running` carries what discovery found, deciding the conditional stop.
#[derive(Clone, Copy, Debug, PartialEq, Eq, Structural)]
pub enum PipelinePhase {
    Discovering,
    ProbingStageDir { running: bool },
    MakingStageDir { running: bool },
    CloningOrPulling { running: bool },
    ProbingLiveDir { running: bool },
    MakingLiveDir { running: bool },
    RemovingLiveContents { running: bool },
    CopyingToLive { running: bool },
    RewritingTags { running: bool },
    StoppingService,
    StartingService,
    Finished,
}

/// Mathematical model of a `Pipeline`.
pub struct PipelineView {
    pub service: ServiceView,
    pub repo_dir: Seq<char>,
    pub live_dir: Seq<char>,
    pub phase: PipelinePhase,
}

/// What one step hands back to the driver: the status events to publish, in
/// order; the next action, if any; and the pipeline's result once it has
/// finished.
pub struct StepResult {
    pub events: Vec<ServiceEvent>,
    pub action: Option<PipelineAction>,
    pub outcome: Option<Result<(), ServiceError>>,
}

/// Mathematical model of a `StepResult`.
pub struct StepResultView {
    pub events: Seq<ServiceEventView>,
    pub action: Option<PipelineActionView>,
    pub outcome: Option<Result<(), ServiceErrorView>>,
}

impl View for StepResult {
    type V = StepResultView;

    open spec fn view(&self) -> StepResultView {
        StepResultView {
            events: self.events@.map_values(|e: ServiceEvent| e@),
            action: match self.action {
                Option::Some(a) => Option::Some(a@),
                Option::None => Option::None,
            },
            outcome: match self.outcome {
                Option::Some(Result::Ok(_)) => Option::Some(Result::Ok(())),
                Option::Some(Result::Err(e)) => Option::Some(Result::Err(e@)),
                Option::None => Option::None,
            },
        }
    }
}

/// A directory under a root, joined with a slash.
pub open spec fn dir_under(root: Seq<char>, name: Seq<char>) -> Seq<char> {
    root + "/"@ + name
}

/// The discovery command: list running containers in line-oriented JSON.
pub open spec fn docker_ps_cmd() -> CommandSpecView {
    CommandSpecView {
        program: "docker"@,
        args: seq!["ps"@, "--format"@, "json"@],
        cwd: Option::None,
    }
}

/// The existence probe: a shell test echoing one of two sentinel lines.
pub open spec fn probe_dir_cmd(path: Seq<char>) -> CommandSpecView {
    CommandSpecView {
        program: "sh"@,
        args: seq!["-c"@, "[ -d "@ + path + " ] && echo \"Y\" || echo \"N\""@],
        cwd: Option::None,
    }
}

/// Directory creation.
pub open spec fn mkdir_cmd(path: Seq<char>) -> CommandSpecView {
    CommandSpecView { program: "mkdir"@, args: seq![path], cwd: Option::None }
}

/// The git identity override appended when a credential file is configured.
pub open spec fn cred_args(cred_file: Option<Seq<char>>) -> Seq<Seq<char>> {
    match cred_file {
        Option::Some(cf) => seq![" -c \"core.sshCommand=ssh -i "@ + cf + "\" "@],
        Option::None => Seq::empty(),
    }
}

/// Clone the repository into the just-created staging directory.
pub open spec fn git_clone_cmd(sv: ServiceView, repo_dir: Seq<char>) -> CommandSpecView {
    CommandSpecView {
        program: "git"@,
        args: seq!["clone"@] + cred_args(sv.cred_file) + seq![sv.repo_url, repo_dir],
        cwd: Option::None,
    }
}

/// Pull inside the existing staging directory.
pub open spec fn git_pull_cmd(sv: ServiceView, repo_dir: Seq<char>) -> CommandSpecView {
    CommandSpecView {
        program: "git"@,
        args: seq!["pull"@] + cred_args(sv.cred_file),
        cwd: Option::Some(repo_dir),
    }
}

/// Purge the existing live directory's contents before refreshing them.
pub open spec fn rm_live_contents_cmd(live_dir: Seq<char>) -> CommandSpecView {
    CommandSpecView {
        program: "rm"@,
        args: seq!["-rf"@, live_dir + "/*"@],
        cwd: Option::None,
    }
}

/// Copy the staged repository's contents into the live directory.
pub open spec fn copy_cmd(repo_dir: Seq<char>, live_dir: Seq<char>) -> CommandSpecView {
    CommandSpecView {
        program: "cp"@,
        args: seq!["-af"@, repo_dir + "/."@, "."@],
        cwd: Option::Some(live_dir),
    }
}

/// Stop the service through the compose tool in the live directory.
pub open spec fn compose_stop_cmd(live_dir: Seq<char>) -> CommandSpecView {
    CommandSpecView {
        program: "docker"@,
        args: seq!["compose"@, "stop"@],
        cwd: Option::Some(live_dir),
    }
}

/// Start the service, detached, through the compose tool in the live
/// directory.
pub open spec fn compose_up_cmd(live_dir: Seq<char>) -> CommandSpecView {
    CommandSpecView {
        program: "docker"@,
        args: seq!["compose"@, "up"@, "-d"@],
        cwd: Option::Some(live_dir),
    }
}

/// The status update published for one service.
pub open spec fn update_event(id: int, status: ServiceStatusView) -> ServiceEventView {
    ServiceEventView::ServiceUpdate { id, status }
}

/// A step that aborts the pipeline: publish exactly the failure's status and
/// finish with the typed error.
pub open spec fn abort_step(id: int, e: ServiceErrorView) -> StepResultView {
    StepResultView {
        events: seq![update_event(id, status_of_error(e))],
        action: Option::None,
        outcome: Option::Some(Result::Err(e)),
    }
}

/// A step that continues the pipeline: publish the given events and request
/// the next action.
pub open spec fn continue_step(
    events: Seq<ServiceEventView>,
    action: PipelineActionView,
) -> StepResultView {
    StepResultView { events, action: Option::Some(action), outcome: Option::None }
}

/// A command outcome succeeded if it finished with a successful exit status.
pub open spec fn ok_outcome(o: CmdOutcomeView) -> bool {
    o matches CmdOutcomeView::Finished { ok: true, .. }
}

/// How a failed command outcome is classified for a step whose non-zero exit
/// means `on_exit`: an invocation failure keeps its own text; success is no
/// error.
pub open spec fn cmd_error(o: CmdOutcomeView, on_exit: ServiceErrorView) -> Option<
    ServiceErrorView,
> {
    match o {
        CmdOutcomeView::Failed(m) => Option::Some(ServiceErrorView::Command(m)),
        CmdOutcomeView::Finished { ok, .. } => if ok {
            Option::None
        } else {
            Option::Some(on_exit)
        },
    }
}

/// What an existence probe's outcome means: an invocation failure keeps its
/// text, a non-zero exit is a status failure, undecodable output a parse
/// failure, an unknown sentinel an unexpected-output failure.
pub open spec fn probe_result(o: CmdOutcomeView) -> Result<DirProbe, ServiceErrorView> {
    match o {
        CmdOutcomeView::Failed(m) => Result::Err(ServiceErrorView::Command(m)),
        CmdOutcomeView::Finished { ok, stdout } => if !ok {
            Result::Err(ServiceErrorView::Status)
        } else {
            match stdout {
                Option::None => Result::Err(ServiceErrorView::Parse),
                Option::Some(s) => match classify_sentinel(s) {
                    DirProbe::Exists => Result::Ok(DirProbe::Exists),
                    DirProbe::Missing => Result::Ok(DirProbe::Missing),
                    DirProbe::Unexpected => Result::Err(ServiceErrorView::Unexpected),
                },
            }
        },
    }
}

/// The machine's transition function: from the current state and the
/// driver's answer, the next phase and what the step publishes, requests and
/// returns. Every failure maps through `status_of_error` to exactly one
/// published status; an answer of the wrong kind for the phase aborts with
/// the unknown error; a finished pipeline ignores further answers.
pub open spec fn step_spec(p: PipelineView, input: StepInputView) -> (
    PipelinePhase,
    StepResultView,
) {
    let id = p.service.id;
    match p.phase {
        PipelinePhase::Discovering => match input {
            StepInputView::Command(o) => match o {
                CmdOutcomeView::Finished { ok: true, stdout: Option::Some(s) } => {
                    let running = is_running_spec(p.service.name, parse_lines_spec(s));
                    (
                        PipelinePhase::ProbingStageDir { running },
                        continue_step(
                            Seq::empty(),
                            PipelineActionView::RunCommand(probe_dir_cmd(p.repo_dir)),
                        ),
                    )
                },
                _ => (
                    PipelinePhase::Finished,
                    StepResultView {
                        events: seq![
                            update_event(
                                id,
                                ServiceStatusView::DiscoveryFailed,
                            ),
                        ],
                        action: Option::None,
                        outcome: Option::Some(Result::Err(ServiceErrorView::Discovery)),
                    },
                ),
            },
            StepInputView::TagRewrite(_) => (
                PipelinePhase::Finished,
                abort_step(id, ServiceErrorView::Unknown),
            ),
        },
        PipelinePhase::ProbingStageDir { running } => match input {
            StepInputView::Command(o) => match probe_result(o) {
                Result::Err(e) => (PipelinePhase::Finished, abort_step(id, e)),
                Result::Ok(DirProbe::Exists) => (
                    PipelinePhase::CloningOrPulling { running },
                    continue_step(
                        seq![update_event(id, ServiceStatusView::Pulling)],
                        PipelineActionView::RunCommand(git_pull_cmd(p.service, p.repo_dir)),
                    ),
                ),
                Result::Ok(_) => (
                    PipelinePhase::MakingStageDir { running },
                    continue_step(
                        Seq::empty(),
                        PipelineActionView::RunCommand(mkdir_cmd(p.repo_dir)),
                    ),
                ),
            },
            StepInputView::TagRewrite(_) => (
                PipelinePhase::Finished,
                abort_step(id, ServiceErrorView::Unknown),
            ),
        },
        PipelinePhase::MakingStageDir { running } => match input {
            StepInputView::Command(o) => match cmd_error(o, ServiceErrorView::Status) {
                Option::Some(e) => (PipelinePhase::Finished, abort_step(id, e)),
                Option::None => (
                    PipelinePhase::CloningOrPulling { running },
                    continue_step(
                        seq![update_event(id, ServiceStatusView::Cloning)],
                        PipelineActionView::RunCommand(git_clone_cmd(p.service, p.repo_dir)),
                    ),
                ),
            },
            StepInputView::TagRewrite(_) => (
                PipelinePhase::Finished,
                abort_step(id, ServiceErrorView::Unknown),
            ),
        },
        PipelinePhase::CloningOrPulling { running } => match input {
            StepInputView::Command(o) => match cmd_error(o, ServiceErrorView::CloneOrPull) {
                Option::Some(e) => (PipelinePhase::Finished, abort_step(id, e)),
                Option::None => (
                    PipelinePhase::ProbingLiveDir { running },
                    continue_step(
                        seq![update_event(id, ServiceStatusView::Copying)],
                        PipelineActionView::RunCommand(probe_dir_cmd(p.live_dir)),
                    ),
                ),
            },
            StepInputView::TagRewrite(_) => (
                PipelinePhase::Finished,
                abort_step(id, ServiceErrorView::Unknown),
            ),
        },
        PipelinePhase::ProbingLiveDir { running } => match input {
            StepInputView::Command(o) => match probe_result(o) {
                Result::Err(e) => (PipelinePhase::Finished, abort_step(id, e)),
                Result::Ok(DirProbe::Exists) => (
                    PipelinePhase::RemovingLiveContents { running },
                    continue_step(
                        Seq::empty(),
                        PipelineActionView::RunCommand(rm_live_contents_cmd(p.live_dir)),
                    ),
                ),
                Result::Ok(_) => (
                    PipelinePhase::MakingLiveDir { running },
                    continue_step(
                        Seq::empty(),
                        PipelineActionView::RunCommand(mkdir_cmd(p.live_dir)),
                    ),
                ),
            },
            StepInputView::TagRewrite(_) => (
                PipelinePhase::Finished,
                abort_step(id, ServiceErrorView::Unknown),
            ),
        },
        PipelinePhase::MakingLiveDir { running } => match input {
            StepInputView::Command(o) => match cmd_error(o, ServiceErrorView::Status) {
                Option::Some(e) => (PipelinePhase::Finished, abort_step(id, e)),
                Option::None => (
                    PipelinePhase::CopyingToLive { running },
                    continue_step(
                        Seq::empty(),
                        PipelineActionView::RunCommand(copy_cmd(p.repo_dir, p.live_dir)),
                    ),
                ),
            },
            StepInputView::TagRewrite(_) => (
                PipelinePhase::Finished,
                abort_step(id, ServiceErrorView::Unknown),
            ),
        },
        PipelinePhase::RemovingLiveContents { running } => match input {
            StepInputView::Command(o) => match cmd_error(o, ServiceErrorView::Remove) {
                Option::Some(e) => (PipelinePhase::Finished, abort_step(id, e)),
                Option::None => (
                    PipelinePhase::CopyingToLive { running },
                    continue_step(
                        Seq::empty(),
                        PipelineActionView::RunCommand(copy_cmd(p.repo_dir, p.live_dir)),
                    ),
                ),
            },
            StepInputView::TagRewrite(_) => (
                PipelinePhase::Finished,
                abort_step(id, ServiceErrorView::Unknown),
            ),
        },
        PipelinePhase::CopyingToLive { running } => match input {
            StepInputView::Command(o) => match cmd_error(o, ServiceErrorView::Copy) {
                Option::Some(e) => (PipelinePhase::Finished, abort_step(id, e)),
                Option::None => (
                    PipelinePhase::RewritingTags { running },
                    continue_step(
                        seq![
                            update_event(
                                id,
                                ServiceStatusView::RewritingConfig,
                            ),
                        ],
                        PipelineActionView::RewriteTags { live_dir: p.live_dir },
                    ),
                ),
            },
            StepInputView::TagRewrite(_) => (
                PipelinePhase::Finished,
                abort_step(id, ServiceErrorView::Unknown),
            ),
        },
        PipelinePhase::RewritingTags { running } => match input {
            StepInputView::TagRewrite(res) => match res {
                Result::Err(e) => (PipelinePhase::Finished, abort_step(id, e)),
                Result::Ok(_) => if running {
                    (
                        PipelinePhase::StoppingService,
                        continue_step(
                            seq![
                                update_event(
                                    id,
                                    ServiceStatusView::Stopping,
                                ),
                            ],
                            PipelineActionView::RunCommand(compose_stop_cmd(p.live_dir)),
                        ),
                    )
                } else {
                    (
                        PipelinePhase::StartingService,
                        continue_step(
                            seq![
                                update_event(
                                    id,
                                    ServiceStatusView::Starting,
                                ),
                            ],
                            PipelineActionView::RunCommand(compose_up_cmd(p.live_dir)),
                        ),
                    )
                },
            },
            StepInputView::Command(_) => (
                PipelinePhase::Finished,
                abort_step(id, ServiceErrorView::Unknown),
            ),
        },
        PipelinePhase::StoppingService => match input {
            StepInputView::Command(o) => match cmd_error(o, ServiceErrorView::Stop) {
                Option::Some(e) => (PipelinePhase::Finished, abort_step(id, e)),
                Option::None => (
                    PipelinePhase::StartingService,
                    continue_step(
                        seq![update_event(id, ServiceStatusView::Starting)],
                        PipelineActionView::RunCommand(compose_up_cmd(p.live_dir)),
                    ),
                ),
            },
            StepInputView::TagRewrite(_) => (
                PipelinePhase::Finished,
                abort_step(id, ServiceErrorView::Unknown),
            ),
        },
        PipelinePhase::StartingService => match input {
            StepInputView::Command(o) => match cmd_error(o, ServiceErrorView::Start) {
                Option::Some(e) => (PipelinePhase::Finished, abort_step(id, e)),
                Option::None => (
                    PipelinePhase::Finished,
                    StepResultView {
                        events: Seq::empty(),
                        action: Option::None,
                        outcome: Option::Some(Result::Ok(())),
                    },
                ),
            },
            StepInputView::TagRewrite(_) => (
                PipelinePhase::Finished,
                abort_step(id, ServiceErrorView::Unknown),
            ),
        },
        PipelinePhase::Finished => (
            PipelinePhase::Finished,
            StepResultView { events: Seq::empty(), action: Option::None, outcome: Option::None },
        ),
    }
}

/// Where a new pipeline for the service starts: the staging and live
/// directories are the service's name under each root, the deployment
/// request is published at once, and discovery is the first action.
pub open spec fn init_spec(sv: ServiceView, repo_root: Seq<char>, live_root: Seq<char>) -> (
    PipelineView,
    StepResultView,
) {
    (
        PipelineView {
            service: sv,
            repo_dir: dir_under(repo_root, sv.name),
            live_dir: dir_under(live_root, sv.name),
            phase: PipelinePhase::Discovering,
        },
        continue_step(
            seq![
                update_event(
                    sv.id,
                    ServiceStatusView::DeploymentRequested,
                ),
            ],
            PipelineActionView::RunCommand(docker_ps_cmd()),
        ),
    )
}

/// The state machine with its fixed deployment parameters.
pub struct Pipeline {
    service: Service,
    repo_dir: String,
    live_dir: String,
    phase: PipelinePhase,
}

impl View for Pipeline {
    type V = PipelineView;

    closed spec fn view(&self) -> PipelineView {
        PipelineView {
            service: self.service@,
            repo_dir: self.repo_dir@,
            live_dir: self.live_dir@,
            phase: self.phase,
        }
    }
}

/// One published status update for a service.
fn make_update(id: i64, status: ServiceStatus) -> (r: Vec<ServiceEvent>)
    ensures
        r@.map_values(|e: ServiceEvent| e@) == seq![update_event(id as int, status@)],
{
    let mut events: Vec<ServiceEvent> = Vec::new();
    events.push(ServiceEvent::ServiceUpdate { id, status });
    proof {
        assert(events@.map_values(|e: ServiceEvent| e@) =~= seq![
            update_event(id as int, events@[0]@->ServiceUpdate_status),
        ]);
    }
    events
}

/// No events.
fn no_events() -> (r: Vec<ServiceEvent>)
    ensures
        r@.map_values(|e: ServiceEvent| e@) == Seq::<ServiceEventView>::empty(),
{
    let events: Vec<ServiceEvent> = Vec::new();
    proof {
        assert(events@.map_values(|e: ServiceEvent| e@) =~= Seq::<ServiceEventView>::empty());
    }
    events
}

/// An aborting step: the failure's status is the one event published, the
/// typed error the result.
fn abort_with(id: i64, e: ServiceError) -> (r: StepResult)
    ensures
        r@ == abort_step(id as int, e@),
{
    let status = ServiceStatus::from_error(e.duplicate());
    StepResult {
        events: make_update(id, status),
        action: Option::None,
        outcome: Option::Some(Result::Err(e)),
    }
}

/// A continuing step: events to publish and the next action.
fn continue_with(events: Vec<ServiceEvent>, action: PipelineAction) -> (r: StepResult)
    ensures
        r@ == continue_step(events@.map_values(|e: ServiceEvent| e@), action@),
{
    StepResult { events, action: Option::Some(action), outcome: Option::None }
}

/// Classifies a command outcome for a step whose non-zero exit means
/// `on_exit`, mirroring `cmd_error`.
fn classify_cmd(o: CmdOutcome, on_exit: ServiceError) -> (r: Option<ServiceError>)
    ensures
        r is None ==> cmd_error(o@, on_exit@) is None,
        r matches Option::Some(e) ==> cmd_error(o@, on_exit@) == Option::Some(e@),
{
    match o {
        CmdOutcome::Failed(m) => Option::Some(ServiceError::Command(m)),
        CmdOutcome::Finished { ok, .. } => if ok {
            Option::None
        } else {
            Option::Some(on_exit)
        },
    }
}

/// Classifies an existence probe's outcome, mirroring `probe_result`.
fn classify_probe(o: CmdOutcome) -> (r: Result<DirProbe, ServiceError>)
    ensures
        r matches Result::Ok(p) ==> probe_result(o@) == Result::<
            DirProbe,
            ServiceErrorView,
        >::Ok(p),
        r matches Result::Err(e) ==> probe_result(o@) == Result::<
            DirProbe,
            ServiceErrorView,
        >::Err(e@),
{
    match o {
        CmdOutcome::Failed(m) => Result::Err(ServiceError::Command(m)),
        CmdOutcome::Finished { ok, stdout } => {
            if !ok {
                Result::Err(ServiceError::Status)
            } else {
                match stdout {
                    Option::None => Result::Err(ServiceError::Parse),
                    Option::Some(s) => match classify_dir_sentinel(s.as_str()) {
                        DirProbe::Exists => Result::Ok(DirProbe::Exists),
                        DirProbe::Missing => Result::Ok(DirProbe::Missing),
                        DirProbe::Unexpected => Result::Err(ServiceError::Unexpected),
                    },
                }
            }
        },
    }
}

/// Builds the discovery command.
fn build_docker_ps() -> (r: CommandSpec)
    ensures
        r@ == docker_ps_cmd(),
{
    let mut args: Vec<String> = Vec::new();
    args.push(String::from_str("ps"));
    args.push(String::from_str("--format"));
    args.push(String::from_str("json"));
    let r = CommandSpec { program: String::from_str("docker"), args, cwd: Option::None };
    proof {
        assert(r@.args =~= docker_ps_cmd().args);
    }
    r
}

/// Builds the existence probe for a directory.
fn build_probe_dir(path: &str) -> (r: CommandSpec)
    ensures
        r@ == probe_dir_cmd(path@),
{
    let test = String::from_str("[ -d ").concat(path).concat(" ] && echo \"Y\" || echo \"N\"");
    let mut args: Vec<String> = Vec::new();
    args.push(String::from_str("-c"));
    args.push(test);
    let r = CommandSpec { program: String::from_str("sh"), args, cwd: Option::None };
    proof {
        assert(r@.args =~= probe_dir_cmd(path@).args);
    }
    r
}

/// Builds the directory-creation command.
fn build_mkdir(path: &str) -> (r: CommandSpec)
    ensures
        r@ == mkdir_cmd(path@),
{
    let mut args: Vec<String> = Vec::new();
    args.push(String::from_str(path));
    let r = CommandSpec { program: String::from_str("mkdir"), args, cwd: Option::None };
    proof {
        assert(r@.args =~= mkdir_cmd(path@).args);
    }
    r
}

/// The identity-override argument for a configured credential file.
fn build_cred_arg(cred_file: &String) -> (r: String)
    ensures
        r@ == " -c \"core.sshCommand=ssh -i "@ + cred_file@ + "\" "@,
{
    String::from_str(" -c \"core.sshCommand=ssh -i ").concat(cred_file.as_str()).concat("\" ")
}

/// Builds the clone command for a just-created staging directory.
fn build_git_clone(service: &Service, repo_dir: &String) -> (r: CommandSpec)
    ensures
        r@ == git_clone_cmd(service@, repo_dir@),
{
    let mut args: Vec<String> = Vec::new();
    args.push(String::from_str("clone"));
    match &service.cred_file {
        Option::Some(cf) => {
            args.push(build_cred_arg(cf));
        },
        Option::None => {},
    }
    args.push(service.repo_url.clone());
    args.push(repo_dir.clone());
    let r = CommandSpec { program: String::from_str("git"), args, cwd: Option::None };
    proof {
        assert(r@.args =~= git_clone_cmd(service@, repo_dir@).args);
    }
    r
}

/// Builds the pull command inside the existing staging directory.
fn build_git_pull(service: &Service, repo_dir: &String) -> (r: CommandSpec)
    ensures
        r@ == git_pull_cmd(service@, repo_dir@),
{
    let mut args: Vec<String> = Vec::new();
    args.push(String::from_str("pull"));
    match &service.cred_file {
        Option::Some(cf) => {
            args.push(build_cred_arg(cf));
        },
        Option::None => {},
    }
    let r = CommandSpec {
        program: String::from_str("git"),
        args,
        cwd: Option::Some(repo_dir.clone()),
    };
    proof {
        assert(r@.args =~= git_pull_cmd(service@, repo_dir@).args);
    }
    r
}

/// Builds the purge of the live directory's contents.
fn build_rm_live_contents(live_dir: &String) -> (r: CommandSpec)
    ensures
        r@ == rm_live_contents_cmd(live_dir@),
{
    let mut args: Vec<String> = Vec::new();
    args.push(String::from_str("-rf"));
    args.push(live_dir.clone().concat("/*"));
    let r = CommandSpec { program: String::from_str("rm"), args, cwd: Option::None };
    proof {
        assert(r@.args =~= rm_live_contents_cmd(live_dir@).args);
    }
    r
}

/// Builds the copy from the staging directory into the live directory.
fn build_copy(repo_dir: &String, live_dir: &String) -> (r: CommandSpec)
    ensures
        r@ == copy_cmd(repo_dir@, live_dir@),
{
    let mut args: Vec<String> = Vec::new();
    args.push(String::from_str("-af"));
    args.push(repo_dir.clone().concat("/."));
    args.push(String::from_str("."));
    let r = CommandSpec {
        program: String::from_str("cp"),
        args,
        cwd: Option::Some(live_dir.clone()),
    };
    proof {
        assert(r@.args =~= copy_cmd(repo_dir@, live_dir@).args);
    }
    r
}

/// Builds the compose stop in the live directory.
fn build_compose_stop(live_dir: &String) -> (r: CommandSpec)
    ensures
        r@ == compose_stop_cmd(live_dir@),
{
    let mut args: Vec<String> = Vec::new();
    args.push(String::from_str("compose"));
    args.push(String::from_str("stop"));
    let r = CommandSpec {
        program: String::from_str("docker"),
        args,
        cwd: Option::Some(live_dir.clone()),
    };
    proof {
        assert(r@.args =~= compose_stop_cmd(live_dir@).args);
    }
    r
}

/// Builds the detached compose start in the live directory.
fn build_compose_up(live_dir: &String) -> (r: CommandSpec)
    ensures
        r@ == compose_up_cmd(live_dir@),
{
    let mut args: Vec<String> = Vec::new();
    args.push(String::from_str("compose"));
    args.push(String::from_str("up"));
    args.push(String::from_str("-d"));
    let r = CommandSpec {
        program: String::from_str("docker"),
        args,
        cwd: Option::Some(live_dir.clone()),
    };
    proof {
        assert(r@.args =~= compose_up_cmd(live_dir@).args);
    }
    r
}

impl Pipeline {
    /// Starts a deployment for the service: publishes the deployment request
    /// and asks the driver to run discovery first. The staging and live
    /// directories are the service's name under the two roots.
    pub fn new(service: Service, repo_root: &str, live_root: &str) -> (r: (Pipeline, StepResult))
        ensures
            r.0@ == init_spec(service@, repo_root@, live_root@).0,
            r.1@ == init_spec(service@, repo_root@, live_root@).1,
    {
        let repo_dir = String::from_str(repo_root).concat("/").concat(service.name.as_str());
        let live_dir = String::from_str(live_root).concat("/").concat(service.name.as_str());
        let id = service.id;
        let p = Pipeline { service, repo_dir, live_dir, phase: PipelinePhase::Discovering };
        let first = continue_with(
            make_update(id, ServiceStatus::DeploymentRequested),
            PipelineAction::RunCommand(build_docker_ps()),
        );
        (p, first)
    }

    /// Whether the pipeline has finished, successfully or not.
    pub fn is_finished(&self) -> (r: bool)
        ensures
            r == (self@.phase == PipelinePhase::Finished),
    {
        self.phase == PipelinePhase::Finished
    }

    /// Advances the machine by one step with the driver's answer, as
    /// `step_spec` says: returns the events to publish in order, the next
    /// action if any, and the pipeline's result once finished.
    pub fn step(&mut self, input: StepInput) -> (r: StepResult)
        ensures
            final(self)@ == (PipelineView {
                phase: step_spec(old(self)@, input@).0,
                ..old(self)@
            }),
            r@ == step_spec(old(self)@, input@).1,
    {
        let id = self.service.id;
        match self.phase {
            PipelinePhase::Discovering => match input {
                StepInput::Command(o) => match o {
                    CmdOutcome::Finished { ok: true, stdout: Option::Some(s) } => {
                        let list = parse_container_list(s.as_str());
                        let running = self.service.is_running(&list);
                        self.phase = PipelinePhase::ProbingStageDir { running };
                        continue_with(
                            no_events(),
                            PipelineAction::RunCommand(build_probe_dir(self.repo_dir.as_str())),
                        )
                    },
                    _ => {
                        self.phase = PipelinePhase::Finished;
                        StepResult {
                            events: make_update(id, ServiceStatus::DiscoveryFailed),
                            action: Option::None,
                            outcome: Option::Some(Result::Err(ServiceError::Discovery)),
                        }
                    },
                },
                StepInput::TagRewrite(_) => {
                    self.phase = PipelinePhase::Finished;
                    abort_with(id, ServiceError::Unknown)
                },
            },
            PipelinePhase::ProbingStageDir { running } => match input {
                StepInput::Command(o) => match classify_probe(o) {
                    Result::Err(e) => {
                        self.phase = PipelinePhase::Finished;
                        abort_with(id, e)
                    },
                    Result::Ok(DirProbe::Exists) => {
                        self.phase = PipelinePhase::CloningOrPulling { running };
                        continue_with(
                            make_update(id, ServiceStatus::Pulling),
                            PipelineAction::RunCommand(
                                build_git_pull(&self.service, &self.repo_dir),
                            ),
                        )
                    },
                    Result::Ok(_) => {
                        self.phase = PipelinePhase::MakingStageDir { running };
                        continue_with(
                            no_events(),
                            PipelineAction::RunCommand(build_mkdir(self.repo_dir.as_str())),
                        )
                    },
                },
                StepInput::TagRewrite(_) => {
                    self.phase = PipelinePhase::Finished;
                    abort_with(id, ServiceError::Unknown)
                },
            },
            PipelinePhase::MakingStageDir { running } => match input {
                StepInput::Command(o) => match classify_cmd(o, ServiceError::Status) {
                    Option::Some(e) => {
                        self.phase = PipelinePhase::Finished;
                        abort_with(id, e)
                    },
                    Option::None => {
                        self.phase = PipelinePhase::CloningOrPulling { running };
                        continue_with(
                            make_update(id, ServiceStatus::Cloning),
                            PipelineAction::RunCommand(
                                build_git_clone(&self.service, &self.repo_dir),
                            ),
                        )
                    },
                },
                StepInput::TagRewrite(_) => {
                    self.phase = PipelinePhase::Finished;
                    abort_with(id, ServiceError::Unknown)
                },
            },
            PipelinePhase::CloningOrPulling { running } => match input {
                StepInput::Command(o) => match classify_cmd(o, ServiceError::CloneOrPull) {
                    Option::Some(e) => {
                        self.phase = PipelinePhase::Finished;
                        abort_with(id, e)
                    },
                    Option::None => {
                        self.phase = PipelinePhase::ProbingLiveDir { running };
                        continue_with(
                            make_update(id, ServiceStatus::Copying),
                            PipelineAction::RunCommand(build_probe_dir(self.live_dir.as_str())),
                        )
                    },
                },
                StepInput::TagRewrite(_) => {
                    self.phase = PipelinePhase::Finished;
                    abort_with(id, ServiceError::Unknown)
                },
            },
            PipelinePhase::ProbingLiveDir { running } => match input {
                StepInput::Command(o) => match classify_probe(o) {
                    Result::Err(e) => {
                        self.phase = PipelinePhase::Finished;
                        abort_with(id, e)
                    },
                    Result::Ok(DirProbe::Exists) => {
                        self.phase = PipelinePhase::RemovingLiveContents { running };
                        continue_with(
                            no_events(),
                            PipelineAction::RunCommand(build_rm_live_contents(&self.live_dir)),
                        )
                    },
                    Result::Ok(_) => {
                        self.phase = PipelinePhase::MakingLiveDir { running };
                        continue_with(
                            no_events(),
                            PipelineAction::RunCommand(build_mkdir(self.live_dir.as_str())),
                        )
                    },
                },
                StepInput::TagRewrite(_) => {
                    self.phase = PipelinePhase::Finished;
                    abort_with(id, ServiceError::Unknown)
                },
            },
            PipelinePhase::MakingLiveDir { running } => match input {
                StepInput::Command(o) => match classify_cmd(o, ServiceError::Status) {
                    Option::Some(e) => {
                        self.phase = PipelinePhase::Finished;
                        abort_with(id, e)
                    },
                    Option::None => {
                        self.phase = PipelinePhase::CopyingToLive { running };
                        continue_with(
                            no_events(),
                            PipelineAction::RunCommand(
                                build_copy(&self.repo_dir, &self.live_dir),
                            ),
                        )
                    },
                },
                StepInput::TagRewrite(_) => {
                    self.phase = PipelinePhase::Finished;
                    abort_with(id, ServiceError::Unknown)
                },
            },
            PipelinePhase::RemovingLiveContents { running } => match input {
                StepInput::Command(o) => match classify_cmd(o, ServiceError::Remove) {
                    Option::Some(e) => {
                        self.phase = PipelinePhase::Finished;
                        abort_with(id, e)
                    },
                    Option::None => {
                        self.phase = PipelinePhase::CopyingToLive { running };
                        continue_with(
                            no_events(),
                            PipelineAction::RunCommand(
                                build_copy(&self.repo_dir, &self.live_dir),
                            ),
                        )
                    },
                },
                StepInput::TagRewrite(_) => {
                    self.phase = PipelinePhase::Finished;
                    abort_with(id, ServiceError::Unknown)
                },
            },
            PipelinePhase::CopyingToLive { running } => match input {
                StepInput::Command(o) => match classify_cmd(o, ServiceError::Copy) {
                    Option::Some(e) => {
                        self.phase = PipelinePhase::Finished;
                        abort_with(id, e)
                    },
                    Option::None => {
                        self.phase = PipelinePhase::RewritingTags { running };
                        continue_with(
                            make_update(id, ServiceStatus::RewritingConfig),
                            PipelineAction::RewriteTags { live_dir: self.live_dir.clone() },
                        )
                    },
                },
                StepInput::TagRewrite(_) => {
                    self.phase = PipelinePhase::Finished;
                    abort_with(id, ServiceError::Unknown)
                },
            },
            PipelinePhase::RewritingTags { running } => match input {
                StepInput::TagRewrite(res) => match res {
                    Result::Err(e) => {
                        self.phase = PipelinePhase::Finished;
                        abort_with(id, e)
                    },
                    Result::Ok(_) => if running {
                        self.phase = PipelinePhase::StoppingService;
                        continue_with(
                            make_update(id, ServiceStatus::Stopping),
                            PipelineAction::RunCommand(build_compose_stop(&self.live_dir)),
                        )
                    } else {
                        self.phase = PipelinePhase::StartingService;
                        continue_with(
                            make_update(id, ServiceStatus::Starting),
                            PipelineAction::RunCommand(build_compose_up(&self.live_dir)),
                        )
                    },
                },
                StepInput::Command(_) => {
                    self.phase = PipelinePhase::Finished;
                    abort_with(id, ServiceError::Unknown)
                },
            },
            PipelinePhase::StoppingService => match input {
                StepInput::Command(o) => match classify_cmd(o, ServiceError::Stop) {
                    Option::Some(e) => {
                        self.phase = PipelinePhase::Finished;
                        abort_with(id, e)
                    },
                    Option::None => {
                        self.phase = PipelinePhase::StartingService;
                        continue_with(
                            make_update(id, ServiceStatus::Starting),
                            PipelineAction::RunCommand(build_compose_up(&self.live_dir)),
                        )
                    },
                },
                StepInput::TagRewrite(_) => {
                    self.phase = PipelinePhase::Finished;
                    abort_with(id, ServiceError::Unknown)
                },
            },
            PipelinePhase::StartingService => match input {
                StepInput::Command(o) => match classify_cmd(o, ServiceError::Start) {
                    Option::Some(e) => {
                        self.phase = PipelinePhase::Finished;
                        abort_with(id, e)
                    },
                    Option::None => {
                        self.phase = PipelinePhase::Finished;
                        StepResult {
                            events: no_events(),
                            action: Option::None,
                            outcome: Option::Some(Result::Ok(())),
                        }
                    },
                },
                StepInput::TagRewrite(_) => {
                    self.phase = PipelinePhase::Finished;
                    abort_with(id, ServiceError::Unknown)
                },
            },
            PipelinePhase::Finished => StepResult {
                events: no_events(),
                action: Option::None,
                outcome: Option::None,
            },
        }
    }
}

/// The terminal update the pipeline's caller publishes: `Running` on full
/// success, and nothing on failure — the pipeline has already published the
/// failure's status itself.
pub fn terminal_update(id: i64, outcome: &Result<(), ServiceError>) -> (r: Option<ServiceEvent>)
    ensures
        outcome is Ok ==> (r matches Option::Some(e) && e@ == update_event(
            id as int,
            ServiceStatusView::Running,
        )),
        outcome is Err ==> r is None,
{
    match outcome {
        Result::Ok(_) => Option::Some(
            ServiceEvent::ServiceUpdate { id, status: ServiceStatus::Running },
        ),
        Result::Err(_) => Option::None,
    }
}

/// What a deploy request does when the service could not be fetched from the
/// store: the failure is published as an unstructured error notification and
/// the unknown error is returned — no pipeline starts.
pub fn rejected_deployment(e: &DBError) -> (r: (ServiceEvent, ServiceError))
    ensures
        r.0@ == (ServiceEventView::UnknownEvent { msg: db_error_message(e@) }),
        r.1@ == ServiceErrorView::Unknown,
{
    (ServiceEvent::UnknownEvent { msg: e.message() }, ServiceError::Unknown)
}

} // verus!
