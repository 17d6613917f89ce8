//! Whole-run laws of the deployment pipeline.
//!
//! `run_spec` folds the machine's transition over a sequence of driver
//! answers and collects every event published on the way. The laws here pin
//! down the pipeline's externally visible behavior: the exact event sequence
//! of a full first deployment and of a redeployment over a running service,
//! and the immediate aborts after a discovery or clone-or-pull failure. The
//! terminal `Running` update is the caller's, published through
//! `terminal_update` on a successful outcome, and so stands after these
//! sequences.

use vstd::prelude::*;

use crate::bus::ServiceEventView;
use crate::docker::{is_running_spec, parse_lines_spec};
use crate::pipeline::{
    init_spec, ok_outcome, step_spec, update_event, CmdOutcomeView, PipelinePhase, PipelineView,
    StepInputView,
};
use crate::service::ServiceView;
use crate::status::{ServiceErrorView, ServiceStatusView};

verus! {

/// Folds the machine over a sequence of driver answers: the phase it ends
/// in, and every event published along the way, in order.
pub open spec fn run_spec(p: PipelineView, inputs: Seq<StepInputView>) -> (
    PipelinePhase,
    Seq<ServiceEventView>,
)
    decreases inputs.len(),
{
    if inputs.len() == 0 {
        (p.phase, Seq::empty())
    } else {
        let first = step_spec(p, inputs[0]);
        let rest = run_spec(
            PipelineView { phase: first.0, ..p },
            inputs.drop_first(),
        );
        (rest.0, first.1.events + rest.1)
    }
}

/// A discovery answer the pipeline can work with: the listing command
/// finished successfully and its output decoded.
pub open spec fn discovery_ok(o: CmdOutcomeView) -> bool {
    o matches CmdOutcomeView::Finished { ok: true, stdout: Option::Some(_) }
}

/// A finished pipeline stays finished and publishes nothing more, whatever
/// answers are still fed to it.
pub proof fn lemma_finished_absorbs(p: PipelineView, inputs: Seq<StepInputView>)
    requires
        p.phase == PipelinePhase::Finished,
    ensures
        run_spec(p, inputs).0 == PipelinePhase::Finished,
        run_spec(p, inputs).1 == Seq::<ServiceEventView>::empty(),
    decreases inputs.len(),
{
    if inputs.len() > 0 {
        let first = step_spec(p, inputs[0]);
        lemma_finished_absorbs(PipelineView { phase: first.0, ..p }, inputs.drop_first());
        assert(run_spec(p, inputs).1 =~= Seq::<ServiceEventView>::empty());
    }
}

/// A full successful deployment of a never-before-deployed service — the
/// staging and live directories both missing — publishes, in order, exactly:
/// DeploymentRequested, Cloning, Copying, RewritingConfig, Starting; and
/// never Pulling or Stopping. The caller then publishes the terminal
/// Running update. This holds whatever the successful creation, clone, copy
/// and start outcomes carried as output.
pub proof fn lemma_fresh_deploy_events(
    sv: ServiceView,
    repo_root: Seq<char>,
    live_root: Seq<char>,
    listing: Seq<char>,
    mk_stage: CmdOutcomeView,
    clone_run: CmdOutcomeView,
    mk_live: CmdOutcomeView,
    copy_run: CmdOutcomeView,
    start_run: CmdOutcomeView,
)
    requires
        !is_running_spec(sv.name, parse_lines_spec(listing)),
        ok_outcome(mk_stage),
        ok_outcome(clone_run),
        ok_outcome(mk_live),
        ok_outcome(copy_run),
        ok_outcome(start_run),
    ensures
        ({
            let init = init_spec(sv, repo_root, live_root);
            let inputs = seq![
                StepInputView::Command(
                    CmdOutcomeView::Finished { ok: true, stdout: Option::Some(listing) },
                ),
                StepInputView::Command(
                    CmdOutcomeView::Finished { ok: true, stdout: Option::Some("N\n"@) },
                ),
                StepInputView::Command(mk_stage),
                StepInputView::Command(clone_run),
                StepInputView::Command(
                    CmdOutcomeView::Finished { ok: true, stdout: Option::Some("N\n"@) },
                ),
                StepInputView::Command(mk_live),
                StepInputView::Command(copy_run),
                StepInputView::TagRewrite(Result::Ok(())),
                StepInputView::Command(start_run),
            ];
            let run = run_spec(init.0, inputs);
            let events = init.1.events + run.1;
            &&& events =~= seq![
                update_event(sv.id, ServiceStatusView::DeploymentRequested),
                update_event(sv.id, ServiceStatusView::Cloning),
                update_event(sv.id, ServiceStatusView::Copying),
                update_event(sv.id, ServiceStatusView::RewritingConfig),
                update_event(sv.id, ServiceStatusView::Starting),
            ]
            &&& !events.contains(update_event(sv.id, ServiceStatusView::Pulling))
            &&& !events.contains(update_event(sv.id, ServiceStatusView::Stopping))
            &&& run.0 == PipelinePhase::Finished
        }),
{
    reveal_with_fuel(run_spec, 11);
    let init = init_spec(sv, repo_root, live_root);
    let in0 = StepInputView::Command(
        CmdOutcomeView::Finished { ok: true, stdout: Option::Some(listing) },
    );
    let in1 = StepInputView::Command(
        CmdOutcomeView::Finished { ok: true, stdout: Option::Some("N\n"@) },
    );
    let in2 = StepInputView::Command(mk_stage);
    let in3 = StepInputView::Command(clone_run);
    let in4 = StepInputView::Command(
        CmdOutcomeView::Finished { ok: true, stdout: Option::Some("N\n"@) },
    );
    let in5 = StepInputView::Command(mk_live);
    let in6 = StepInputView::Command(copy_run);
    let in7 = StepInputView::TagRewrite(Result::Ok(()));
    let in8 = StepInputView::Command(start_run);
    let inputs = seq![in0, in1, in2, in3, in4, in5, in6, in7, in8];
    reveal_strlit("Y\n");
    reveal_strlit("N\n");
    assert(crate::staging::classify_sentinel("N\n"@) == crate::staging::DirProbe::Missing);
    assert(inputs.drop_first() =~= seq![in1, in2, in3, in4, in5, in6, in7, in8]);
    assert(seq![in1, in2, in3, in4, in5, in6, in7, in8].drop_first() =~= seq![
        in2, in3, in4, in5, in6, in7, in8,
    ]);
    assert(seq![in2, in3, in4, in5, in6, in7, in8].drop_first() =~= seq![
        in3, in4, in5, in6, in7, in8,
    ]);
    assert(seq![in3, in4, in5, in6, in7, in8].drop_first() =~= seq![in4, in5, in6, in7, in8]);
    assert(seq![in4, in5, in6, in7, in8].drop_first() =~= seq![in5, in6, in7, in8]);
    assert(seq![in5, in6, in7, in8].drop_first() =~= seq![in6, in7, in8]);
    assert(seq![in6, in7, in8].drop_first() =~= seq![in7, in8]);
    assert(seq![in7, in8].drop_first() =~= seq![in8]);
    assert(seq![in8].drop_first() =~= Seq::<StepInputView>::empty());
    let run = run_spec(init.0, inputs);
    let events = init.1.events + run.1;
    assert(events =~= seq![
        update_event(sv.id, ServiceStatusView::DeploymentRequested),
        update_event(sv.id, ServiceStatusView::Cloning),
        update_event(sv.id, ServiceStatusView::Copying),
        update_event(sv.id, ServiceStatusView::RewritingConfig),
        update_event(sv.id, ServiceStatusView::Starting),
    ]);
}

/// A full successful deployment of an already-staged, currently-running
/// service — both directories exist and discovery finds the service's
/// container running — publishes, in order, exactly: DeploymentRequested,
/// Pulling, Copying, RewritingConfig, Stopping, Starting. The caller then
/// publishes the terminal Running update.
pub proof fn lemma_redeploy_running_events(
    sv: ServiceView,
    repo_root: Seq<char>,
    live_root: Seq<char>,
    listing: Seq<char>,
    pull_run: CmdOutcomeView,
    rm_run: CmdOutcomeView,
    copy_run: CmdOutcomeView,
    stop_run: CmdOutcomeView,
    start_run: CmdOutcomeView,
)
    requires
        is_running_spec(sv.name, parse_lines_spec(listing)),
        ok_outcome(pull_run),
        ok_outcome(rm_run),
        ok_outcome(copy_run),
        ok_outcome(stop_run),
        ok_outcome(start_run),
    ensures
        ({
            let init = init_spec(sv, repo_root, live_root);
            let inputs = seq![
                StepInputView::Command(
                    CmdOutcomeView::Finished { ok: true, stdout: Option::Some(listing) },
                ),
                StepInputView::Command(
                    CmdOutcomeView::Finished { ok: true, stdout: Option::Some("Y\n"@) },
                ),
                StepInputView::Command(pull_run),
                StepInputView::Command(
                    CmdOutcomeView::Finished { ok: true, stdout: Option::Some("Y\n"@) },
                ),
                StepInputView::Command(rm_run),
                StepInputView::Command(copy_run),
                StepInputView::TagRewrite(Result::Ok(())),
                StepInputView::Command(stop_run),
                StepInputView::Command(start_run),
            ];
            let run = run_spec(init.0, inputs);
            let events = init.1.events + run.1;
            &&& events =~= seq![
                update_event(sv.id, ServiceStatusView::DeploymentRequested),
                update_event(sv.id, ServiceStatusView::Pulling),
                update_event(sv.id, ServiceStatusView::Copying),
                update_event(sv.id, ServiceStatusView::RewritingConfig),
                update_event(sv.id, ServiceStatusView::Stopping),
                update_event(sv.id, ServiceStatusView::Starting),
            ]
            &&& run.0 == PipelinePhase::Finished
        }),
{
    reveal_with_fuel(run_spec, 11);
    let init = init_spec(sv, repo_root, live_root);
    let in0 = StepInputView::Command(
        CmdOutcomeView::Finished { ok: true, stdout: Option::Some(listing) },
    );
    let in1 = StepInputView::Command(
        CmdOutcomeView::Finished { ok: true, stdout: Option::Some("Y\n"@) },
    );
    let in2 = StepInputView::Command(pull_run);
    let in3 = StepInputView::Command(
        CmdOutcomeView::Finished { ok: true, stdout: Option::Some("Y\n"@) },
    );
    let in4 = StepInputView::Command(rm_run);
    let in5 = StepInputView::Command(copy_run);
    let in6 = StepInputView::TagRewrite(Result::Ok(()));
    let in7 = StepInputView::Command(stop_run);
    let in8 = StepInputView::Command(start_run);
    let inputs = seq![in0, in1, in2, in3, in4, in5, in6, in7, in8];
    reveal_strlit("Y\n");
    assert(crate::staging::classify_sentinel("Y\n"@) == crate::staging::DirProbe::Exists);
    assert(inputs.drop_first() =~= seq![in1, in2, in3, in4, in5, in6, in7, in8]);
    assert(seq![in1, in2, in3, in4, in5, in6, in7, in8].drop_first() =~= seq![
        in2, in3, in4, in5, in6, in7, in8,
    ]);
    assert(seq![in2, in3, in4, in5, in6, in7, in8].drop_first() =~= seq![
        in3, in4, in5, in6, in7, in8,
    ]);
    assert(seq![in3, in4, in5, in6, in7, in8].drop_first() =~= seq![in4, in5, in6, in7, in8]);
    assert(seq![in4, in5, in6, in7, in8].drop_first() =~= seq![in5, in6, in7, in8]);
    assert(seq![in5, in6, in7, in8].drop_first() =~= seq![in6, in7, in8]);
    assert(seq![in6, in7, in8].drop_first() =~= seq![in7, in8]);
    assert(seq![in7, in8].drop_first() =~= seq![in8]);
    assert(seq![in8].drop_first() =~= Seq::<StepInputView>::empty());
    let run = run_spec(init.0, inputs);
    let events = init.1.events + run.1;
    assert(events =~= seq![
        update_event(sv.id, ServiceStatusView::DeploymentRequested),
        update_event(sv.id, ServiceStatusView::Pulling),
        update_event(sv.id, ServiceStatusView::Copying),
        update_event(sv.id, ServiceStatusView::RewritingConfig),
        update_event(sv.id, ServiceStatusView::Stopping),
        update_event(sv.id, ServiceStatusView::Starting),
    ]);
}

/// If discovery fails — the listing could not be invoked, exited non-zero,
/// or produced undecodable output — exactly two events are published,
/// DeploymentRequested then DiscoveryFailed, the typed discovery error is
/// returned, and no further action is requested: no staging, clone, copy,
/// tag or start step executes.
pub proof fn lemma_discovery_failure_aborts(
    sv: ServiceView,
    repo_root: Seq<char>,
    live_root: Seq<char>,
    discovery: CmdOutcomeView,
)
    requires
        !discovery_ok(discovery),
    ensures
        ({
            let init = init_spec(sv, repo_root, live_root);
            let after = step_spec(init.0, StepInputView::Command(discovery));
            &&& init.1.events + after.1.events =~= seq![
                update_event(sv.id, ServiceStatusView::DeploymentRequested),
                update_event(sv.id, ServiceStatusView::DiscoveryFailed),
            ]
            &&& after.1.outcome == Option::Some(
                Result::<(), ServiceErrorView>::Err(ServiceErrorView::Discovery),
            )
            &&& after.1.action is None
            &&& after.0 == PipelinePhase::Finished
        }),
{
}

/// If the pull inside an existing staging directory exits non-zero, the
/// pipeline publishes exactly DeploymentRequested, Pulling,
/// CloneOrPullFailed, returns the typed clone-or-pull error and requests
/// nothing more: copy, tag-rewrite, stop and start never run.
pub proof fn lemma_pull_failure_aborts(
    sv: ServiceView,
    repo_root: Seq<char>,
    live_root: Seq<char>,
    listing: Seq<char>,
    pull_run: CmdOutcomeView,
)
    requires
        pull_run matches CmdOutcomeView::Finished { ok: false, .. },
    ensures
        ({
            let init = init_spec(sv, repo_root, live_root);
            let inputs = seq![
                StepInputView::Command(
                    CmdOutcomeView::Finished { ok: true, stdout: Option::Some(listing) },
                ),
                StepInputView::Command(
                    CmdOutcomeView::Finished { ok: true, stdout: Option::Some("Y\n"@) },
                ),
                StepInputView::Command(pull_run),
            ];
            let run = run_spec(init.0, inputs);
            &&& init.1.events + run.1 =~= seq![
                update_event(sv.id, ServiceStatusView::DeploymentRequested),
                update_event(sv.id, ServiceStatusView::Pulling),
                update_event(sv.id, ServiceStatusView::CloneOrPullFailed),
            ]
            &&& run.0 == PipelinePhase::Finished
            &&& step_spec(
                PipelineView { phase: PipelinePhase::CloningOrPulling { running: is_running_spec(sv.name, parse_lines_spec(listing)) }, ..init.0 },
                StepInputView::Command(pull_run),
            ).1.outcome == Option::Some(
                Result::<(), ServiceErrorView>::Err(ServiceErrorView::CloneOrPull),
            )
        }),
{
    reveal_with_fuel(run_spec, 5);
    let init = init_spec(sv, repo_root, live_root);
    let in0 = StepInputView::Command(
        CmdOutcomeView::Finished { ok: true, stdout: Option::Some(listing) },
    );
    let in1 = StepInputView::Command(
        CmdOutcomeView::Finished { ok: true, stdout: Option::Some("Y\n"@) },
    );
    let in2 = StepInputView::Command(pull_run);
    let inputs = seq![in0, in1, in2];
    reveal_strlit("Y\n");
    assert(crate::staging::classify_sentinel("Y\n"@) == crate::staging::DirProbe::Exists);
    assert(inputs.drop_first() =~= seq![in1, in2]);
    assert(seq![in1, in2].drop_first() =~= seq![in2]);
    assert(seq![in2].drop_first() =~= Seq::<StepInputView>::empty());
    let run = run_spec(init.0, inputs);
    assert(init.1.events + run.1 =~= seq![
        update_event(sv.id, ServiceStatusView::DeploymentRequested),
        update_event(sv.id, ServiceStatusView::Pulling),
        update_event(sv.id, ServiceStatusView::CloneOrPullFailed),
    ]);
}

/// If the clone into a just-created staging directory exits non-zero, the
/// pipeline publishes exactly DeploymentRequested, Cloning,
/// CloneOrPullFailed, returns the typed clone-or-pull error and requests
/// nothing more: copy, tag-rewrite, stop and start never run.
pub proof fn lemma_clone_failure_aborts(
    sv: ServiceView,
    repo_root: Seq<char>,
    live_root: Seq<char>,
    listing: Seq<char>,
    mk_stage: CmdOutcomeView,
    clone_run: CmdOutcomeView,
)
    requires
        ok_outcome(mk_stage),
        clone_run matches CmdOutcomeView::Finished { ok: false, .. },
    ensures
        ({
            let init = init_spec(sv, repo_root, live_root);
            let inputs = seq![
                StepInputView::Command(
                    CmdOutcomeView::Finished { ok: true, stdout: Option::Some(listing) },
                ),
                StepInputView::Command(
                    CmdOutcomeView::Finished { ok: true, stdout: Option::Some("N\n"@) },
                ),
                StepInputView::Command(mk_stage),
                StepInputView::Command(clone_run),
            ];
            let run = run_spec(init.0, inputs);
            &&& init.1.events + run.1 =~= seq![
                update_event(sv.id, ServiceStatusView::DeploymentRequested),
                update_event(sv.id, ServiceStatusView::Cloning),
                update_event(sv.id, ServiceStatusView::CloneOrPullFailed),
            ]
            &&& run.0 == PipelinePhase::Finished
        }),
{
    reveal_with_fuel(run_spec, 6);
    let init = init_spec(sv, repo_root, live_root);
    let in0 = StepInputView::Command(
        CmdOutcomeView::Finished { ok: true, stdout: Option::Some(listing) },
    );
    let in1 = StepInputView::Command(
        CmdOutcomeView::Finished { ok: true, stdout: Option::Some("N\n"@) },
    );
    let in2 = StepInputView::Command(mk_stage);
    let in3 = StepInputView::Command(clone_run);
    let inputs = seq![in0, in1, in2, in3];
    reveal_strlit("Y\n");
    reveal_strlit("N\n");
    assert(crate::staging::classify_sentinel("N\n"@) == crate::staging::DirProbe::Missing);
    assert(inputs.drop_first() =~= seq![in1, in2, in3]);
    assert(seq![in1, in2, in3].drop_first() =~= seq![in2, in3]);
    assert(seq![in2, in3].drop_first() =~= seq![in3]);
    assert(seq![in3].drop_first() =~= Seq::<StepInputView>::empty());
    let run = run_spec(init.0, inputs);
    assert(init.1.events + run.1 =~= seq![
        update_event(sv.id, ServiceStatusView::DeploymentRequested),
        update_event(sv.id, ServiceStatusView::Cloning),
        update_event(sv.id, ServiceStatusView::CloneOrPullFailed),
    ]);
}

} // verus!
