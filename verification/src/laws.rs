use crate::error::{BackendErrorView, PathKind};
use crate::launch::LaunchContextView;
use crate::supervisor::{StartStepView, SupervisorState};
use crate::termination::TerminationStep;
use vstd::prelude::*;

verus! {

/// Every state that the supervisor's operations lead to from the initial
/// one holds a handle exactly when its flag is set.
pub proof fn lemma_consistency_kept<H>(state: SupervisorState<H>, child: H)
    ensures
        SupervisorState::<H>::initial().consistent(),
        state.spawn_recorded(child).consistent(),
        state.stopped().consistent(),
{
}

/// Start is idempotent: once a start has succeeded and its child is
/// recorded, the flag is set, and a further start request asks for no spawn
/// and succeeds, whatever the context holds.
pub proof fn lemma_start_idempotent<H>(
    state: SupervisorState<H>,
    child: H,
    ctx: LaunchContextView,
)
    ensures
        state.spawn_recorded(child).running,
        state.spawn_recorded(child).handle == Some(child),
        state.spawn_recorded(child).start_decision(ctx) == Ok::<StartStepView, BackendErrorView>(
            StartStepView::AlreadyRunning,
        ),
{
}

/// Stop is always safe: on a supervisor that never started anything it
/// changes nothing, gives up no handle, and the flag stays clear.
pub proof fn lemma_stop_when_idle<H>()
    ensures
        SupervisorState::<H>::initial().stopped() == SupervisorState::<H>::initial(),
        SupervisorState::<H>::initial().handle.is_none(),
        !SupervisorState::<H>::initial().stopped().running,
{
}

/// Stop clears the state: after a successful start, a stop leaves the flag
/// clear and no handle held. The outcomes of the kill and of the wait have
/// no part in it: each failure only yields a warning, and the wait follows
/// the kill even where the kill failed.
pub proof fn lemma_stop_clears<H>(
    state: SupervisorState<H>,
    child: H,
    kill: Result<(), Seq<char>>,
    wait: Result<(), Seq<char>>,
)
    ensures
        !state.spawn_recorded(child).stopped().running,
        state.spawn_recorded(child).stopped().handle.is_none(),
        TerminationStep::Kill.spec_next() == Some(TerminationStep::Wait),
        TerminationStep::Wait.spec_next().is_none(),
        TerminationStep::Kill.spec_warning(kill).is_some() == kill.is_err(),
        TerminationStep::Wait.spec_warning(wait).is_some() == wait.is_err(),
{
}

/// Validation precedes the spawn: a start request on a supervisor that
/// manages nothing, with the application-data directory resolved and the
/// backend directory absent, is answered with the error that names that
/// directory, and so with no request to spawn.
pub proof fn lemma_missing_backend_dir_blocks_spawn<H>(
    state: SupervisorState<H>,
    ctx: LaunchContextView,
)
    requires
        !state.running,
        ctx.app_data_dir.is_ok(),
        !ctx.backend_dir.exists,
    ensures
        state.start_decision(ctx) == Err::<StartStepView, BackendErrorView>(
            BackendErrorView::PathNotFound {
                kind: PathKind::BackendDirectory,
                path: ctx.backend_dir.path,
            },
        ),
{
}

/// A start request asks for a spawn only where nothing is managed, the
/// application-data directory was resolved and all three entries exist;
/// the configuration is then the one that the context gives.
pub proof fn lemma_spawn_only_when_valid<H>(state: SupervisorState<H>, ctx: LaunchContextView)
    ensures
        (state.start_decision(ctx) matches Ok(StartStepView::Spawn(config)) && config
            == ctx.launch_config()) <==> (!state.running && ctx.app_data_dir.is_ok()
            && ctx.backend_dir.exists && ctx.config_file.exists && ctx.data_dir.exists),
{
}

/// Restart is a stop followed by a start. Whatever was managed before, the
/// start request that follows the stop is answered as on a supervisor that
/// never started anything; once the new child is recorded the flag is set
/// and the handle held is the new child's, the former one having been given
/// up for termination.
pub proof fn lemma_restart_composition<H>(
    state: SupervisorState<H>,
    ctx: LaunchContextView,
    child: H,
)
    ensures
        state.stopped() == SupervisorState::<H>::initial(),
        state.stopped().start_decision(ctx) == SupervisorState::<H>::initial().start_decision(
            ctx,
        ),
        state.stopped().spawn_recorded(child).running,
        state.stopped().spawn_recorded(child).handle == Some(child),
        state.handle != Some(child) ==> state.stopped().spawn_recorded(child).handle
            != state.handle,
{
}

} // verus!
