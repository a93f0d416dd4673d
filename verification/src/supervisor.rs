use crate::error::{BackendError, BackendErrorView};
use crate::launch::{LaunchConfig, LaunchConfigView, LaunchContext, LaunchContextView};
use vstd::prelude::*;

verus! {

/// Seconds the host waits after a successful spawn before it treats the
/// server as ready. The child is not asked whether it is.
pub const READINESS_DELAY_SECS: u64 = 2;

/// Seconds the host waits between the stop and the start of a restart, so
/// that the former child's port is free again.
pub const RESTART_PAUSE_SECS: u64 = 1;

/// What a supervisor holds: at most one handle, and its own belief whether a
/// child is being managed.
pub struct SupervisorState<H> {
    pub handle: Option<H>,
    pub running: bool,
}

/// What the host does next for a start request.
#[derive(Debug)]
pub enum StartStep {
    /// A child is managed already: nothing is spawned, the request succeeds.
    AlreadyRunning,
    /// Spawn a child with this configuration and report the outcome to
    /// `PythonBackend::spawn_finished`.
    Spawn(LaunchConfig),
}

/// A `StartStep` over the view of its configuration.
pub enum StartStepView {
    AlreadyRunning,
    Spawn(LaunchConfigView),
}

impl View for StartStep {
    type V = StartStepView;

    open spec fn view(&self) -> StartStepView {
        match *self {
            StartStep::AlreadyRunning => StartStepView::AlreadyRunning,
            StartStep::Spawn(config) => StartStepView::Spawn(config@),
        }
    }
}

/// What the host does first for a restart request: it terminates and reaps
/// the former child, if there is one, and pauses; then it starts.
pub struct Restart<H> {
    pub terminate: Option<H>,
    pub pause_secs: u64,
}

impl<H> SupervisorState<H> {
    /// Nothing is managed.
    pub open spec fn initial() -> Self {
        SupervisorState { handle: None, running: false }
    }

    /// A handle is held exactly when the flag is set.
    pub open spec fn consistent(self) -> bool {
        self.handle.is_some() == self.running
    }

    /// The answer to a start request: no spawn while a child is managed,
    /// else what the context's launch plan says.
    pub open spec fn start_decision(self, ctx: LaunchContextView) -> Result<
        StartStepView,
        BackendErrorView,
    > {
        if self.running {
            Ok(StartStepView::AlreadyRunning)
        } else {
            match ctx.plan() {
                Ok(config) => Ok(StartStepView::Spawn(config)),
                Err(error) => Err(error),
            }
        }
    }

    /// The state once the spawned `child` is recorded.
    pub open spec fn spawn_recorded(self, child: H) -> Self {
        SupervisorState { handle: Some(child), running: true }
    }

    /// The state once a stop was requested.
    pub open spec fn stopped(self) -> Self {
        SupervisorState { handle: None, running: false }
    }
}

/// Owner of at most one child-process handle of type `H`, with the flag that
/// records whether a child is being managed. The host spawns, terminates and
/// waits; every decision about when to do so is taken here.
pub struct PythonBackend<H> {
    process: Option<H>,
    is_running: bool,
}

impl<H> View for PythonBackend<H> {
    type V = SupervisorState<H>;

    closed spec fn view(&self) -> SupervisorState<H> {
        SupervisorState { handle: self.process, running: self.is_running }
    }
}

impl<H> PythonBackend<H> {
    /// Between operations a handle is held exactly when the flag is set.
    #[verifier::type_invariant]
    closed spec fn steady(&self) -> bool {
        self.process.is_some() == self.is_running
    }

    /// A supervisor that manages nothing.
    pub fn new() -> (backend: Self)
        ensures
            backend@ == SupervisorState::<H>::initial(),
    {
        PythonBackend { process: None, is_running: false }
    }

    /// The supervisor's last known state; the child itself is not asked.
    /// A handle is held exactly when the answer is `true`.
    pub fn is_running(&self) -> (running: bool)
        ensures
            running == self@.running,
            self@.consistent(),
    {
        proof {
            use_type_invariant(self);
        }
        self.is_running
    }

    /// Answers a start request. While a child is managed nothing is to be
    /// spawned. Otherwise the context is validated before any spawn: an
    /// unresolved application-data directory or an absent entry is the
    /// error, and only a complete context gives a configuration to spawn.
    /// The state changes when the spawn's outcome is reported.
    pub fn start(&self, ctx: &LaunchContext) -> (step: Result<StartStep, BackendError>)
        ensures
            match step {
                Ok(next) => self@.start_decision(ctx@) == Ok::<StartStepView, BackendErrorView>(
                    next@,
                ),
                Err(error) => self@.start_decision(ctx@) == Err::<StartStepView, BackendErrorView>(
                    error@,
                ),
            },
    {
        if self.is_running {
            return Ok(StartStep::AlreadyRunning);
        }
        match ctx.plan() {
            Ok(config) => Ok(StartStep::Spawn(config)),
            Err(error) => Err(error),
        }
    }

    /// Records the outcome of the spawn that `start` asked for. A child is
    /// kept and the flag set; the host then waits the returned number of
    /// seconds. A failure leaves the state as it was and is handed back with
    /// the operating system's reason. Where two start requests raced and
    /// both spawned, the child recorded last is the one held; the other is
    /// let go of without being terminated.
    pub fn spawn_finished(&mut self, outcome: Result<H, String>) -> (started: Result<
        u64,
        BackendError,
    >)
        ensures
            match outcome {
                Ok(child) => {
                    &&& final(self)@ == old(self)@.spawn_recorded(child)
                    &&& started == Ok::<u64, BackendError>(READINESS_DELAY_SECS)
                },
                Err(reason) => {
                    &&& final(self)@ == old(self)@
                    &&& started == Err::<u64, BackendError>(BackendError::Spawn { reason })
                },
            },
    {
        match outcome {
            Ok(child) => {
                *self = PythonBackend { process: Some(child), is_running: true };
                Ok(READINESS_DELAY_SECS)
            },
            Err(reason) => Err(BackendError::Spawn { reason }),
        }
    }

    /// Gives up the handle, if one is held, and clears the flag. The host
    /// terminates and reaps the returned child; whatever comes of that, this
    /// supervisor manages nothing afterwards.
    pub fn stop(&mut self) -> (held: Option<H>)
        ensures
            held == old(self)@.handle,
            final(self)@ == old(self)@.stopped(),
    {
        let mut former = PythonBackend { process: None, is_running: false };
        core::mem::swap(self, &mut former);
        former.process
    }

    /// Begins a restart: a stop, with the pause that the host keeps before
    /// it goes on with `start`.
    pub fn restart(&mut self) -> (plan: Restart<H>)
        ensures
            plan.terminate == old(self)@.handle,
            plan.pause_secs == RESTART_PAUSE_SECS,
            final(self)@ == old(self)@.stopped(),
    {
        let terminate = self.stop();
        Restart { terminate, pause_secs: RESTART_PAUSE_SECS }
    }
}

} // verus!
