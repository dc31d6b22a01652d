//! Lifecycle of the supervised external NLU server, as a state machine.
//! The machine decides every step — dependency check, installation
//! strategies in fixed priority order, training, spawn, the bounded
//! health poll, and teardown — while a driver performs each requested
//! action on the outside world and reports its outcome back.

use vstd::prelude::*;

verus! {

/// Number of installation strategies tried in fixed priority order.
pub const INSTALL_STRATEGY_COUNT: usize = 4;

/// Number of health-poll attempts before the server counts as failed.
pub const POLL_BUDGET: u32 = 30;

/// Lifecycle state of the supervised server.
#[derive(Clone, Copy, PartialEq, Eq, Structural, Debug)]
pub enum ServiceState {
    Stopped,
    Installing,
    Training,
    Starting,
    Healthy,
    Failed,
}

/// An action the driver must perform on the outside world.
#[derive(Clone, Copy, PartialEq, Eq, Structural, Debug)]
pub enum SupervisorAction {
    /// Nothing to do.
    Idle,
    /// Check that the server's working directory exists.
    CheckDirectory,
    /// Check that the server binary is present.
    CheckBinary,
    /// Run the installation strategy with this priority index.
    RunInstall(usize),
    /// Check that a trained model artifact exists.
    CheckModel,
    /// Run the training command.
    RunTraining,
    /// Spawn the server process.
    SpawnProcess,
    /// Poll the health endpoint once.
    PollHealth,
    /// Terminate and reap the server process.
    TerminateProcess,
}

/// The outcome of a performed action, reported back by the driver.
#[derive(Clone, Copy, PartialEq, Eq, Structural, Debug)]
pub enum SupervisorEvent {
    DirectoryChecked(bool),
    BinaryChecked(bool),
    InstallFinished(bool),
    ModelChecked(bool),
    TrainingFinished(bool),
    SpawnFinished(bool),
    HealthChecked(bool),
}

/// Why a start attempt was aborted.
#[derive(Clone, Copy, PartialEq, Eq, Structural, Debug)]
pub enum StartError {
    DirectoryMissing,
    InstallFailed,
    TrainingFailed,
    SpawnFailed,
}

/// What the machine asks for after a step: another action, completion,
/// or an aborted start.
#[derive(Clone, Copy, PartialEq, Eq, Structural, Debug)]
pub enum SupervisorStep {
    Act(SupervisorAction),
    Done,
    Abort(StartError),
}

/// The mathematical value of a `RasaManager`.
#[verifier::ext_equal]
pub struct RasaManagerV {
    pub state: ServiceState,
    pub pending: SupervisorAction,
    pub install_attempt: int,
    pub polls_remaining: int,
    pub process_running: bool,
}

/// The event kinds the machine accepts while this action is pending.
pub open spec fn expects(pending: SupervisorAction, ev: SupervisorEvent) -> bool {
    match (pending, ev) {
        (SupervisorAction::CheckDirectory, SupervisorEvent::DirectoryChecked(_)) => true,
        (SupervisorAction::CheckBinary, SupervisorEvent::BinaryChecked(_)) => true,
        (SupervisorAction::RunInstall(_), SupervisorEvent::InstallFinished(_)) => true,
        (SupervisorAction::CheckModel, SupervisorEvent::ModelChecked(_)) => true,
        (SupervisorAction::RunTraining, SupervisorEvent::TrainingFinished(_)) => true,
        (SupervisorAction::SpawnProcess, SupervisorEvent::SpawnFinished(_)) => true,
        (SupervisorAction::PollHealth, SupervisorEvent::HealthChecked(_)) => true,
        _ => false,
    }
}

/// Well-formedness of the machine.
pub open spec fn supervisor_wf(s: RasaManagerV) -> bool {
    &&& 0 <= s.install_attempt <= INSTALL_STRATEGY_COUNT as int
    &&& 0 <= s.polls_remaining <= POLL_BUDGET as int
    &&& (s.pending matches SupervisorAction::RunInstall(k) ==> k as int == s.install_attempt
        && (k as int) < INSTALL_STRATEGY_COUNT as int)
    &&& (s.state == ServiceState::Stopped ==> !s.process_running)
    &&& (s.pending == SupervisorAction::PollHealth ==> s.state == ServiceState::Starting
        && s.process_running && s.polls_remaining >= 1)
    &&& (s.pending == SupervisorAction::SpawnProcess || s.pending
        == SupervisorAction::CheckDirectory || s.pending == SupervisorAction::CheckBinary
        || s.pending == SupervisorAction::CheckModel || s.pending == SupervisorAction::RunTraining
        || (s.pending matches SupervisorAction::RunInstall(_)) ==> !s.process_running)
}

/// Continue the start sequence with the next action.
pub open spec fn continue_with(s: RasaManagerV, a: SupervisorAction) -> (
    RasaManagerV,
    SupervisorStep,
) {
    (RasaManagerV { pending: a, ..s }, SupervisorStep::Act(a))
}

/// Abort the start sequence: the tier is failed for this process
/// lifetime.
pub open spec fn abort_with(s: RasaManagerV, e: StartError) -> (RasaManagerV, SupervisorStep) {
    (
        RasaManagerV { state: ServiceState::Failed, pending: SupervisorAction::Idle, ..s },
        SupervisorStep::Abort(e),
    )
}

/// What `start` does: a no-op when already healthy, else the first step
/// of the start sequence from the stopped state.
pub open spec fn spec_start(s: RasaManagerV) -> (RasaManagerV, SupervisorStep) {
    if s.state == ServiceState::Healthy {
        (s, SupervisorStep::Done)
    } else {
        (
            RasaManagerV {
                state: ServiceState::Stopped,
                pending: SupervisorAction::CheckDirectory,
                install_attempt: 0,
                polls_remaining: POLL_BUDGET as int,
                process_running: false,
            },
            SupervisorStep::Act(SupervisorAction::CheckDirectory),
        )
    }
}

/// The transition for one reported outcome.
pub open spec fn spec_on_event(s: RasaManagerV, ev: SupervisorEvent) -> (
    RasaManagerV,
    SupervisorStep,
) {
    match ev {
        SupervisorEvent::DirectoryChecked(found) => if found {
            continue_with(s, SupervisorAction::CheckBinary)
        } else {
            abort_with(s, StartError::DirectoryMissing)
        },
        SupervisorEvent::BinaryChecked(found) => if found {
            continue_with(s, SupervisorAction::CheckModel)
        } else {
            (
                RasaManagerV {
                    state: ServiceState::Installing,
                    pending: SupervisorAction::RunInstall(0),
                    install_attempt: 0,
                    ..s
                },
                SupervisorStep::Act(SupervisorAction::RunInstall(0)),
            )
        },
        SupervisorEvent::InstallFinished(ok) => if ok {
            continue_with(s, SupervisorAction::CheckModel)
        } else {
            if s.install_attempt + 1 < INSTALL_STRATEGY_COUNT as int {
                (
                    RasaManagerV {
                        pending: SupervisorAction::RunInstall((s.install_attempt + 1) as usize),
                        install_attempt: s.install_attempt + 1,
                        ..s
                    },
                    SupervisorStep::Act(
                        SupervisorAction::RunInstall((s.install_attempt + 1) as usize),
                    ),
                )
            } else {
                abort_with(s, StartError::InstallFailed)
            }
        },
        SupervisorEvent::ModelChecked(found) => if found {
            continue_with(s, SupervisorAction::SpawnProcess)
        } else {
            (
                RasaManagerV {
                    state: ServiceState::Training,
                    pending: SupervisorAction::RunTraining,
                    ..s
                },
                SupervisorStep::Act(SupervisorAction::RunTraining),
            )
        },
        SupervisorEvent::TrainingFinished(ok) => if ok {
            continue_with(s, SupervisorAction::SpawnProcess)
        } else {
            abort_with(s, StartError::TrainingFailed)
        },
        SupervisorEvent::SpawnFinished(ok) => if ok {
            (
                RasaManagerV {
                    state: ServiceState::Starting,
                    pending: SupervisorAction::PollHealth,
                    polls_remaining: POLL_BUDGET as int,
                    process_running: true,
                    ..s
                },
                SupervisorStep::Act(SupervisorAction::PollHealth),
            )
        } else {
            abort_with(s, StartError::SpawnFailed)
        },
        SupervisorEvent::HealthChecked(ok) => if ok {
            (
                RasaManagerV {
                    state: ServiceState::Healthy,
                    pending: SupervisorAction::Idle,
                    ..s
                },
                SupervisorStep::Done,
            )
        } else {
            if s.polls_remaining <= 1 {
                (
                    RasaManagerV {
                        state: ServiceState::Failed,
                        pending: SupervisorAction::Idle,
                        polls_remaining: 0,
                        ..s
                    },
                    SupervisorStep::Done,
                )
            } else {
                (
                    RasaManagerV {
                        pending: SupervisorAction::PollHealth,
                        polls_remaining: s.polls_remaining - 1,
                        ..s
                    },
                    SupervisorStep::Act(SupervisorAction::PollHealth),
                )
            }
        },
    }
}

/// What `stop` leaves behind: everything torn down.
pub open spec fn spec_stopped() -> RasaManagerV {
    RasaManagerV {
        state: ServiceState::Stopped,
        pending: SupervisorAction::Idle,
        install_attempt: 0,
        polls_remaining: 0,
        process_running: false,
    }
}

/// Law: starting an already-healthy supervisor changes nothing and asks
/// for no action, so a second `start` in a row performs no second spawn.
pub proof fn lemma_start_idempotent_when_healthy(s: RasaManagerV)
    requires
        s.state == ServiceState::Healthy,
    ensures
        spec_start(s).0 == s,
        spec_start(s).1 == SupervisorStep::Done,
        spec_start(spec_start(s).0) == spec_start(s),
{
}

/// The supervisor of the external NLU server process.
pub struct RasaManager {
    state: ServiceState,
    pending: SupervisorAction,
    install_attempt: usize,
    polls_remaining: u32,
    process_running: bool,
}

impl View for RasaManager {
    type V = RasaManagerV;

    closed spec fn view(&self) -> RasaManagerV {
        RasaManagerV {
            state: self.state,
            pending: self.pending,
            install_attempt: self.install_attempt as int,
            polls_remaining: self.polls_remaining as int,
            process_running: self.process_running,
        }
    }
}

impl RasaManager {
    #[verifier::type_invariant]
    closed spec fn inv(self) -> bool {
        supervisor_wf(self@)
    }

    pub fn new() -> (r: RasaManager)
        ensures
            r@ == spec_stopped(),
    {
        RasaManager {
            state: ServiceState::Stopped,
            pending: SupervisorAction::Idle,
            install_attempt: 0,
            polls_remaining: 0,
            process_running: false,
        }
    }

    pub fn state(&self) -> (r: ServiceState)
        ensures
            r == self@.state,
    {
        self.state
    }

    pub fn process_running(&self) -> (r: bool)
        ensures
            r == self@.process_running,
    {
        self.process_running
    }

    /// Begin (or skip) a start attempt. Idempotent when already healthy:
    /// nothing changes and no action is requested. A stopped machine
    /// hands the driver the first check of the start sequence.
    pub fn start(&mut self) -> (step: SupervisorStep)
        requires
            old(self)@.state == ServiceState::Stopped || old(self)@.state == ServiceState::Healthy,
        ensures
            final(self)@ == spec_start(old(self)@).0,
            step == spec_start(old(self)@).1,
            old(self)@.state == ServiceState::Healthy ==> final(self)@ == old(self)@ && step
                == SupervisorStep::Done,
    {
        proof {
            use_type_invariant(&*self);
        }
        match self.state {
            ServiceState::Healthy => SupervisorStep::Done,
            _ => {
                *self = RasaManager {
                    state: ServiceState::Stopped,
                    pending: SupervisorAction::CheckDirectory,
                    install_attempt: 0,
                    polls_remaining: POLL_BUDGET,
                    process_running: false,
                };
                SupervisorStep::Act(SupervisorAction::CheckDirectory)
            },
        }
    }

    /// Advance the machine with the outcome of the pending action and
    /// obtain the next step.
    pub fn on_event(&mut self, ev: SupervisorEvent) -> (step: SupervisorStep)
        requires
            expects(old(self)@.pending, ev),
        ensures
            final(self)@ == spec_on_event(old(self)@, ev).0,
            step == spec_on_event(old(self)@, ev).1,
    {
        proof {
            use_type_invariant(&*self);
        }
        match ev {
            SupervisorEvent::DirectoryChecked(found) => if found {
                self.pending = SupervisorAction::CheckBinary;
                SupervisorStep::Act(SupervisorAction::CheckBinary)
            } else {
                self.state = ServiceState::Failed;
                self.pending = SupervisorAction::Idle;
                SupervisorStep::Abort(StartError::DirectoryMissing)
            },
            SupervisorEvent::BinaryChecked(found) => if found {
                self.pending = SupervisorAction::CheckModel;
                SupervisorStep::Act(SupervisorAction::CheckModel)
            } else {
                self.state = ServiceState::Installing;
                self.install_attempt = 0;
                self.pending = SupervisorAction::RunInstall(0);
                SupervisorStep::Act(SupervisorAction::RunInstall(0))
            },
            SupervisorEvent::InstallFinished(ok) => if ok {
                self.pending = SupervisorAction::CheckModel;
                SupervisorStep::Act(SupervisorAction::CheckModel)
            } else {
                let next = self.install_attempt + 1;
                if next < INSTALL_STRATEGY_COUNT {
                    *self = RasaManager {
                        install_attempt: next,
                        pending: SupervisorAction::RunInstall(next),
                        ..*self
                    };
                    SupervisorStep::Act(SupervisorAction::RunInstall(next))
                } else {
                    self.state = ServiceState::Failed;
                    self.pending = SupervisorAction::Idle;
                    SupervisorStep::Abort(StartError::InstallFailed)
                }
            },
            SupervisorEvent::ModelChecked(found) => if found {
                self.pending = SupervisorAction::SpawnProcess;
                SupervisorStep::Act(SupervisorAction::SpawnProcess)
            } else {
                self.state = ServiceState::Training;
                self.pending = SupervisorAction::RunTraining;
                SupervisorStep::Act(SupervisorAction::RunTraining)
            },
            SupervisorEvent::TrainingFinished(ok) => if ok {
                self.pending = SupervisorAction::SpawnProcess;
                SupervisorStep::Act(SupervisorAction::SpawnProcess)
            } else {
                self.state = ServiceState::Failed;
                self.pending = SupervisorAction::Idle;
                SupervisorStep::Abort(StartError::TrainingFailed)
            },
            SupervisorEvent::SpawnFinished(ok) => if ok {
                *self = RasaManager {
                    state: ServiceState::Starting,
                    process_running: true,
                    polls_remaining: POLL_BUDGET,
                    pending: SupervisorAction::PollHealth,
                    ..*self
                };
                SupervisorStep::Act(SupervisorAction::PollHealth)
            } else {
                self.state = ServiceState::Failed;
                self.pending = SupervisorAction::Idle;
                SupervisorStep::Abort(StartError::SpawnFailed)
            },
            SupervisorEvent::HealthChecked(ok) => if ok {
                *self = RasaManager {
                    state: ServiceState::Healthy,
                    pending: SupervisorAction::Idle,
                    ..*self
                };
                SupervisorStep::Done
            } else {
                if self.polls_remaining <= 1 {
                    *self = RasaManager {
                        state: ServiceState::Failed,
                        pending: SupervisorAction::Idle,
                        polls_remaining: 0,
                        ..*self
                    };
                    SupervisorStep::Done
                } else {
                    *self = RasaManager {
                        polls_remaining: self.polls_remaining - 1,
                        pending: SupervisorAction::PollHealth,
                        ..*self
                    };
                    SupervisorStep::Act(SupervisorAction::PollHealth)
                }
            },
        }
    }

    /// Tear down: from any state, the machine ends stopped with no
    /// process associated, and the driver is told to terminate the
    /// process exactly when one was running.
    pub fn stop(&mut self) -> (r: SupervisorAction)
        ensures
            final(self)@ == spec_stopped(),
            (r == SupervisorAction::TerminateProcess) <==> old(self)@.process_running,
            !old(self)@.process_running ==> r == SupervisorAction::Idle,
    {
        let was_running = self.process_running;
        *self = RasaManager {
            state: ServiceState::Stopped,
            pending: SupervisorAction::Idle,
            install_attempt: 0,
            polls_remaining: 0,
            process_running: false,
        };
        if was_running {
            SupervisorAction::TerminateProcess
        } else {
            SupervisorAction::Idle
        }
    }
}

} // verus!
