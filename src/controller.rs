//! The run controller: a state machine that decides, event by event, what the
//! harness does next. The caller performs each action (start the metrics
//! server, run a round, sleep, shut down) and reports back what happened.
use vstd::prelude::*;
use crate::config::RunConfiguration;
use crate::round::RoundOutcome;

verus! {

/// Nanoseconds in one second.
pub const NANOS_PER_SEC: u128 = 1_000_000_000;

/// Where the controller stands.
#[derive(Clone, Copy, Debug, PartialEq, Eq, Structural)]
pub enum Phase {
    /// Waiting for the metrics server to come up.
    Starting,
    /// A round is in progress.
    Running,
    /// Pausing between two rounds.
    Sleeping,
    /// The run is over.
    Terminated,
}

/// Why the run ended.
#[derive(Clone, Debug, PartialEq, Eq)]
pub enum StopReason {
    /// One round succeeded and the run was asked to stop after one.
    SingleRound,
    /// The run outlasted its time budget.
    TimeBudget,
    /// The metrics server could not bind its address.
    BindFailure,
    /// A call into the data-availability client failed.
    Transport { cause: String },
    /// Retrieved bytes differed from the payload.
    Mismatch { index: usize, expected: u8, actual: u8 },
    /// The retrieval returned another number of bytes than the payload has.
    LengthMismatch { expected_len: usize, actual_len: usize },
}

impl StopReason {
    /// Whether the run ended cleanly.
    pub open spec fn is_clean(&self) -> bool {
        self is SingleRound || self is TimeBudget
    }

    /// Process exit status: zero for a clean stop, one otherwise.
    pub fn exit_code(&self) -> (r: i32)
        ensures
            self.is_clean() ==> r == 0,
            !self.is_clean() ==> r == 1,
    {
        match self {
            StopReason::SingleRound | StopReason::TimeBudget => 0,
            _ => 1,
        }
    }
}

/// What happened since the last action.
#[derive(Clone, Debug, PartialEq, Eq)]
pub enum Event {
    /// The metrics server is bound and serving.
    MetricsStarted,
    /// The metrics server could not bind its address.
    MetricsBindFailed,
    /// A round ended with `outcome`; `elapsed_nanos` is the time since the
    /// run started.
    RoundFinished { outcome: RoundOutcome, elapsed_nanos: u128 },
    /// The pause between rounds is over.
    SleepFinished,
}

/// What the caller is to do next.
#[derive(Clone, Debug, PartialEq, Eq)]
pub enum Action {
    /// Run one round in the configured mode.
    StartRound,
    /// Pause for this many seconds, then report `SleepFinished`.
    Sleep { secs: u32 },
    /// The run is over: exit for the given reason. The metrics server serves
    /// until the process ends and stops with it.
    Finish { reason: StopReason },
}

/// The state of a run.
#[derive(Clone, Debug)]
pub struct Controller {
    pub config: RunConfiguration,
    pub phase: Phase,
    /// Rounds finished so far, saturating at the largest `u64`.
    pub rounds: u64,
}

/// Whether a run that has lasted `elapsed_nanos` is past a budget of `secs`
/// seconds.
pub open spec fn over_budget(elapsed_nanos: u128, secs: u32) -> bool {
    elapsed_nanos > secs * 1_000_000_000
}

/// Whether the controller in phase `phase` waits for `event`.
pub open spec fn expects_spec(phase: Phase, event: Event) -> bool {
    match event {
        Event::MetricsStarted | Event::MetricsBindFailed => phase is Starting,
        Event::RoundFinished { .. } => phase is Running,
        Event::SleepFinished => phase is Sleeping,
    }
}

/// The next state and the action after `event` in state `c`.
pub open spec fn step_spec(c: Controller, event: Event) -> (Controller, Action) {
    match event {
        Event::MetricsStarted => (Controller { phase: Phase::Running, ..c }, Action::StartRound),
        Event::MetricsBindFailed => (
            Controller { phase: Phase::Terminated, ..c },
            Action::Finish { reason: StopReason::BindFailure },
        ),
        Event::SleepFinished => (Controller { phase: Phase::Running, ..c }, Action::StartRound),
        Event::RoundFinished { outcome, elapsed_nanos } => {
            let rounds = if c.rounds < u64::MAX {
                (c.rounds + 1) as u64
            } else {
                c.rounds
            };
            let done = Controller { phase: Phase::Terminated, rounds, ..c };
            match outcome {
                RoundOutcome::TransportFailure { cause } => (
                    done,
                    Action::Finish { reason: StopReason::Transport { cause } },
                ),
                RoundOutcome::Mismatch { index, expected, actual } => (
                    done,
                    Action::Finish { reason: StopReason::Mismatch { index, expected, actual } },
                ),
                RoundOutcome::LengthMismatch { expected_len, actual_len } => (
                    done,
                    Action::Finish {
                        reason: StopReason::LengthMismatch { expected_len, actual_len },
                    },
                ),
                RoundOutcome::Success => if c.config.stop_after_one {
                    (done, Action::Finish { reason: StopReason::SingleRound })
                } else if over_budget(elapsed_nanos, c.config.run_for_secs) {
                    (done, Action::Finish { reason: StopReason::TimeBudget })
                } else if c.config.sleep_for_secs > 0 {
                    (
                        Controller { phase: Phase::Sleeping, rounds, ..c },
                        Action::Sleep { secs: c.config.sleep_for_secs },
                    )
                } else {
                    (Controller { phase: Phase::Running, rounds, ..c }, Action::StartRound)
                },
            }
        },
    }
}

impl Controller {
    /// The controller of a run that has not started yet.
    pub open spec fn initial(config: RunConfiguration) -> Controller {
        Controller { config, phase: Phase::Starting, rounds: 0 }
    }

    /// A controller for a run with `config`, waiting for the metrics server.
    pub fn new(config: RunConfiguration) -> (r: Controller)
        ensures
            r == Controller::initial(config),
    {
        Controller { config, phase: Phase::Starting, rounds: 0 }
    }

    /// Whether the controller waits for `event` now.
    pub fn expects(&self, event: &Event) -> (r: bool)
        ensures
            r == expects_spec(self.phase, *event),
    {
        match event {
            Event::MetricsStarted | Event::MetricsBindFailed => self.phase == Phase::Starting,
            Event::RoundFinished { .. } => self.phase == Phase::Running,
            Event::SleepFinished => self.phase == Phase::Sleeping,
        }
    }

    /// Whether the run is over.
    pub fn is_terminated(&self) -> (r: bool)
        ensures
            r == (self.phase is Terminated),
    {
        self.phase == Phase::Terminated
    }

    /// Takes in `event` and returns the next action.
    pub fn step(&mut self, event: Event) -> (a: Action)
        requires
            expects_spec(old(self).phase, event),
        ensures
            (*final(self), a) == step_spec(*old(self), event),
    {
        match event {
            Event::MetricsStarted => {
                self.phase = Phase::Running;
                Action::StartRound
            },
            Event::MetricsBindFailed => {
                self.phase = Phase::Terminated;
                Action::Finish { reason: StopReason::BindFailure }
            },
            Event::SleepFinished => {
                self.phase = Phase::Running;
                Action::StartRound
            },
            Event::RoundFinished { outcome, elapsed_nanos } => {
                if self.rounds < u64::MAX {
                    self.rounds = self.rounds + 1;
                }
                match outcome {
                    RoundOutcome::TransportFailure { cause } => {
                        self.phase = Phase::Terminated;
                        Action::Finish { reason: StopReason::Transport { cause } }
                    },
                    RoundOutcome::Mismatch { index, expected, actual } => {
                        self.phase = Phase::Terminated;
                        Action::Finish { reason: StopReason::Mismatch { index, expected, actual } }
                    },
                    RoundOutcome::LengthMismatch { expected_len, actual_len } => {
                        self.phase = Phase::Terminated;
                        Action::Finish {
                            reason: StopReason::LengthMismatch { expected_len, actual_len },
                        }
                    },
                    RoundOutcome::Success => {
                        let budget: u128 = (self.config.run_for_secs as u128) * NANOS_PER_SEC;
                        if self.config.stop_after_one {
                            self.phase = Phase::Terminated;
                            Action::Finish { reason: StopReason::SingleRound }
                        } else if elapsed_nanos > budget {
                            self.phase = Phase::Terminated;
                            Action::Finish { reason: StopReason::TimeBudget }
                        } else if self.config.sleep_for_secs > 0 {
                            self.phase = Phase::Sleeping;
                            Action::Sleep { secs: self.config.sleep_for_secs }
                        } else {
                            self.phase = Phase::Running;
                            Action::StartRound
                        }
                    },
                }
            },
        }
    }
}

/// A terminated run waits for no event: no round starts after it.
pub open spec fn is_final(c: Controller) -> bool {
    forall|e: Event| !#[trigger] expects_spec(c.phase, e)
}

/// With stop-after-one set, a run whose metrics server comes up does exactly
/// one round and then ends, whatever its time budget: cleanly when that round
/// succeeds, with the round's failure otherwise.
pub proof fn lemma_stop_after_one(
    config: RunConfiguration,
    outcome: RoundOutcome,
    elapsed_nanos: u128,
)
    requires
        config.wf(),
        config.stop_after_one,
    ensures
        ({
            let (c1, a1) = step_spec(Controller::initial(config), Event::MetricsStarted);
            let (c2, a2) = step_spec(c1, Event::RoundFinished { outcome, elapsed_nanos });
            &&& a1 == Action::StartRound
            &&& c2.phase is Terminated
            &&& is_final(c2)
            &&& c2.rounds == 1
            &&& a2 is Finish
            &&& (outcome is Success ==> a2 == Action::Finish { reason: StopReason::SingleRound })
            &&& (a2 matches Action::Finish { reason } ==> (reason.is_clean() <==> outcome is Success))
        }),
{
}

/// With a time budget of zero seconds and no stop-after-one, the run ends
/// right after its first round, provided that round took any time at all.
pub proof fn lemma_zero_budget(config: RunConfiguration, outcome: RoundOutcome, elapsed_nanos: u128)
    requires
        config.wf(),
        config.run_for_secs == 0,
        !config.stop_after_one,
        elapsed_nanos > 0,
    ensures
        ({
            let (c1, a1) = step_spec(Controller::initial(config), Event::MetricsStarted);
            let (c2, a2) = step_spec(c1, Event::RoundFinished { outcome, elapsed_nanos });
            &&& a1 == Action::StartRound
            &&& c2.phase is Terminated
            &&& is_final(c2)
            &&& c2.rounds == 1
            &&& (outcome is Success ==> a2 == Action::Finish { reason: StopReason::TimeBudget })
            &&& (a2 matches Action::Finish { reason } ==> (reason.is_clean() <==> outcome is Success))
        }),
{
}

/// When the metrics server cannot bind, the run ends at once, before any
/// round, and not cleanly.
pub proof fn lemma_bind_failure_stops_run(config: RunConfiguration)
    requires
        config.wf(),
    ensures
        ({
            let (c1, a1) = step_spec(Controller::initial(config), Event::MetricsBindFailed);
            &&& a1 == Action::Finish { reason: StopReason::BindFailure }
            &&& !StopReason::BindFailure.is_clean()
            &&& c1.phase is Terminated
            &&& is_final(c1)
            &&& c1.rounds == 0
        }),
{
}

} // verus!
