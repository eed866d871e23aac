use eigenda_harness::config::{Mode, RunConfiguration};
use eigenda_harness::controller::{Action, Controller, Event, Phase, StopReason};
use eigenda_harness::payload::make_payload;
use eigenda_harness::round::{verify_retrieved, RoundOutcome};

fn config(mode: Mode, block_size: usize, stop: bool, run_for: Option<u32>, sleep: Option<u32>) -> RunConfiguration {
    RunConfiguration::resolve(Some(mode), block_size, None, stop, run_for, sleep).unwrap()
}

/// Drives a controller to its end; each round's outcome comes from `round`,
/// and each round takes one second of the run's clock.
fn drive(c: RunConfiguration, bind_ok: bool, mut round: impl FnMut() -> RoundOutcome) -> (StopReason, u64, u64) {
    let mut ctl = Controller::new(c);
    let mut started: u64 = 0;
    let mut clock: u128 = 0;
    let mut action = if bind_ok {
        ctl.step(Event::MetricsStarted)
    } else {
        ctl.step(Event::MetricsBindFailed)
    };
    loop {
        match action {
            Action::StartRound => {
                started += 1;
                let outcome = round();
                clock += 1_000_000_000;
                action = ctl.step(Event::RoundFinished { outcome, elapsed_nanos: clock });
            }
            Action::Sleep { secs } => {
                clock += secs as u128 * 1_000_000_000;
                action = ctl.step(Event::SleepFinished);
            }
            Action::Finish { reason } => {
                assert!(ctl.is_terminated());
                return (reason, started, ctl.rounds);
            }
        }
    }
}

#[test]
fn disperse_1024_stop_after_one() {
    let c = config(Mode::Disperse, 1024, true, None, None);
    let payload = make_payload(c.block_size);
    assert_eq!(payload.len(), 1024);
    assert_eq!(&payload[..4], &[0, 1, 2, 3]);
    assert_eq!(payload[255], 255);
    assert_eq!(payload[256], 0);
    assert_eq!(payload[1023], 255);
    let mut disperse_calls = 0;
    let (reason, started, rounds) = drive(c, true, || {
        disperse_calls += 1;
        RoundOutcome::Success
    });
    assert_eq!(disperse_calls, 1);
    assert_eq!(started, 1);
    assert_eq!(rounds, 1);
    assert_eq!(reason, StopReason::SingleRound);
    assert_eq!(reason.exit_code(), 0);
}

#[test]
fn store_10_round_trip_succeeds() {
    let c = config(Mode::StoreAndRetrieve, 10, true, None, None);
    let payload = make_payload(c.block_size);
    let (reason, started, _) = drive(c, true, || {
        let returned: Vec<u8> = vec![0, 1, 2, 3, 4, 5, 6, 7, 8, 9];
        assert_eq!(returned, payload);
        verify_retrieved(10, &returned)
    });
    assert_eq!(started, 1);
    assert_eq!(reason.exit_code(), 0);
}

#[test]
fn store_10_round_trip_mismatch_is_fatal() {
    let c = config(Mode::StoreAndRetrieve, 10, false, None, None);
    let (reason, started, _) = drive(c, true, || verify_retrieved(10, &[0, 1, 2, 3, 4, 5, 6, 7, 8, 99]));
    assert_eq!(started, 1);
    assert_eq!(reason, StopReason::Mismatch { index: 9, expected: 9, actual: 99 });
    assert_eq!(reason.exit_code(), 1);
}

#[test]
fn stop_after_one_ignores_time_budget() {
    for run_for in [0u32, 1, 100, u32::MAX] {
        let c = config(Mode::Disperse, 8, true, Some(run_for), Some(3));
        let (reason, started, _) = drive(c, true, || RoundOutcome::Success);
        assert_eq!(started, 1);
        assert_eq!(reason, StopReason::SingleRound);
    }
}

#[test]
fn zero_budget_stops_after_first_round() {
    let c = config(Mode::Disperse, 8, false, Some(0), None);
    let (reason, started, _) = drive(c, true, || RoundOutcome::Success);
    assert_eq!(started, 1);
    assert_eq!(reason, StopReason::TimeBudget);
    assert_eq!(reason.exit_code(), 0);
}

#[test]
fn budget_counts_rounds_and_sleeps() {
    // Each round takes one second and each pause two: rounds end at one,
    // four and seven seconds, and the budget is checked only after a round.
    let c = config(Mode::Disperse, 8, false, Some(5), Some(2));
    let (reason, started, rounds) = drive(c, true, || RoundOutcome::Success);
    assert_eq!(started, 3);
    assert_eq!(rounds, 3);
    assert_eq!(reason, StopReason::TimeBudget);
}

#[test]
fn budget_is_exceeded_only_strictly() {
    let c = config(Mode::Disperse, 8, false, Some(1), None);
    let mut ctl = Controller::new(c);
    assert_eq!(ctl.step(Event::MetricsStarted), Action::StartRound);
    let a = ctl.step(Event::RoundFinished { outcome: RoundOutcome::Success, elapsed_nanos: 1_000_000_000 });
    assert_eq!(a, Action::StartRound);
    let a = ctl.step(Event::RoundFinished { outcome: RoundOutcome::Success, elapsed_nanos: 1_000_000_001 });
    assert_eq!(a, Action::Finish { reason: StopReason::TimeBudget });
}

#[test]
fn sleep_comes_between_rounds() {
    let c = config(Mode::Disperse, 8, false, None, Some(4));
    let mut ctl = Controller::new(c);
    assert_eq!(ctl.step(Event::MetricsStarted), Action::StartRound);
    assert_eq!(ctl.phase, Phase::Running);
    let a = ctl.step(Event::RoundFinished { outcome: RoundOutcome::Success, elapsed_nanos: 10 });
    assert_eq!(a, Action::Sleep { secs: 4 });
    assert_eq!(ctl.phase, Phase::Sleeping);
    assert!(ctl.expects(&Event::SleepFinished));
    assert!(!ctl.expects(&Event::MetricsStarted));
    assert_eq!(ctl.step(Event::SleepFinished), Action::StartRound);
}

#[test]
fn bind_failure_runs_no_round() {
    let c = config(Mode::Disperse, 8, false, None, None);
    let (reason, started, rounds) = drive(c, false, || RoundOutcome::Success);
    assert_eq!(started, 0);
    assert_eq!(rounds, 0);
    assert_eq!(reason, StopReason::BindFailure);
    assert_ne!(reason.exit_code(), 0);
}

#[test]
fn transport_failure_is_fatal() {
    let c = config(Mode::Disperse, 8, false, None, None);
    let (reason, started, _) = drive(c, true, || RoundOutcome::TransportFailure { cause: "unavailable".to_string() });
    assert_eq!(started, 1);
    assert_eq!(reason, StopReason::Transport { cause: "unavailable".to_string() });
    assert_eq!(reason.exit_code(), 1);
}

#[test]
fn terminated_controller_expects_nothing() {
    let c = config(Mode::Disperse, 8, true, None, None);
    let mut ctl = Controller::new(c);
    ctl.step(Event::MetricsStarted);
    ctl.step(Event::RoundFinished { outcome: RoundOutcome::Success, elapsed_nanos: 1 });
    assert!(ctl.is_terminated());
    assert!(!ctl.expects(&Event::MetricsStarted));
    assert!(!ctl.expects(&Event::MetricsBindFailed));
    assert!(!ctl.expects(&Event::SleepFinished));
    assert!(!ctl.expects(&Event::RoundFinished { outcome: RoundOutcome::Success, elapsed_nanos: 2 }));
}

#[test]
fn short_retrieval_is_fatal() {
    let c = config(Mode::StoreAndRetrieve, 10, false, None, None);
    let (reason, started, _) = drive(c, true, || verify_retrieved(10, &[0, 1, 2]));
    assert_eq!(started, 1);
    assert_eq!(reason, StopReason::LengthMismatch { expected_len: 10, actual_len: 3 });
    assert_eq!(reason.exit_code(), 1);
}
