use onewire_uart::reset::{
    BusAction, BusError, BusEvent, ReadOutcome, ResetState, BAUDRATE, DRAIN_BUFFER_LEN,
    DRAIN_TIMEOUT_US, PULSE_SETTLE_US, RESET_BAUDRATE, RESET_PULSE_CHAR, RESPONSE_TIMEOUT_US,
};

const OK: BusEvent = BusEvent::RateChanged { ok: true };

/// Feeds `events` to a fresh reset and returns every action asked for.
fn drive(events: &[BusEvent]) -> (ResetState, Vec<BusAction>) {
    let mut s = ResetState::start();
    let mut actions = vec![s.action()];
    for e in events {
        s = s.step(*e);
        actions.push(s.action());
    }
    (s, actions)
}

fn with_response(outcome: ReadOutcome) -> (ResetState, Vec<BusAction>) {
    drive(&[
        OK,
        OK,
        BusEvent::ReadDone { outcome: ReadOutcome::TimedOut },
        BusEvent::WriteDone { ok: true },
        BusEvent::Elapsed,
        BusEvent::ReadDone { outcome },
        OK,
        OK,
    ])
}

#[test]
fn reset_without_presence_pulse_times_out() {
    let (s, actions) = with_response(ReadOutcome::TimedOut);
    assert_eq!(
        actions,
        vec![
            BusAction::SetTxRate { baudrate: 9600 },
            BusAction::SetRxRate { baudrate: 9600 },
            BusAction::Read { max_len: DRAIN_BUFFER_LEN, timeout_us: DRAIN_TIMEOUT_US },
            BusAction::Write { byte: 0xF0 },
            BusAction::Wait { micros: PULSE_SETTLE_US },
            BusAction::Read { max_len: 1, timeout_us: 10_000 },
            BusAction::SetTxRate { baudrate: 115200 },
            BusAction::SetRxRate { baudrate: 115200 },
            BusAction::Finish { present: false },
        ]
    );
    assert_eq!(s, ResetState::Done { present: false });
    assert!(s.is_finished());
    assert_eq!(RESET_BAUDRATE, 9600);
    assert_eq!(BAUDRATE, 115200);
    assert_eq!(RESET_PULSE_CHAR, 0xF0);
    assert_eq!(RESPONSE_TIMEOUT_US, 10_000);
}

#[test]
fn reset_with_device_response() {
    let (s, _) = with_response(ReadOutcome::Received { count: 1, first: 0x00 });
    assert_eq!(s, ResetState::Done { present: true });
    let (s, _) = with_response(ReadOutcome::Received { count: 1, first: 0xE0 });
    assert_eq!(s, ResetState::Done { present: true });
}

#[test]
fn reset_with_absent_responses() {
    for outcome in [
        ReadOutcome::Received { count: 1, first: 0xFF },
        ReadOutcome::Received { count: 1, first: 0x01 },
        ReadOutcome::Received { count: 0, first: 0x00 },
        ReadOutcome::Failed,
        ReadOutcome::TimedOut,
    ] {
        let (s, actions) = with_response(outcome);
        assert_eq!(s, ResetState::Done { present: false });
        assert_eq!(actions[6], BusAction::SetTxRate { baudrate: BAUDRATE });
        assert_eq!(actions[7], BusAction::SetRxRate { baudrate: BAUDRATE });
    }
}

#[test]
fn reset_drains_until_quiet() {
    let mut s = ResetState::start().step(OK).step(OK);
    assert_eq!(s, ResetState::Draining);
    s = s.step(BusEvent::ReadDone { outcome: ReadOutcome::Received { count: 5, first: 0x12 } });
    assert_eq!(s, ResetState::Draining);
    s = s.step(BusEvent::ReadDone { outcome: ReadOutcome::Received { count: 0, first: 0 } });
    assert_eq!(s, ResetState::Pulsing);
}

#[test]
fn reset_configuration_failures() {
    let (s, actions) = drive(&[BusEvent::RateChanged { ok: false }]);
    assert_eq!(s, ResetState::Failed { error: BusError::ConfigurationFailed });
    assert_eq!(actions[1], BusAction::Abort { error: BusError::ConfigurationFailed });
    let (s, _) = drive(&[
        OK,
        OK,
        BusEvent::ReadDone { outcome: ReadOutcome::TimedOut },
        BusEvent::WriteDone { ok: true },
        BusEvent::Elapsed,
        BusEvent::ReadDone { outcome: ReadOutcome::TimedOut },
        OK,
        BusEvent::RateChanged { ok: false },
    ]);
    assert_eq!(s, ResetState::Failed { error: BusError::ConfigurationFailed });
}

#[test]
fn reset_transmit_failure() {
    let (s, _) = drive(&[
        OK,
        OK,
        BusEvent::ReadDone { outcome: ReadOutcome::Failed },
        BusEvent::WriteDone { ok: false },
    ]);
    assert_eq!(s, ResetState::Failed { error: BusError::TransmitFailed });
    assert!(s.is_finished());
}

#[test]
fn reset_ignores_unrelated_events() {
    let s = ResetState::start();
    assert_eq!(s.step(BusEvent::Elapsed), ResetState::SlowTx);
    let done = ResetState::Done { present: true };
    assert_eq!(done.step(OK), done);
    assert!(!ResetState::Sampling.is_finished());
}

#[test]
fn reset_pulse_after_noisy_drain() {
    let (s, actions) = drive(&[
        OK,
        OK,
        BusEvent::ReadDone { outcome: ReadOutcome::Received { count: 3, first: 0x55 } },
        BusEvent::ReadDone { outcome: ReadOutcome::Received { count: 1, first: 0xFF } },
        BusEvent::ReadDone { outcome: ReadOutcome::TimedOut },
        BusEvent::WriteDone { ok: true },
        BusEvent::Elapsed,
        BusEvent::ReadDone { outcome: ReadOutcome::TimedOut },
        OK,
        OK,
    ]);
    let writes: Vec<&BusAction> =
        actions.iter().filter(|a| matches!(a, BusAction::Write { .. })).collect();
    assert_eq!(writes, vec![&BusAction::Write { byte: RESET_PULSE_CHAR }]);
    assert_eq!(s, ResetState::Done { present: false });
}
