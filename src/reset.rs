use vstd::prelude::*;

use crate::onewire::{is_device_present, presence_spec};

verus! {

/// Bit rate during a reset: one bit lasts about 104 µs.
pub const RESET_BAUDRATE: u32 = 9600;

/// Bit rate of the normal time slots: one bit lasts about 8.7 µs.
pub const BAUDRATE: u32 = 115200;

/// Character sent as the reset pulse: start bit and four low data bits,
/// about 520 µs low at the reset bit rate.
pub const RESET_PULSE_CHAR: u8 = 0xF0;

/// Size of the buffer used to drain stale input before the pulse.
pub const DRAIN_BUFFER_LEN: usize = 32;

/// Bound on each drain read, in microseconds.
pub const DRAIN_TIMEOUT_US: u64 = 1_000;

/// Time allowed for the reset character to leave the wire, in microseconds.
pub const PULSE_SETTLE_US: u64 = 1_100;

/// Bound on the read of the presence response, in microseconds.
pub const RESPONSE_TIMEOUT_US: u64 = 10_000;

/// Response assumed when nothing usable was read after the pulse.
pub const NO_RESPONSE: u8 = 0xFF;

/// Faults of the bus transport.
#[derive(PartialEq, Eq, Structural, Clone, Copy, Debug)]
pub enum BusError {
    ConfigurationFailed,
    TransmitFailed,
    ReceiveFailed,
    ReceiveTimeout,
}

/// What a bounded read on the receive capability came back with.
#[derive(PartialEq, Eq, Structural, Clone, Copy, Debug)]
pub enum ReadOutcome {
    /// `count` bytes arrived; `first` is the first of them when `count > 0`.
    Received { count: usize, first: u8 },
    Failed,
    TimedOut,
}

/// The result of the action last asked for.
#[derive(PartialEq, Eq, Structural, Clone, Copy, Debug)]
pub enum BusEvent {
    RateChanged { ok: bool },
    ReadDone { outcome: ReadOutcome },
    WriteDone { ok: bool },
    Elapsed,
}

/// What the driver must do next on the serial capabilities.
#[derive(PartialEq, Eq, Structural, Clone, Copy, Debug)]
pub enum BusAction {
    SetTxRate { baudrate: u32 },
    SetRxRate { baudrate: u32 },
    Read { max_len: usize, timeout_us: u64 },
    Write { byte: u8 },
    Wait { micros: u64 },
    Finish { present: bool },
    Abort { error: BusError },
}

/// Progress of one bus reset and presence detection.
#[derive(PartialEq, Eq, Structural, Clone, Copy, Debug)]
pub enum ResetState {
    SlowTx,
    SlowRx,
    Draining,
    Pulsing,
    Settling,
    Sampling,
    FastTx { response: u8 },
    FastRx { response: u8 },
    Done { present: bool },
    Failed { error: BusError },
}

/// The response byte taken from the presence read.
pub open spec fn response_of(outcome: ReadOutcome) -> u8 {
    match outcome {
        ReadOutcome::Received { count, first } => if count > 0 { first } else { NO_RESPONSE },
        _ => NO_RESPONSE,
    }
}

/// The state after a rate change that succeeded or failed.
pub open spec fn after_rate(ok: bool, next: ResetState) -> ResetState {
    if ok { next } else { ResetState::Failed { error: BusError::ConfigurationFailed } }
}

/// The bit rates of the (transmit, receive) capabilities after `event`
/// answers the action of `state`: a rate changes only when a rate change
/// was asked for and succeeded.
pub open spec fn rates_after(state: ResetState, event: BusEvent, rates: (u32, u32)) -> (u32, u32) {
    match (state.action_spec(), event) {
        (BusAction::SetTxRate { baudrate }, BusEvent::RateChanged { ok: true }) => (baudrate, rates.1),
        (BusAction::SetRxRate { baudrate }, BusEvent::RateChanged { ok: true }) => (rates.0, baudrate),
        _ => rates,
    }
}

/// The state and the capabilities' bit rates after feeding `events` to a
/// reset in `state` whose capabilities run at `rates`.
pub open spec fn run(state: ResetState, events: Seq<BusEvent>, rates: (u32, u32)) -> (
    ResetState,
    (u32, u32),
)
    decreases events.len(),
{
    if events.len() == 0 {
        (state, rates)
    } else {
        run(state.step_spec(events[0]), events.drop_first(), rates_after(state, events[0], rates))
    }
}

spec fn fast_rate_inv(state: ResetState, rates: (u32, u32)) -> bool {
    &&& state is FastRx ==> rates.0 == BAUDRATE
    &&& state is Done ==> rates.0 == BAUDRATE && rates.1 == BAUDRATE
}

proof fn lemma_run_keeps_fast_rate(state: ResetState, events: Seq<BusEvent>, rates: (u32, u32))
    requires
        fast_rate_inv(state, rates),
    ensures
        fast_rate_inv(run(state, events, rates).0, run(state, events, rates).1),
    decreases events.len(),
{
    if events.len() > 0 {
        lemma_run_keeps_fast_rate(
            state.step_spec(events[0]),
            events.drop_first(),
            rates_after(state, events[0], rates),
        );
    }
}

/// Whatever the capabilities answer, a reset that reports a presence
/// verdict has left both the transmit and the receive side at the fast bit
/// rate.
pub proof fn lemma_reset_ends_at_fast_rate(events: Seq<BusEvent>, rates: (u32, u32))
    ensures
        run(ResetState::SlowTx, events, rates).0 is Done ==> run(ResetState::SlowTx, events, rates).1
            == (BAUDRATE, BAUDRATE),
{
    lemma_run_keeps_fast_rate(ResetState::SlowTx, events, rates);
}

/// Every outcome of the presence read, a timeout or a read error included,
/// leads to restoring the fast bit rate, first on the transmit side and then
/// on the receive side, and the verdict is taken from the byte that was read
/// (or from `0xFF` when none was).
pub proof fn lemma_presence_read_restores_rate(outcome: ReadOutcome)
    ensures
        ResetState::Sampling.step_spec(BusEvent::ReadDone { outcome }).action_spec()
            == (BusAction::SetTxRate { baudrate: BAUDRATE }),
        ResetState::Sampling.step_spec(BusEvent::ReadDone { outcome }).step_spec(
            BusEvent::RateChanged { ok: true },
        ).action_spec() == (BusAction::SetRxRate { baudrate: BAUDRATE }),
        ResetState::Sampling.step_spec(BusEvent::ReadDone { outcome }).step_spec(
            BusEvent::RateChanged { ok: true },
        ).step_spec(BusEvent::RateChanged { ok: true }) == (ResetState::Done {
            present: presence_spec(response_of(outcome)),
        }),
        outcome == ReadOutcome::TimedOut ==> response_of(outcome) == NO_RESPONSE,
{
}

impl ResetState {
    /// The action each state asks for.
    pub open spec fn action_spec(self) -> BusAction {
        match self {
            ResetState::SlowTx => BusAction::SetTxRate { baudrate: RESET_BAUDRATE },
            ResetState::SlowRx => BusAction::SetRxRate { baudrate: RESET_BAUDRATE },
            ResetState::Draining => BusAction::Read {
                max_len: DRAIN_BUFFER_LEN,
                timeout_us: DRAIN_TIMEOUT_US,
            },
            ResetState::Pulsing => BusAction::Write { byte: RESET_PULSE_CHAR },
            ResetState::Settling => BusAction::Wait { micros: PULSE_SETTLE_US },
            ResetState::Sampling => BusAction::Read { max_len: 1, timeout_us: RESPONSE_TIMEOUT_US },
            ResetState::FastTx { .. } => BusAction::SetTxRate { baudrate: BAUDRATE },
            ResetState::FastRx { .. } => BusAction::SetRxRate { baudrate: BAUDRATE },
            ResetState::Done { present } => BusAction::Finish { present },
            ResetState::Failed { error } => BusAction::Abort { error },
        }
    }

    /// The transition on the result of the pending action. An event that
    /// does not answer the pending action leaves the state as it is.
    pub open spec fn step_spec(self, event: BusEvent) -> ResetState {
        match (self, event) {
            (ResetState::SlowTx, BusEvent::RateChanged { ok }) => after_rate(ok, ResetState::SlowRx),
            (ResetState::SlowRx, BusEvent::RateChanged { ok }) => after_rate(ok, ResetState::Draining),
            (ResetState::Draining, BusEvent::ReadDone { outcome }) => match outcome {
                ReadOutcome::Received { count, .. } => if count > 0 {
                    ResetState::Draining
                } else {
                    ResetState::Pulsing
                },
                _ => ResetState::Pulsing,
            },
            (ResetState::Pulsing, BusEvent::WriteDone { ok }) => if ok {
                ResetState::Settling
            } else {
                ResetState::Failed { error: BusError::TransmitFailed }
            },
            (ResetState::Settling, BusEvent::Elapsed) => ResetState::Sampling,
            (ResetState::Sampling, BusEvent::ReadDone { outcome }) => ResetState::FastTx {
                response: response_of(outcome),
            },
            (ResetState::FastTx { response }, BusEvent::RateChanged { ok }) => after_rate(
                ok,
                ResetState::FastRx { response },
            ),
            (ResetState::FastRx { response }, BusEvent::RateChanged { ok }) => after_rate(
                ok,
                ResetState::Done { present: presence_spec(response) },
            ),
            _ => self,
        }
    }

    /// A reset begins by slowing the transmit side down.
    pub fn start() -> (r: ResetState)
        ensures
            r == ResetState::SlowTx,
    {
        ResetState::SlowTx
    }

    /// Whether the reset has ended, with a presence verdict or a fault.
    pub fn is_finished(&self) -> (r: bool)
        ensures
            r == (self is Done || self is Failed),
    {
        match self {
            ResetState::Done { .. } | ResetState::Failed { .. } => true,
            _ => false,
        }
    }

    /// The action the driver must perform next.
    pub fn action(&self) -> (r: BusAction)
        ensures
            r == self.action_spec(),
    {
        match *self {
            ResetState::SlowTx => BusAction::SetTxRate { baudrate: RESET_BAUDRATE },
            ResetState::SlowRx => BusAction::SetRxRate { baudrate: RESET_BAUDRATE },
            ResetState::Draining => BusAction::Read {
                max_len: DRAIN_BUFFER_LEN,
                timeout_us: DRAIN_TIMEOUT_US,
            },
            ResetState::Pulsing => BusAction::Write { byte: RESET_PULSE_CHAR },
            ResetState::Settling => BusAction::Wait { micros: PULSE_SETTLE_US },
            ResetState::Sampling => BusAction::Read { max_len: 1, timeout_us: RESPONSE_TIMEOUT_US },
            ResetState::FastTx { .. } => BusAction::SetTxRate { baudrate: BAUDRATE },
            ResetState::FastRx { .. } => BusAction::SetRxRate { baudrate: BAUDRATE },
            ResetState::Done { present } => BusAction::Finish { present },
            ResetState::Failed { error } => BusAction::Abort { error },
        }
    }

    /// Advances the reset on the result of the pending action.
    pub fn step(&self, event: BusEvent) -> (r: ResetState)
        ensures
            r == self.step_spec(event),
    {
        let config_failed = ResetState::Failed { error: BusError::ConfigurationFailed };
        match (*self, event) {
            (ResetState::SlowTx, BusEvent::RateChanged { ok }) => {
                if ok { ResetState::SlowRx } else { config_failed }
            },
            (ResetState::SlowRx, BusEvent::RateChanged { ok }) => {
                if ok { ResetState::Draining } else { config_failed }
            },
            (ResetState::Draining, BusEvent::ReadDone { outcome }) => match outcome {
                ReadOutcome::Received { count, .. } => {
                    if count > 0 { ResetState::Draining } else { ResetState::Pulsing }
                },
                _ => ResetState::Pulsing,
            },
            (ResetState::Pulsing, BusEvent::WriteDone { ok }) => {
                if ok {
                    ResetState::Settling
                } else {
                    ResetState::Failed { error: BusError::TransmitFailed }
                }
            },
            (ResetState::Settling, BusEvent::Elapsed) => ResetState::Sampling,
            (ResetState::Sampling, BusEvent::ReadDone { outcome }) => {
                let response = match outcome {
                    ReadOutcome::Received { count, first } => {
                        if count > 0 { first } else { NO_RESPONSE }
                    },
                    _ => NO_RESPONSE,
                };
                ResetState::FastTx { response }
            },
            (ResetState::FastTx { response }, BusEvent::RateChanged { ok }) => {
                if ok { ResetState::FastRx { response } } else { config_failed }
            },
            (ResetState::FastRx { response }, BusEvent::RateChanged { ok }) => {
                if ok {
                    ResetState::Done { present: is_device_present(response) }
                } else {
                    config_failed
                }
            },
            _ => *self,
        }
    }
}

spec fn slow_rate_inv(state: ResetState, rates: (u32, u32)) -> bool {
    &&& state is SlowRx ==> rates.0 == RESET_BAUDRATE
    &&& (state is Draining || state is Pulsing || state is Settling || state is Sampling) ==> rates
        == (RESET_BAUDRATE, RESET_BAUDRATE)
}

proof fn lemma_run_keeps_slow_rate(state: ResetState, events: Seq<BusEvent>, rates: (u32, u32))
    requires
        slow_rate_inv(state, rates),
    ensures
        slow_rate_inv(run(state, events, rates).0, run(state, events, rates).1),
    decreases events.len(),
{
    if events.len() > 0 {
        lemma_run_keeps_slow_rate(
            state.step_spec(events[0]),
            events.drop_first(),
            rates_after(state, events[0], rates),
        );
    }
}

/// How many times `events` answer a write of the reset pulse, starting from `state`.
pub open spec fn pulse_writes(state: ResetState, events: Seq<BusEvent>) -> nat
    decreases events.len(),
{
    if events.len() == 0 {
        0
    } else {
        (if state is Pulsing && events[0] is WriteDone { 1nat } else { 0nat }) + pulse_writes(
            state.step_spec(events[0]),
            events.drop_first(),
        )
    }
}

spec fn phase_rank(state: ResetState) -> nat {
    match state {
        ResetState::SlowTx => 0,
        ResetState::SlowRx => 1,
        ResetState::Draining => 2,
        ResetState::Pulsing => 3,
        ResetState::Settling => 4,
        ResetState::Sampling => 5,
        ResetState::FastTx { .. } => 6,
        ResetState::FastRx { .. } => 7,
        ResetState::Done { .. } => 8,
        ResetState::Failed { .. } => 8,
    }
}

proof fn lemma_pulse_written_once(state: ResetState, events: Seq<BusEvent>)
    ensures
        pulse_writes(state, events) <= (if phase_rank(state) <= 3 { 1nat } else { 0nat }),
    decreases events.len(),
{
    if events.len() > 0 {
        lemma_pulse_written_once(state.step_spec(events[0]), events.drop_first());
    }
}

/// A reset writes the pulse character at most once, and only while both
/// sides run at the reset bit rate, whatever the capabilities answer. That
/// character holds the line low for its start bit and its four low data bits,
/// five bit times, which at the reset rate last at least 480 µs.
pub proof fn lemma_reset_pulse(events: Seq<BusEvent>, rates: (u32, u32))
    ensures
        pulse_writes(ResetState::SlowTx, events) <= 1,
        run(ResetState::SlowTx, events, rates).0 is Pulsing ==> run(ResetState::SlowTx, events, rates).1
            == (RESET_BAUDRATE, RESET_BAUDRATE),
        ResetState::Pulsing.action_spec() == (BusAction::Write { byte: RESET_PULSE_CHAR }),
        RESET_PULSE_CHAR & 0x0Fu8 == 0,
        RESET_PULSE_CHAR & 0x10u8 != 0,
        (5 * 1_000_000) as int / (RESET_BAUDRATE as int) >= 480,
{
    lemma_run_keeps_slow_rate(ResetState::SlowTx, events, rates);
    lemma_pulse_written_once(ResetState::SlowTx, events);
    assert(0xF0u8 & 0x0Fu8 == 0 && 0xF0u8 & 0x10u8 != 0) by (bit_vector);
}

} // verus!
