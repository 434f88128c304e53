use vstd::prelude::*;

use crate::clock::Timestamp;
use crate::measurement::DeviceAddress;
use crate::measurement::WavePlusMeasurement;

verus! {

/// The phase the orchestration loop is in. The loop is in exactly one mode
/// per iteration, performs that mode's action, and steps to the next mode.
#[derive(Clone, Copy, Debug, PartialEq, Eq, Structural)]
pub enum ExecutionMode {
    Initialize,
    Reinitialize,
    CollectMeasurement,
    SendMeasurement,
    Wait,
    WifiDisconnect,
    WifiReconnect,
}

/// The display category shown on the status indicator; a pure projection of
/// the execution mode, never set independently.
#[derive(Clone, Copy, Debug, PartialEq, Eq, Structural)]
pub enum Status {
    Initializing,
    Ready,
    Collecting,
    Sending,
    Error,
    Recovering,
}

/// The display category that belongs to each execution mode.
pub open spec fn status_of(mode: ExecutionMode) -> Status {
    match mode {
        ExecutionMode::Initialize => Status::Initializing,
        ExecutionMode::Reinitialize => Status::Recovering,
        ExecutionMode::CollectMeasurement => Status::Collecting,
        ExecutionMode::SendMeasurement => Status::Sending,
        ExecutionMode::Wait => Status::Ready,
        ExecutionMode::WifiDisconnect => Status::Error,
        ExecutionMode::WifiReconnect => Status::Recovering,
    }
}

impl From<ExecutionMode> for Status {
    fn from(mode: ExecutionMode) -> Status {
        match mode {
            ExecutionMode::Initialize => Status::Initializing,
            ExecutionMode::Reinitialize => Status::Recovering,
            ExecutionMode::CollectMeasurement => Status::Collecting,
            ExecutionMode::SendMeasurement => Status::Sending,
            ExecutionMode::Wait => Status::Ready,
            ExecutionMode::WifiDisconnect => Status::Error,
            ExecutionMode::WifiReconnect => Status::Recovering,
        }
    }
}

impl vstd::std_specs::convert::FromSpecImpl<ExecutionMode> for Status {
    open spec fn obeys_from_spec() -> bool {
        true
    }

    open spec fn from_spec(mode: ExecutionMode) -> Status {
        status_of(mode)
    }
}

/// Monotonically increasing counts of recoverable failures, observational
/// only; every transmitted payload carries them for operational visibility.
#[derive(Clone, Copy, Debug, PartialEq, Eq, Structural)]
pub struct Errors {
    pub wifi_disconnects: u64,
    pub ble_disconnects: u64,
    pub http_errors: u64,
}

impl Default for Errors {
    /// All counters start at zero.
    fn default() -> (r: Errors)
        ensures
            r == (Errors { wifi_disconnects: 0, ble_disconnects: 0, http_errors: 0 }),
    {
        Errors { wifi_disconnects: 0, ble_disconnects: 0, http_errors: 0 }
    }
}

impl Errors {
    /// The counters after one more network-link loss.
    pub open spec fn spec_wifi_disconnected(self) -> Errors {
        Errors { wifi_disconnects: (self.wifi_disconnects + 1) as u64, ..self }
    }

    /// The counters after one more radio-level failure.
    pub open spec fn spec_ble_disconnected(self) -> Errors {
        Errors { ble_disconnects: (self.ble_disconnects + 1) as u64, ..self }
    }

    /// The counters after one more failed transmission.
    pub open spec fn spec_http_error(self) -> Errors {
        Errors { http_errors: (self.http_errors + 1) as u64, ..self }
    }

    /// Counts one more network-link loss.
    pub fn wifi_disconnected(&self) -> (r: Errors)
        requires
            self.wifi_disconnects < u64::MAX,
        ensures
            r == self.spec_wifi_disconnected(),
    {
        Errors { wifi_disconnects: self.wifi_disconnects + 1, ..*self }
    }

    /// Counts one more radio-level failure.
    pub fn ble_disconnected(&self) -> (r: Errors)
        requires
            self.ble_disconnects < u64::MAX,
        ensures
            r == self.spec_ble_disconnected(),
    {
        Errors { ble_disconnects: self.ble_disconnects + 1, ..*self }
    }

    /// Counts one more failed transmission.
    pub fn http_error(&self) -> (r: Errors)
        requires
            self.http_errors < u64::MAX,
        ensures
            r == self.spec_http_error(),
    {
        Errors { http_errors: self.http_errors + 1, ..*self }
    }
}

/// The single snapshot driving the loop, replaced whole on every transition
/// and never mutated in place.
#[derive(Clone, Copy, Debug)]
pub struct State {
    /// The mode the loop is in.
    pub mode: ExecutionMode,
    /// The display category derived from `mode`.
    pub status: Status,
    /// The time of the last successful cycle; nothing until one completes.
    pub last_run: Option<Timestamp>,
    /// The most recently decoded record, held only while it awaits dispatch.
    pub measurement: Option<WavePlusMeasurement>,
    /// Set when a radon-bearing record failed to transmit, so that the next
    /// cycle reads radon again instead of silently dropping it.
    pub force_radon_measurement: bool,
    /// The discovered sensor, held as its transport address; the live radio
    /// handle itself stays with the radio collaborator.
    pub waveplus: Option<DeviceAddress>,
    /// The failure counters.
    pub errors: Errors,
}

impl Default for State {
    /// The boot snapshot: about to initialize, nothing run yet, nothing
    /// decoded, no device discovered, no failure counted, and radon forced on
    /// so the first cycle reads it.
    fn default() -> (r: State)
        ensures
            r == (State {
                mode: ExecutionMode::Initialize,
                status: Status::Initializing,
                last_run: None,
                measurement: None,
                force_radon_measurement: true,
                waveplus: None,
                errors: Errors { wifi_disconnects: 0, ble_disconnects: 0, http_errors: 0 },
            }),
            r.wf(),
    {
        State {
            mode: ExecutionMode::Initialize,
            status: Status::Initializing,
            last_run: None,
            measurement: None,
            force_radon_measurement: true,
            waveplus: None,
            errors: Errors::default(),
        }
    }
}

impl State {
    /// The snapshot's internal invariant: the status is the projection of the
    /// mode, a decoded record is held only while awaiting dispatch, and any
    /// recorded last-run time is a well-formed timestamp.
    pub open spec fn wf(self) -> bool {
        &&& self.status == status_of(self.mode)
        &&& self.measurement is Some ==> self.mode == ExecutionMode::SendMeasurement
        &&& self.last_run matches Some(t) ==> t.wf()
    }

    /// The snapshot after a mode change: the status is recomputed, the held
    /// record is dropped, and everything else is carried over.
    pub open spec fn spec_with_mode(self, mode: ExecutionMode) -> State {
        State { mode, status: status_of(mode), measurement: None, ..self }
    }

    /// Whether the held record carries a radon reading; false when none is
    /// held.
    pub open spec fn spec_measurement_has_radon(self) -> bool {
        self.measurement matches Some(m) && m.spec_has_radon()
    }

    /// Steps to another mode, recomputing the status and dropping any held
    /// record.
    pub fn with_mode(&self, mode: ExecutionMode) -> (r: State)
        ensures
            r == self.spec_with_mode(mode),
    {
        State { mode, status: Status::from(mode), measurement: None, ..*self }
    }

    /// Records the time of a completed cycle.
    pub fn with_last_run(&self, last_run: Timestamp) -> (r: State)
        ensures
            r == (State { last_run: Some(last_run), ..*self }),
    {
        State { last_run: Some(last_run), ..*self }
    }

    /// Sets or clears the radon-protection flag.
    pub fn force_radon_measurement(&self, force_radon_measurement: bool) -> (r: State)
        ensures
            r == (State { force_radon_measurement, ..*self }),
    {
        State { force_radon_measurement, ..*self }
    }

    /// Attaches a freshly decoded record.
    pub fn with_measurement(&self, measurement: WavePlusMeasurement) -> (r: State)
        ensures
            r == (State { measurement: Some(measurement), ..*self }),
    {
        State { measurement: Some(measurement), ..*self }
    }

    /// Records the discovered device.
    pub fn with_waveplus(&self, waveplus: DeviceAddress) -> (r: State)
        ensures
            r == (State { waveplus: Some(waveplus), ..*self }),
    {
        State { waveplus: Some(waveplus), ..*self }
    }

    /// Counts one more network-link loss.
    pub fn wifi_disconnected(&self) -> (r: State)
        requires
            self.errors.wifi_disconnects < u64::MAX,
        ensures
            r == (State { errors: self.errors.spec_wifi_disconnected(), ..*self }),
    {
        State { errors: self.errors.wifi_disconnected(), ..*self }
    }

    /// Counts one more radio-level failure.
    pub fn ble_disconnected(&self) -> (r: State)
        requires
            self.errors.ble_disconnects < u64::MAX,
        ensures
            r == (State { errors: self.errors.spec_ble_disconnected(), ..*self }),
    {
        State { errors: self.errors.ble_disconnected(), ..*self }
    }

    /// Counts one more failed transmission.
    pub fn http_error(&self) -> (r: State)
        requires
            self.errors.http_errors < u64::MAX,
        ensures
            r == (State { errors: self.errors.spec_http_error(), ..*self }),
    {
        State { errors: self.errors.http_error(), ..*self }
    }

    /// Whether the held record carries a radon reading.
    pub fn measurement_has_radon(&self) -> (r: bool)
        ensures
            r == self.spec_measurement_has_radon(),
    {
        if let Some(measurement) = self.measurement {
            measurement.has_radon()
        } else {
            false
        }
    }

    /// Whether this cycle's read should request and keep the radon fields:
    /// when no cycle has completed yet, when the hour of day has advanced
    /// past the last run's, or when a radon-bearing record failed to
    /// transmit.
    pub fn include_radon(&self, current: Timestamp) -> (r: bool)
        ensures
            r == (spec_should_include_radon(self.last_run, current)
                || self.force_radon_measurement),
    {
        should_include_radon(self.last_run, current) || self.force_radon_measurement
    }
}

/// The hourly radon schedule: include radon when no cycle has completed yet,
/// or when the hour of day of the current time is strictly greater than the
/// hour of day of the last run.
pub open spec fn spec_should_include_radon(last: Option<Timestamp>, current: Timestamp) -> bool {
    match last {
        Some(l) => l.hour < current.hour,
        None => true,
    }
}

/// Decides the hourly radon schedule. The comparison is on the hour of day
/// alone and is strict, so a run at hour 23 followed by one at hour 0 of the
/// next day does not re-trigger inclusion; that asymmetry is the deliberate,
/// literal policy.
pub fn should_include_radon(last: Option<Timestamp>, current: Timestamp) -> (r: bool)
    ensures
        r == spec_should_include_radon(last, current),
{
    if let Some(last) = last {
        last.hour < current.hour
    } else {
        true
    }
}

/// What a mode's action came back with: the collaborator outcome that drives
/// the transition out of that mode.
#[derive(Clone, Copy, Debug)]
pub enum Event {
    /// Discovery found the sensor (initialization modes).
    DeviceFound { waveplus: DeviceAddress },
    /// The link was dropped and the short pause elapsed (disconnect mode).
    LinkDropped,
    /// The transport reports the link up again (reconnect mode).
    LinkUp,
    /// The read and decode succeeded (collection mode).
    ReadSucceeded { measurement: WavePlusMeasurement },
    /// The read or decode failed, or no device was held (collection mode).
    ReadFailed,
    /// The dispatch was accepted, at the given time (sending mode).
    DispatchSucceeded { current: Timestamp },
    /// The dispatch failed or was rejected (sending mode).
    DispatchFailed,
    /// The between-cycles sleep elapsed (waiting mode).
    SleepElapsed,
}

/// Whether an event is one that the snapshot's current mode can produce, and
/// carries what the transition needs: dispatch outcomes presuppose a held
/// record, and a dispatch time must be a well-formed timestamp.
pub open spec fn event_fits(s: State, e: Event) -> bool {
    match e {
        Event::DeviceFound { waveplus } => s.mode == ExecutionMode::Initialize || s.mode
            == ExecutionMode::Reinitialize,
        Event::LinkDropped => s.mode == ExecutionMode::WifiDisconnect,
        Event::LinkUp => s.mode == ExecutionMode::WifiReconnect,
        Event::ReadSucceeded { measurement } => s.mode == ExecutionMode::CollectMeasurement,
        Event::ReadFailed => s.mode == ExecutionMode::CollectMeasurement,
        Event::DispatchSucceeded { current } => s.mode == ExecutionMode::SendMeasurement
            && s.measurement is Some && current.wf(),
        Event::DispatchFailed => s.mode == ExecutionMode::SendMeasurement && s.measurement is Some,
        Event::SleepElapsed => s.mode == ExecutionMode::Wait,
    }
}

/// Whether the counter that the event would advance still has room; a device
/// cycling once per interval cannot reach the bound in practice.
pub open spec fn counters_have_room(s: State, e: Event) -> bool {
    match e {
        Event::DeviceFound { waveplus } => s.mode == ExecutionMode::Reinitialize
            ==> s.errors.ble_disconnects < u64::MAX,
        Event::LinkDropped => s.errors.wifi_disconnects < u64::MAX,
        Event::DispatchFailed => s.errors.http_errors < u64::MAX,
        _ => true,
    }
}

/// The transition function of the loop, one mode and outcome at a time:
///
/// - discovery success enters collection with the device recorded, counting a
///   radio failure when it was a re-discovery;
/// - a dropped link enters reconnection, counted;
/// - a restored link, a read failure, and an elapsed sleep enter collection,
///   re-initialization, and collection respectively;
/// - a successful read enters sending with the record attached and the
///   radon-protection flag cleared by the fresh decode;
/// - a successful dispatch enters waiting, records the cycle time and clears
///   the radon-protection flag;
/// - a failed dispatch enters the disconnect path, counted, and raises the
///   radon-protection flag exactly when the undelivered record carried radon.
pub open spec fn spec_step(s: State, e: Event) -> State {
    match e {
        Event::DeviceFound { waveplus } => {
            let entered = State {
                waveplus: Some(waveplus),
                ..s.spec_with_mode(ExecutionMode::CollectMeasurement)
            };
            if s.mode == ExecutionMode::Reinitialize {
                State { errors: s.errors.spec_ble_disconnected(), ..entered }
            } else {
                entered
            }
        },
        Event::LinkDropped => State {
            errors: s.errors.spec_wifi_disconnected(),
            ..s.spec_with_mode(ExecutionMode::WifiReconnect)
        },
        Event::LinkUp => s.spec_with_mode(ExecutionMode::CollectMeasurement),
        Event::ReadSucceeded { measurement } => State {
            measurement: Some(measurement),
            force_radon_measurement: false,
            ..s.spec_with_mode(ExecutionMode::SendMeasurement)
        },
        Event::ReadFailed => s.spec_with_mode(ExecutionMode::Reinitialize),
        Event::DispatchSucceeded { current } => State {
            last_run: Some(current),
            force_radon_measurement: false,
            ..s.spec_with_mode(ExecutionMode::Wait)
        },
        Event::DispatchFailed => State {
            force_radon_measurement: s.spec_measurement_has_radon(),
            errors: s.errors.spec_http_error(),
            ..s.spec_with_mode(ExecutionMode::WifiDisconnect)
        },
        Event::SleepElapsed => s.spec_with_mode(ExecutionMode::CollectMeasurement),
    }
}

impl State {
    /// Performs one transition of the loop: from this snapshot and the
    /// outcome of its mode's action to the next snapshot.
    pub fn step(&self, event: Event) -> (r: State)
        requires
            self.wf(),
            event_fits(*self, event),
            counters_have_room(*self, event),
        ensures
            r == spec_step(*self, event),
            r.wf(),
    {
        match event {
            Event::DeviceFound { waveplus } => {
                let entered = self.with_mode(ExecutionMode::CollectMeasurement).with_waveplus(
                    waveplus,
                );
                match self.mode {
                    ExecutionMode::Reinitialize => entered.ble_disconnected(),
                    _ => entered,
                }
            },
            Event::LinkDropped => self.with_mode(ExecutionMode::WifiReconnect).wifi_disconnected(),
            Event::LinkUp => self.with_mode(ExecutionMode::CollectMeasurement),
            Event::ReadSucceeded { measurement } => self.with_mode(
                ExecutionMode::SendMeasurement,
            ).force_radon_measurement(false).with_measurement(measurement),
            Event::ReadFailed => self.with_mode(ExecutionMode::Reinitialize),
            Event::DispatchSucceeded { current } => self.with_mode(
                ExecutionMode::Wait,
            ).force_radon_measurement(false).with_last_run(current),
            Event::DispatchFailed => {
                let force = self.measurement_has_radon();
                self.with_mode(ExecutionMode::WifiDisconnect).force_radon_measurement(
                    force,
                ).http_error()
            },
            Event::SleepElapsed => self.with_mode(ExecutionMode::CollectMeasurement),
        }
    }
}

/// The transition table of the loop: which next modes each mode may step to.
pub open spec fn declared_next(from: ExecutionMode, to: ExecutionMode) -> bool {
    match from {
        ExecutionMode::Initialize => to == ExecutionMode::CollectMeasurement,
        ExecutionMode::Reinitialize => to == ExecutionMode::CollectMeasurement,
        ExecutionMode::WifiDisconnect => to == ExecutionMode::WifiReconnect,
        ExecutionMode::WifiReconnect => to == ExecutionMode::CollectMeasurement,
        ExecutionMode::CollectMeasurement => to == ExecutionMode::SendMeasurement || to
            == ExecutionMode::Reinitialize,
        ExecutionMode::SendMeasurement => to == ExecutionMode::Wait || to
            == ExecutionMode::WifiDisconnect,
        ExecutionMode::Wait => to == ExecutionMode::CollectMeasurement,
    }
}

/// No transition leaves the declared table: for every snapshot and every
/// outcome its mode can produce, the next snapshot's mode is one of the
/// declared next modes of the current mode.
pub proof fn lemma_step_stays_in_table(s: State, e: Event)
    requires
        event_fits(s, e),
    ensures
        declared_next(s.mode, spec_step(s, e).mode),
{
}

/// Every transition preserves the snapshot invariant: from a well-formed
/// snapshot and a fitting outcome, the next snapshot is well-formed too.
pub proof fn lemma_step_preserves_wf(s: State, e: Event)
    requires
        s.wf(),
        event_fits(s, e),
    ensures
        spec_step(s, e).wf(),
{
}

/// The failure counters only ever grow: no transition resets or decreases
/// any of them.
pub proof fn lemma_counters_monotone(s: State, e: Event)
    requires
        event_fits(s, e),
        counters_have_room(s, e),
    ensures
        spec_step(s, e).errors.wifi_disconnects >= s.errors.wifi_disconnects,
        spec_step(s, e).errors.ble_disconnects >= s.errors.ble_disconnects,
        spec_step(s, e).errors.http_errors >= s.errors.http_errors,
{
}

/// Every fresh decode clears the radon-protection flag: a successful read
/// attaches its record and lowers the flag, whose work — forcing that very
/// read — is done.
pub proof fn lemma_fresh_decode_clears_force_flag(s: State, m: WavePlusMeasurement)
    requires
        s.mode == ExecutionMode::CollectMeasurement,
    ensures
        spec_step(s, (Event::ReadSucceeded { measurement: m })).force_radon_measurement == false,
        spec_step(s, (Event::ReadSucceeded { measurement: m })).measurement == Some(m),
{
}

/// The dispatch outcome drives the radon-protection flag: a failed dispatch
/// raises it exactly when the undelivered record carried radon and counts the
/// failure, while a successful dispatch clears it and records the cycle time.
pub proof fn lemma_dispatch_outcome_drives_force_flag(s: State, current: Timestamp)
    requires
        s.mode == ExecutionMode::SendMeasurement,
        s.measurement is Some,
    ensures
        spec_step(s, Event::DispatchFailed).force_radon_measurement
            == s.spec_measurement_has_radon(),
        spec_step(s, Event::DispatchFailed).errors.http_errors == (s.errors.http_errors + 1) as u64,
        spec_step(s, (Event::DispatchSucceeded { current })).force_radon_measurement == false,
        spec_step(s, (Event::DispatchSucceeded { current })).last_run == Some(current),
{
}

} // verus!
