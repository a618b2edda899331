//! The measurement cycle as a state machine.
//!
//! One cycle triggers a temperature measurement, waits, reads two bytes,
//! triggers a pressure measurement, waits, reads three bytes, compensates the
//! two raw counts and reports the result; then it pauses until the next
//! cycle. The cycle owns neither the bus nor a clock. Each call of
//! [`MeasurementCycle::step`] takes the outcome of the previous action and
//! returns the next one for the caller to perform.

use crate::bus::BusError;
use crate::calibration::CalibrationCoefficients;
use crate::compensation::{
    compensate, raw_pressure, raw_temperature, spec_compensate, spec_raw_pressure,
    spec_raw_temperature, ArithmeticError, Pressure, Temperature,
};
use crate::oversampling::Oss;
use crate::registers::{
    ADDR_CTRL_MEAS, ADDR_OUT_MSB, MEASURE_TEMPERATURE, REPORT_INTERVAL_MS, TEMPERATURE_DELAY_US,
};
use vstd::prelude::*;

verus! {

/// The five phases of a cycle, in the order in which a cycle passes them.
#[derive(Clone, Copy, Debug, PartialEq, Eq, Structural)]
pub enum Phase {
    Idle,
    AwaitingTemperature,
    AwaitingPressure,
    Computing,
    Reporting,
}

/// Where a cycle stands: the phase, the action that is in flight, and the raw
/// counts read so far.
#[derive(Clone, Copy, Debug, PartialEq, Eq, Structural)]
pub enum CycleState {
    /// Between two cycles: nothing is in flight, or the pause is.
    Idle,
    /// The temperature command is being written.
    TemperatureTrigger,
    /// The temperature conversion is being waited for.
    TemperatureWait,
    /// The output register is being selected for the temperature read.
    TemperatureSelect,
    /// The two temperature bytes are being read.
    TemperatureRead,
    /// The pressure command is being written.
    PressureTrigger { ut: u16 },
    /// The pressure conversion is being waited for.
    PressureWait { ut: u16 },
    /// The output register is being selected for the pressure read.
    PressureSelect { ut: u16 },
    /// The three pressure bytes are being read.
    PressureRead { ut: u16 },
    /// Both raw counts are at hand and the bus is free.
    Computing { ut: u16, up: u32 },
    /// A report is being handed over.
    Reporting,
}

/// What the caller is to do next. Bus transactions go to the sensor's
/// address.
#[derive(Clone, Copy, Debug, PartialEq, Eq, Structural)]
pub enum Action {
    /// Write the two bytes `register`, `value`.
    Write { register: u8, value: u8 },
    /// Write the single byte `register`, so that the next read starts there.
    Select { register: u8 },
    /// Read `len` bytes.
    Read { len: usize },
    /// Block for at least this many microseconds.
    DelayMicros(u32),
    /// Nothing to perform: step again.
    Continue,
    /// Hand this measurement to whoever collects them.
    Report { temperature: Temperature, pressure: Pressure },
    /// Tell whoever collects measurements that this one has no result.
    ReportFailure(ArithmeticError),
    /// Tell whoever collects measurements that the bus has failed in this
    /// many cycles in a row, the last time with `error`.
    Escalate { error: BusError, failures: u32 },
    /// Block for at least this many milliseconds.
    SleepMillis(u32),
}

/// How the previous action ended.
#[derive(Clone, Copy, Debug, PartialEq, Eq, Structural)]
pub enum Event {
    /// It completed and has nothing to hand back. This also starts the first
    /// cycle.
    Done,
    /// A read of two bytes completed with these.
    TwoBytes { msb: u8, lsb: u8 },
    /// A read of three bytes completed with these.
    ThreeBytes { msb: u8, lsb: u8, xlsb: u8 },
    /// A bus transaction failed.
    BusError(BusError),
}

/// One sensor's measurement cycle.
#[derive(Clone, Copy, Debug, PartialEq, Eq, Structural)]
pub struct MeasurementCycle {
    /// The sensor's calibration coefficients.
    pub calibration: CalibrationCoefficients,
    /// The oversampling setting of every pressure measurement.
    pub mode: Oss,
    /// Where the cycle stands.
    pub state: CycleState,
    /// Number of cycles in a row that a bus failure has ended.
    pub consecutive_failures: u32,
    /// Number of bus failures in a row from which on each one is escalated;
    /// `None` never escalates.
    pub failure_cap: Option<u32>,
}

impl CycleState {
    /// The phase that a state belongs to.
    pub open spec fn spec_phase(self) -> Phase {
        match self {
            CycleState::Idle => Phase::Idle,
            CycleState::TemperatureTrigger => Phase::AwaitingTemperature,
            CycleState::TemperatureWait => Phase::AwaitingTemperature,
            CycleState::TemperatureSelect => Phase::AwaitingTemperature,
            CycleState::TemperatureRead => Phase::AwaitingTemperature,
            CycleState::PressureTrigger { .. } => Phase::AwaitingPressure,
            CycleState::PressureWait { .. } => Phase::AwaitingPressure,
            CycleState::PressureSelect { .. } => Phase::AwaitingPressure,
            CycleState::PressureRead { .. } => Phase::AwaitingPressure,
            CycleState::Computing { .. } => Phase::Computing,
            CycleState::Reporting => Phase::Reporting,
        }
    }

    /// The phase that a state belongs to.
    pub fn phase(self) -> (phase: Phase)
        ensures
            phase == self.spec_phase(),
    {
        match self {
            CycleState::Idle => Phase::Idle,
            CycleState::TemperatureTrigger
            | CycleState::TemperatureWait
            | CycleState::TemperatureSelect
            | CycleState::TemperatureRead => Phase::AwaitingTemperature,
            CycleState::PressureTrigger { .. }
            | CycleState::PressureWait { .. }
            | CycleState::PressureSelect { .. }
            | CycleState::PressureRead { .. } => Phase::AwaitingPressure,
            CycleState::Computing { .. } => Phase::Computing,
            CycleState::Reporting => Phase::Reporting,
        }
    }
}

impl Phase {
    /// The phase that follows in a cycle; after the last comes the first.
    pub open spec fn spec_successor(self) -> Phase {
        match self {
            Phase::Idle => Phase::AwaitingTemperature,
            Phase::AwaitingTemperature => Phase::AwaitingPressure,
            Phase::AwaitingPressure => Phase::Computing,
            Phase::Computing => Phase::Reporting,
            Phase::Reporting => Phase::Idle,
        }
    }
}

impl MeasurementCycle {
    /// The cycle in `state`, all else unchanged.
    pub open spec fn spec_at(self, state: CycleState) -> MeasurementCycle {
        MeasurementCycle { state, ..self }
    }

    /// The report of a compensation's outcome.
    pub open spec fn spec_report(outcome: Result<(Temperature, Pressure), ArithmeticError>) -> Action {
        match outcome {
            Ok((temperature, pressure)) => Action::Report { temperature, pressure },
            Err(e) => Action::ReportFailure(e),
        }
    }

    /// The step that abandons the cycle: the pause is next, and a new cycle
    /// after it.
    pub open spec fn spec_abandon(self) -> (MeasurementCycle, Action) {
        (self.spec_at(CycleState::Idle), Action::SleepMillis(REPORT_INTERVAL_MS))
    }

    /// Whether a run of `failures` bus failures is escalated.
    pub open spec fn spec_escalates(self, failures: u32) -> bool {
        match self.failure_cap {
            Some(cap) => failures >= cap,
            None => false,
        }
    }

    /// The step on a bus failure: the cycle is abandoned and the failure
    /// counted; from the cap on it is escalated before the pause.
    pub open spec fn spec_fail(self, error: BusError) -> (MeasurementCycle, Action) {
        let failures = if self.consecutive_failures == u32::MAX {
            u32::MAX
        } else {
            (self.consecutive_failures + 1) as u32
        };
        let counted = MeasurementCycle { consecutive_failures: failures, ..self };
        if self.spec_escalates(failures) {
            (counted.spec_at(CycleState::Reporting), Action::Escalate { error, failures })
        } else {
            counted.spec_abandon()
        }
    }

    /// The cycle after `event`, and the action that it asks for.
    ///
    /// A bus failure ends the cycle in any state. The event that the action
    /// in flight hands back moves the cycle on. Any other event does not fit
    /// the state, and the cycle is abandoned.
    pub open spec fn spec_step(self, event: Event) -> (MeasurementCycle, Action) {
        let policy = self.mode.spec_policy();
        match (self.state, event) {
            (_, Event::BusError(error)) => self.spec_fail(error),
            (CycleState::Idle, Event::Done) => (
                self.spec_at(CycleState::TemperatureTrigger),
                Action::Write { register: ADDR_CTRL_MEAS, value: MEASURE_TEMPERATURE },
            ),
            (CycleState::TemperatureTrigger, Event::Done) => (
                self.spec_at(CycleState::TemperatureWait),
                Action::DelayMicros(TEMPERATURE_DELAY_US),
            ),
            (CycleState::TemperatureWait, Event::Done) => (
                self.spec_at(CycleState::TemperatureSelect),
                Action::Select { register: ADDR_OUT_MSB },
            ),
            (CycleState::TemperatureSelect, Event::Done) => (
                self.spec_at(CycleState::TemperatureRead),
                Action::Read { len: 2 },
            ),
            (CycleState::TemperatureRead, Event::TwoBytes { msb, lsb }) => (
                self.spec_at(
                    CycleState::PressureTrigger { ut: spec_raw_temperature(msb, lsb) as u16 },
                ),
                Action::Write { register: ADDR_CTRL_MEAS, value: policy.pressure_command },
            ),
            (CycleState::PressureTrigger { ut }, Event::Done) => (
                self.spec_at(CycleState::PressureWait { ut }),
                Action::DelayMicros(policy.delay_micros),
            ),
            (CycleState::PressureWait { ut }, Event::Done) => (
                self.spec_at(CycleState::PressureSelect { ut }),
                Action::Select { register: ADDR_OUT_MSB },
            ),
            (CycleState::PressureSelect { ut }, Event::Done) => (
                self.spec_at(CycleState::PressureRead { ut }),
                Action::Read { len: 3 },
            ),
            (CycleState::PressureRead { ut }, Event::ThreeBytes { msb, lsb, xlsb }) => (
                MeasurementCycle {
                    state: CycleState::Computing {
                        ut,
                        up: spec_raw_pressure(msb, lsb, xlsb, self.mode) as u32,
                    },
                    consecutive_failures: 0,
                    ..self
                },
                Action::Continue,
            ),
            (CycleState::Computing { ut, up }, Event::Done) => (
                self.spec_at(CycleState::Reporting),
                Self::spec_report(spec_compensate(self.calibration, ut, up, self.mode)),
            ),
            (CycleState::Reporting, Event::Done) => self.spec_abandon(),
            _ => self.spec_abandon(),
        }
    }

    /// A cycle for the sensor with these coefficients, at rest, that never
    /// escalates.
    pub fn new(calibration: CalibrationCoefficients, mode: Oss) -> (cycle: MeasurementCycle)
        ensures
            cycle == (MeasurementCycle {
                calibration,
                mode,
                state: CycleState::Idle,
                consecutive_failures: 0,
                failure_cap: None,
            }),
    {
        MeasurementCycle {
            calibration,
            mode,
            state: CycleState::Idle,
            consecutive_failures: 0,
            failure_cap: None,
        }
    }

    /// The same cycle, escalating each bus failure from the `cap`-th in a row
    /// on.
    pub fn with_failure_cap(self, cap: u32) -> (cycle: MeasurementCycle)
        ensures
            cycle == (MeasurementCycle { failure_cap: Some(cap), ..self }),
    {
        MeasurementCycle { failure_cap: Some(cap), ..self }
    }

    /// The phase that the cycle is in.
    pub fn phase(&self) -> (phase: Phase)
        ensures
            phase == self.state.spec_phase(),
    {
        self.state.phase()
    }

    fn abandon(&mut self) -> (action: Action)
        ensures
            (*final(self), action) == old(self).spec_abandon(),
    {
        self.state = CycleState::Idle;
        Action::SleepMillis(REPORT_INTERVAL_MS)
    }

    fn fail(&mut self, error: BusError) -> (action: Action)
        ensures
            (*final(self), action) == old(self).spec_fail(error),
    {
        let failures: u32 = self.consecutive_failures.saturating_add(1);
        self.consecutive_failures = failures;
        let escalate = match self.failure_cap {
            Some(cap) => failures >= cap,
            None => false,
        };
        if escalate {
            self.state = CycleState::Reporting;
            Action::Escalate { error, failures }
        } else {
            self.abandon()
        }
    }

    /// Takes the outcome of the previous action and returns the next one.
    /// Call it with `Event::Done` to start the first cycle.
    pub fn step(&mut self, event: Event) -> (action: Action)
        ensures
            (*final(self), action) == old(self).spec_step(event),
    {
        if let Event::BusError(error) = event {
            return self.fail(error);
        }
        match (self.state, event) {
            (CycleState::Idle, Event::Done) => {
                self.state = CycleState::TemperatureTrigger;
                Action::Write { register: ADDR_CTRL_MEAS, value: MEASURE_TEMPERATURE }
            },
            (CycleState::TemperatureTrigger, Event::Done) => {
                self.state = CycleState::TemperatureWait;
                Action::DelayMicros(TEMPERATURE_DELAY_US)
            },
            (CycleState::TemperatureWait, Event::Done) => {
                self.state = CycleState::TemperatureSelect;
                Action::Select { register: ADDR_OUT_MSB }
            },
            (CycleState::TemperatureSelect, Event::Done) => {
                self.state = CycleState::TemperatureRead;
                Action::Read { len: 2 }
            },
            (CycleState::TemperatureRead, Event::TwoBytes { msb, lsb }) => {
                self.state = CycleState::PressureTrigger { ut: raw_temperature(msb, lsb) };
                Action::Write {
                    register: ADDR_CTRL_MEAS,
                    value: self.mode.policy().pressure_command,
                }
            },
            (CycleState::PressureTrigger { ut }, Event::Done) => {
                self.state = CycleState::PressureWait { ut };
                Action::DelayMicros(self.mode.policy().delay_micros)
            },
            (CycleState::PressureWait { ut }, Event::Done) => {
                self.state = CycleState::PressureSelect { ut };
                Action::Select { register: ADDR_OUT_MSB }
            },
            (CycleState::PressureSelect { ut }, Event::Done) => {
                self.state = CycleState::PressureRead { ut };
                Action::Read { len: 3 }
            },
            (CycleState::PressureRead { ut }, Event::ThreeBytes { msb, lsb, xlsb }) => {
                self.state = CycleState::Computing {
                    ut,
                    up: raw_pressure(msb, lsb, xlsb, self.mode),
                };
                self.consecutive_failures = 0;
                Action::Continue
            },
            (CycleState::Computing { ut, up }, Event::Done) => {
                self.state = CycleState::Reporting;
                match compensate(&self.calibration, ut, up, self.mode) {
                    Ok((temperature, pressure)) => Action::Report { temperature, pressure },
                    Err(e) => Action::ReportFailure(e),
                }
            },
            _ => self.abandon(),
        }
    }
}

impl MeasurementCycle {
    /// The cycle after a run of events, and the actions that it asked for, in
    /// order.
    pub open spec fn spec_run(self, events: Seq<Event>) -> (MeasurementCycle, Seq<Action>)
        decreases events.len(),
    {
        if events.len() == 0 {
            (self, Seq::empty())
        } else {
            let (before, actions) = self.spec_run(events.drop_last());
            let (after, action) = before.spec_step(events.last());
            (after, actions.push(action))
        }
    }
}

/// A run over one more event is the run so far and one more step.
pub proof fn lemma_run_push(cycle: MeasurementCycle, events: Seq<Event>, event: Event)
    ensures
        cycle.spec_run(events.push(event)) == ({
            let (before, actions) = cycle.spec_run(events);
            let (after, action) = before.spec_step(event);
            (after, actions.push(action))
        }),
{
    assert(events.push(event).drop_last() =~= events);
}

/// One cycle on a working bus, whatever the bytes that the sensor returns:
/// from rest, the cycle asks for the temperature trigger, the conversion
/// wait, the register select and the read of two bytes; then for the pressure
/// trigger with the command byte of its setting, the wait of its setting, the
/// register select and the read of three bytes; then it compensates the two
/// raw counts, the pressure count assembled at the same setting, and asks for
/// one report; then for the pause. It asks for nothing else, and is at rest
/// again.
pub proof fn lemma_cycle_trace(
    cycle: MeasurementCycle,
    t_msb: u8,
    t_lsb: u8,
    p_msb: u8,
    p_lsb: u8,
    p_xlsb: u8,
)
    requires
        cycle.state == CycleState::Idle,
    ensures
        cycle.spec_run(
            seq![
                Event::Done,
                Event::Done,
                Event::Done,
                Event::Done,
                Event::TwoBytes { msb: t_msb, lsb: t_lsb },
                Event::Done,
                Event::Done,
                Event::Done,
                Event::ThreeBytes { msb: p_msb, lsb: p_lsb, xlsb: p_xlsb },
                Event::Done,
                Event::Done,
            ],
        ) == (
            (MeasurementCycle { consecutive_failures: 0, ..cycle }),
            seq![
                Action::Write { register: 0xF4, value: 0x2E },
                Action::DelayMicros(4500),
                Action::Select { register: 0xF6 },
                Action::Read { len: 2 },
                Action::Write { register: 0xF4, value: cycle.mode.spec_policy().pressure_command },
                Action::DelayMicros(cycle.mode.spec_policy().delay_micros),
                Action::Select { register: 0xF6 },
                Action::Read { len: 3 },
                Action::Continue,
                MeasurementCycle::spec_report(
                    spec_compensate(
                        cycle.calibration,
                        spec_raw_temperature(t_msb, t_lsb) as u16,
                        spec_raw_pressure(p_msb, p_lsb, p_xlsb, cycle.mode) as u32,
                        cycle.mode,
                    ),
                ),
                Action::SleepMillis(5000),
            ],
        ),
{
    let policy = cycle.mode.spec_policy();
    let ut = spec_raw_temperature(t_msb, t_lsb) as u16;
    let up = spec_raw_pressure(p_msb, p_lsb, p_xlsb, cycle.mode) as u32;
    let rested = MeasurementCycle { consecutive_failures: 0, ..cycle };

    let e0 = Seq::<Event>::empty();
    let a0 = Seq::<Action>::empty();
    assert(cycle.spec_run(e0) == (cycle, a0));

    lemma_run_push(cycle, e0, Event::Done);
    let e1 = e0.push(Event::Done);
    let a1 = a0.push(Action::Write { register: 0xF4, value: 0x2E });
    assert(cycle.spec_run(e1) == (cycle.spec_at(CycleState::TemperatureTrigger), a1));

    lemma_run_push(cycle, e1, Event::Done);
    let e2 = e1.push(Event::Done);
    let a2 = a1.push(Action::DelayMicros(4500));
    assert(cycle.spec_run(e2) == (cycle.spec_at(CycleState::TemperatureWait), a2));

    lemma_run_push(cycle, e2, Event::Done);
    let e3 = e2.push(Event::Done);
    let a3 = a2.push(Action::Select { register: 0xF6 });
    assert(cycle.spec_run(e3) == (cycle.spec_at(CycleState::TemperatureSelect), a3));

    lemma_run_push(cycle, e3, Event::Done);
    let e4 = e3.push(Event::Done);
    let a4 = a3.push(Action::Read { len: 2 });
    assert(cycle.spec_run(e4) == (cycle.spec_at(CycleState::TemperatureRead), a4));

    lemma_run_push(cycle, e4, Event::TwoBytes { msb: t_msb, lsb: t_lsb });
    let e5 = e4.push(Event::TwoBytes { msb: t_msb, lsb: t_lsb });
    let a5 = a4.push(Action::Write { register: 0xF4, value: policy.pressure_command });
    assert(cycle.spec_run(e5) == (cycle.spec_at(CycleState::PressureTrigger { ut }), a5));

    lemma_run_push(cycle, e5, Event::Done);
    let e6 = e5.push(Event::Done);
    let a6 = a5.push(Action::DelayMicros(policy.delay_micros));
    assert(cycle.spec_run(e6) == (cycle.spec_at(CycleState::PressureWait { ut }), a6));

    lemma_run_push(cycle, e6, Event::Done);
    let e7 = e6.push(Event::Done);
    let a7 = a6.push(Action::Select { register: 0xF6 });
    assert(cycle.spec_run(e7) == (cycle.spec_at(CycleState::PressureSelect { ut }), a7));

    lemma_run_push(cycle, e7, Event::Done);
    let e8 = e7.push(Event::Done);
    let a8 = a7.push(Action::Read { len: 3 });
    assert(cycle.spec_run(e8) == (cycle.spec_at(CycleState::PressureRead { ut }), a8));

    lemma_run_push(cycle, e8, Event::ThreeBytes { msb: p_msb, lsb: p_lsb, xlsb: p_xlsb });
    let e9 = e8.push(Event::ThreeBytes { msb: p_msb, lsb: p_lsb, xlsb: p_xlsb });
    let a9 = a8.push(Action::Continue);
    assert(cycle.spec_run(e9) == (rested.spec_at(CycleState::Computing { ut, up }), a9));

    lemma_run_push(cycle, e9, Event::Done);
    let e10 = e9.push(Event::Done);
    let a10 = a9.push(
        MeasurementCycle::spec_report(spec_compensate(cycle.calibration, ut, up, cycle.mode)),
    );
    assert(cycle.spec_run(e10) == (rested.spec_at(CycleState::Reporting), a10));

    lemma_run_push(cycle, e10, Event::Done);
    let e11 = e10.push(Event::Done);
    let a11 = a10.push(Action::SleepMillis(5000));
    assert(cycle.spec_run(e11) == (rested, a11));

    assert(e11 =~= seq![
        Event::Done,
        Event::Done,
        Event::Done,
        Event::Done,
        Event::TwoBytes { msb: t_msb, lsb: t_lsb },
        Event::Done,
        Event::Done,
        Event::Done,
        Event::ThreeBytes { msb: p_msb, lsb: p_lsb, xlsb: p_xlsb },
        Event::Done,
        Event::Done,
    ]);
    assert(a11 =~= seq![
        Action::Write { register: 0xF4, value: 0x2E },
        Action::DelayMicros(4500),
        Action::Select { register: 0xF6 },
        Action::Read { len: 2 },
        Action::Write { register: 0xF4, value: policy.pressure_command },
        Action::DelayMicros(policy.delay_micros),
        Action::Select { register: 0xF6 },
        Action::Read { len: 3 },
        Action::Continue,
        MeasurementCycle::spec_report(spec_compensate(cycle.calibration, ut, up, cycle.mode)),
        Action::SleepMillis(5000),
    ]);
}

/// A step keeps the phase, moves to the phase that follows it, or ends the
/// cycle: with the pause, or with an escalation.
pub proof fn lemma_phase_order(cycle: MeasurementCycle, event: Event)
    ensures
        ({
            let (after, action) = cycle.spec_step(event);
            ||| after.state.spec_phase() == cycle.state.spec_phase()
            ||| after.state.spec_phase() == cycle.state.spec_phase().spec_successor()
            ||| after.state == CycleState::Idle && action == Action::SleepMillis(5000)
            ||| after.state == CycleState::Reporting && action is Escalate
        }),
{
}

/// No step changes the calibration, the oversampling setting or the cap on
/// failures.
pub proof fn lemma_step_keeps_configuration(cycle: MeasurementCycle, event: Event)
    ensures
        cycle.spec_step(event).0.calibration == cycle.calibration,
        cycle.spec_step(event).0.mode == cycle.mode,
        cycle.spec_step(event).0.failure_cap == cycle.failure_cap,
{
}

/// A bus failure ends the cycle in any state without a measurement report:
/// the failure is counted, and what follows is the pause, or the escalation
/// where the count has reached the cap.
pub proof fn lemma_bus_failure_ends_cycle(cycle: MeasurementCycle, error: BusError)
    ensures
        ({
            let (after, action) = cycle.spec_step(Event::BusError(error));
            let failures = after.consecutive_failures;
            &&& failures == if cycle.consecutive_failures < u32::MAX {
                cycle.consecutive_failures + 1
            } else {
                u32::MAX as int
            }
            &&& match cycle.failure_cap {
                Some(cap) if failures >= cap => after.state == CycleState::Reporting && action
                    == (Action::Escalate { error, failures }),
                _ => after.state == CycleState::Idle && action == Action::SleepMillis(5000),
            }
        }),
{
}

/// A report of a measurement, with or without a result, comes only from the
/// state that holds both raw counts, and only on `Done`.
pub proof fn lemma_report_needs_both_counts(cycle: MeasurementCycle, event: Event)
    requires
        cycle.spec_step(event).1 is Report || cycle.spec_step(event).1 is ReportFailure,
    ensures
        event == Event::Done,
        cycle.state is Computing,
        cycle.spec_step(event).1 == MeasurementCycle::spec_report(
            spec_compensate(
                cycle.calibration,
                cycle.state->Computing_ut,
                cycle.state->Computing_up,
                cycle.mode,
            ),
        ),
{
}

} // verus!
