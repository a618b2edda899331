use bmp180::{
    Action, ArithmeticError, BusError, CalibrationCoefficients, CycleState, Event,
    MeasurementCycle, Oss, Phase, Pressure, Temperature,
};

const MODES: [Oss; 4] =
    [Oss::UltraLowPower, Oss::Standard, Oss::HighResolution, Oss::UltraHighResolution];

fn datasheet() -> CalibrationCoefficients {
    CalibrationCoefficients {
        ac1: 408,
        ac2: -72,
        ac3: -14383,
        ac4: 32741,
        ac5: 32757,
        ac6: 23153,
        b1: 6190,
        b2: 4,
        mb: -32768,
        mc: -8711,
        md: 2868,
    }
}

/// A sensor that answers every read with the same bytes, and a log of what
/// the cycle asked of it.
struct Bench {
    temperature: [u8; 2],
    pressure: [u8; 3],
    fail_at: Option<usize>,
    log: Vec<Action>,
}

impl Bench {
    fn new() -> Self {
        Bench { temperature: [0x6C, 0xFA], pressure: [0x5D, 0x23, 0x9C], fail_at: None, log: Vec::new() }
    }

    fn perform(&mut self, action: Action) -> Event {
        let index = self.log.len();
        self.log.push(action);
        if self.fail_at == Some(index) {
            return Event::BusError(BusError::Nack);
        }
        match action {
            Action::Read { len: 2 } => {
                Event::TwoBytes { msb: self.temperature[0], lsb: self.temperature[1] }
            }
            Action::Read { len: 3 } => Event::ThreeBytes {
                msb: self.pressure[0],
                lsb: self.pressure[1],
                xlsb: self.pressure[2],
            },
            Action::Read { .. } => panic!("a read of neither two nor three bytes"),
            _ => Event::Done,
        }
    }

    /// Runs the cycle until it has asked for the pause and the pause is over.
    fn run_one(&mut self, cycle: &mut MeasurementCycle) {
        let mut event = Event::Done;
        for _ in 0..32 {
            let action = cycle.step(event);
            event = self.perform(action);
            if matches!(action, Action::SleepMillis(_)) {
                return;
            }
        }
        panic!("the cycle never paused");
    }
}

fn count(log: &[Action], wanted: impl Fn(&Action) -> bool) -> usize {
    log.iter().filter(|a| wanted(a)).count()
}

#[test]
fn new_cycle_is_at_rest() {
    let cycle = MeasurementCycle::new(datasheet(), Oss::Standard);
    assert_eq!(cycle.state, CycleState::Idle);
    assert_eq!(cycle.phase(), Phase::Idle);
    assert_eq!(cycle.calibration, datasheet());
    assert_eq!(cycle.mode, Oss::Standard);
    assert_eq!(cycle.consecutive_failures, 0);
    assert_eq!(cycle.failure_cap, None);
    assert_eq!(cycle.with_failure_cap(3).failure_cap, Some(3));
    assert_eq!(cycle.with_failure_cap(3).state, CycleState::Idle);
}

#[test]
fn one_cycle_on_a_working_bus() {
    let expected_pressure = [69965, 69965, 69966, 69966];
    let commands = [0x34u8, 0x74, 0xB4, 0xF4];
    let delays = [4500u32, 7500, 13500, 25500];
    for (i, mode) in MODES.iter().enumerate() {
        let mut cycle = MeasurementCycle::new(datasheet(), *mode);
        let mut bench = Bench::new();
        bench.run_one(&mut cycle);
        assert_eq!(
            bench.log,
            vec![
                Action::Write { register: 0xF4, value: 0x2E },
                Action::DelayMicros(4500),
                Action::Select { register: 0xF6 },
                Action::Read { len: 2 },
                Action::Write { register: 0xF4, value: commands[i] },
                Action::DelayMicros(delays[i]),
                Action::Select { register: 0xF6 },
                Action::Read { len: 3 },
                Action::Continue,
                Action::Report {
                    temperature: Temperature(150),
                    pressure: Pressure(expected_pressure[i]),
                },
                Action::SleepMillis(5000),
            ]
        );
        assert_eq!(cycle.state, CycleState::Idle);
        assert_eq!(cycle.consecutive_failures, 0);
    }
}

#[test]
fn one_cycle_has_one_of_each_transaction_and_one_report() {
    for mode in MODES {
        let mut cycle = MeasurementCycle::new(datasheet(), mode);
        let mut bench = Bench::new();
        bench.run_one(&mut cycle);
        let log = &bench.log;
        let command = mode.policy().pressure_command;
        assert_eq!(count(log, |a| *a == Action::Write { register: 0xF4, value: 0x2E }), 1);
        assert_eq!(count(log, |a| *a == Action::Write { register: 0xF4, value: command }), 1);
        assert_eq!(count(log, |a| matches!(a, Action::Write { .. })), 2);
        assert_eq!(count(log, |a| *a == Action::Read { len: 2 }), 1);
        assert_eq!(count(log, |a| *a == Action::Read { len: 3 }), 1);
        assert_eq!(count(log, |a| matches!(a, Action::Read { .. })), 2);
        assert_eq!(count(log, |a| matches!(a, Action::Report { .. })), 1);
        assert_eq!(count(log, |a| matches!(a, Action::ReportFailure(_))), 0);
        assert_eq!(count(log, |a| matches!(a, Action::Escalate { .. })), 0);
        assert_eq!(count(log, |a| matches!(a, Action::SleepMillis(_))), 1);
        let report = log.iter().position(|a| matches!(a, Action::Report { .. })).unwrap();
        let sleep = log.iter().position(|a| matches!(a, Action::SleepMillis(_))).unwrap();
        assert!(report < sleep);
        assert_eq!(sleep, log.len() - 1);
    }
}

#[test]
fn cycles_repeat() {
    let mut cycle = MeasurementCycle::new(datasheet(), Oss::Standard);
    let mut bench = Bench::new();
    bench.run_one(&mut cycle);
    let first = bench.log.clone();
    bench.log.clear();
    bench.temperature = [0x00, 0x00];
    bench.run_one(&mut cycle);
    assert_eq!(bench.log.len(), first.len());
    assert_eq!(bench.log[..9], first[..9]);
    assert_eq!(
        bench.log[9],
        Action::Report { temperature: Temperature(-1391), pressure: Pressure(47939) }
    );
}

#[test]
fn phases_follow_in_order() {
    let mut cycle = MeasurementCycle::new(datasheet(), Oss::HighResolution);
    let mut bench = Bench::new();
    let mut phases = vec![cycle.phase()];
    let mut event = Event::Done;
    for _ in 0..11 {
        let action = cycle.step(event);
        event = bench.perform(action);
        if *phases.last().unwrap() != cycle.phase() {
            phases.push(cycle.phase());
        }
    }
    assert_eq!(
        phases,
        vec![
            Phase::Idle,
            Phase::AwaitingTemperature,
            Phase::AwaitingPressure,
            Phase::Computing,
            Phase::Reporting,
            Phase::Idle,
        ]
    );
}

#[test]
fn states_hold_the_raw_counts() {
    let mut cycle = MeasurementCycle::new(datasheet(), Oss::UltraHighResolution);
    for _ in 0..4 {
        cycle.step(Event::Done);
    }
    assert_eq!(cycle.state, CycleState::TemperatureRead);
    cycle.step(Event::TwoBytes { msb: 0x6C, lsb: 0xFA });
    assert_eq!(cycle.state, CycleState::PressureTrigger { ut: 27898 });
    for _ in 0..3 {
        cycle.step(Event::Done);
    }
    assert_eq!(cycle.state, CycleState::PressureRead { ut: 27898 });
    cycle.step(Event::ThreeBytes { msb: 0x5D, lsb: 0x23, xlsb: 0x9C });
    assert_eq!(cycle.state, CycleState::Computing { ut: 27898, up: 190748 });
    assert_eq!(cycle.phase(), Phase::Computing);
}

#[test]
fn bus_failure_abandons_the_cycle_without_a_report() {
    // Actions 0, 2, 3, 4, 6 and 7 of a cycle are bus transactions.
    for fail_at in [0usize, 2, 3, 4, 6, 7] {
        let mut cycle = MeasurementCycle::new(datasheet(), Oss::Standard);
        let mut bench = Bench::new();
        bench.fail_at = Some(fail_at);
        bench.run_one(&mut cycle);
        assert_eq!(bench.log.len(), fail_at + 2);
        assert_eq!(*bench.log.last().unwrap(), Action::SleepMillis(5000));
        assert_eq!(count(&bench.log, |a| matches!(a, Action::Report { .. })), 0);
        assert_eq!(count(&bench.log, |a| matches!(a, Action::ReportFailure(_))), 0);
        assert_eq!(cycle.state, CycleState::Idle);
        assert_eq!(cycle.consecutive_failures, 1);

        // The next cycle starts from the beginning and succeeds.
        bench.fail_at = None;
        bench.log.clear();
        bench.run_one(&mut cycle);
        assert_eq!(bench.log.len(), 11);
        assert_eq!(bench.log[0], Action::Write { register: 0xF4, value: 0x2E });
        assert_eq!(count(&bench.log, |a| matches!(a, Action::Report { .. })), 1);
        assert_eq!(cycle.consecutive_failures, 0);
    }
}

#[test]
fn failures_in_a_row_are_escalated_from_the_cap_on() {
    let mut cycle = MeasurementCycle::new(datasheet(), Oss::Standard).with_failure_cap(3);
    for failures in 1..=5u32 {
        assert_eq!(
            cycle.step(Event::Done),
            Action::Write { register: 0xF4, value: 0x2E }
        );
        let action = cycle.step(Event::BusError(BusError::Timeout));
        assert_eq!(cycle.consecutive_failures, failures);
        if failures < 3 {
            assert_eq!(action, Action::SleepMillis(5000));
            assert_eq!(cycle.state, CycleState::Idle);
        } else {
            assert_eq!(action, Action::Escalate { error: BusError::Timeout, failures });
            assert_eq!(cycle.state, CycleState::Reporting);
            assert_eq!(cycle.step(Event::Done), Action::SleepMillis(5000));
            assert_eq!(cycle.state, CycleState::Idle);
        }
    }
    // A cycle that gets through the bus clears the count.
    let mut bench = Bench::new();
    bench.run_one(&mut cycle);
    assert_eq!(cycle.consecutive_failures, 0);
    cycle.step(Event::Done);
    assert_eq!(cycle.step(Event::BusError(BusError::ArbitrationLoss)), Action::SleepMillis(5000));
    assert_eq!(cycle.consecutive_failures, 1);
}

#[test]
fn without_a_cap_nothing_is_escalated() {
    let mut cycle = MeasurementCycle::new(datasheet(), Oss::Standard);
    for failures in 1..=50u32 {
        cycle.step(Event::Done);
        assert_eq!(cycle.step(Event::BusError(BusError::Other)), Action::SleepMillis(5000));
        assert_eq!(cycle.consecutive_failures, failures);
    }
}

#[test]
fn escalation_carries_the_error() {
    for error in [BusError::ArbitrationLoss, BusError::Nack, BusError::Timeout, BusError::Other] {
        let mut cycle = MeasurementCycle::new(datasheet(), Oss::Standard).with_failure_cap(1);
        cycle.step(Event::Done);
        assert_eq!(cycle.step(Event::BusError(error)), Action::Escalate { error, failures: 1 });
    }
    let mut cycle = MeasurementCycle::new(datasheet(), Oss::Standard).with_failure_cap(0);
    cycle.step(Event::Done);
    assert_eq!(
        cycle.step(Event::BusError(BusError::Nack)),
        Action::Escalate { error: BusError::Nack, failures: 1 }
    );
}

#[test]
fn failure_count_saturates() {
    let mut cycle = MeasurementCycle::new(datasheet(), Oss::Standard);
    cycle.consecutive_failures = u32::MAX - 1;
    assert_eq!(cycle.step(Event::BusError(BusError::Nack)), Action::SleepMillis(5000));
    assert_eq!(cycle.consecutive_failures, u32::MAX);
    assert_eq!(cycle.step(Event::BusError(BusError::Nack)), Action::SleepMillis(5000));
    assert_eq!(cycle.consecutive_failures, u32::MAX);
}

#[test]
fn compensation_error_is_reported_and_the_cycle_goes_on() {
    let mut cal = datasheet();
    cal.mc = 0;
    cal.md = 0;
    let mut cycle = MeasurementCycle::new(cal, Oss::Standard);
    let mut bench = Bench::new();
    // ut == ac6
    bench.temperature = [0x5A, 0x71];
    bench.run_one(&mut cycle);
    assert_eq!(bench.log.len(), 11);
    assert_eq!(bench.log[9], Action::ReportFailure(ArithmeticError::DivisionByZero));
    assert_eq!(bench.log[10], Action::SleepMillis(5000));
    assert_eq!(count(&bench.log, |a| matches!(a, Action::Report { .. })), 0);
    assert_eq!(cycle.state, CycleState::Idle);
    assert_eq!(cycle.consecutive_failures, 0);

    bench.log.clear();
    bench.temperature = [0x6C, 0xFA];
    bench.run_one(&mut cycle);
    assert!(matches!(bench.log[9], Action::Report { .. }));
}

#[test]
fn event_that_does_not_fit_abandons_the_cycle() {
    let two = Event::TwoBytes { msb: 1, lsb: 2 };
    let three = Event::ThreeBytes { msb: 1, lsb: 2, xlsb: 3 };

    // At rest only `Done` starts a cycle.
    for event in [two, three] {
        let mut cycle = MeasurementCycle::new(datasheet(), Oss::Standard);
        assert_eq!(cycle.step(event), Action::SleepMillis(5000));
        assert_eq!(cycle.state, CycleState::Idle);
        assert_eq!(cycle.consecutive_failures, 0);
    }

    // While the temperature read is in flight only two bytes fit.
    for event in [Event::Done, three] {
        let mut cycle = MeasurementCycle::new(datasheet(), Oss::Standard);
        for _ in 0..4 {
            cycle.step(Event::Done);
        }
        assert_eq!(cycle.state, CycleState::TemperatureRead);
        assert_eq!(cycle.step(event), Action::SleepMillis(5000));
        assert_eq!(cycle.state, CycleState::Idle);
        assert_eq!(cycle.consecutive_failures, 0);
    }

    // While the pressure read is in flight only three bytes fit.
    for event in [Event::Done, two] {
        let mut cycle = MeasurementCycle::new(datasheet(), Oss::Standard);
        for _ in 0..4 {
            cycle.step(Event::Done);
        }
        cycle.step(two);
        for _ in 0..3 {
            cycle.step(Event::Done);
        }
        assert_eq!(cycle.state, CycleState::PressureRead { ut: 0x0102 });
        assert_eq!(cycle.step(event), Action::SleepMillis(5000));
        assert_eq!(cycle.state, CycleState::Idle);
    }

    // Bytes while a write or a wait is in flight.
    for steps in [1, 2, 3] {
        let mut cycle = MeasurementCycle::new(datasheet(), Oss::Standard);
        for _ in 0..steps {
            cycle.step(Event::Done);
        }
        assert_eq!(cycle.step(two), Action::SleepMillis(5000));
        assert_eq!(cycle.state, CycleState::Idle);
    }
}

#[test]
fn steps_keep_the_configuration() {
    let mut cycle = MeasurementCycle::new(datasheet(), Oss::HighResolution).with_failure_cap(7);
    let mut bench = Bench::new();
    bench.run_one(&mut cycle);
    bench.fail_at = Some(bench.log.len() + 3);
    bench.run_one(&mut cycle);
    assert_eq!(cycle.calibration, datasheet());
    assert_eq!(cycle.mode, Oss::HighResolution);
    assert_eq!(cycle.failure_cap, Some(7));
    assert_eq!(cycle.consecutive_failures, 1);
}

#[test]
fn phase_of_each_state() {
    assert_eq!(CycleState::Idle.phase(), Phase::Idle);
    assert_eq!(CycleState::TemperatureTrigger.phase(), Phase::AwaitingTemperature);
    assert_eq!(CycleState::TemperatureWait.phase(), Phase::AwaitingTemperature);
    assert_eq!(CycleState::TemperatureSelect.phase(), Phase::AwaitingTemperature);
    assert_eq!(CycleState::TemperatureRead.phase(), Phase::AwaitingTemperature);
    assert_eq!(CycleState::PressureTrigger { ut: 1 }.phase(), Phase::AwaitingPressure);
    assert_eq!(CycleState::PressureWait { ut: 1 }.phase(), Phase::AwaitingPressure);
    assert_eq!(CycleState::PressureSelect { ut: 1 }.phase(), Phase::AwaitingPressure);
    assert_eq!(CycleState::PressureRead { ut: 1 }.phase(), Phase::AwaitingPressure);
    assert_eq!(CycleState::Computing { ut: 1, up: 2 }.phase(), Phase::Computing);
    assert_eq!(CycleState::Reporting.phase(), Phase::Reporting);
}
