//! Driver logic for the BMP180 barometric pressure and temperature sensor.
//!
//! The sensor sits behind a register-addressed serial bus. This crate holds
//! everything about it that can be decided without touching the bus: the
//! register map, the oversampling table, the decoding of the factory
//! calibration block, the fixed-point compensation that turns raw counts into
//! tenths of a degree Celsius and pascals, and the measurement cycle as a
//! state machine that tells its caller which bus transaction, delay or report
//! comes next.
//!
//! The caller owns the bus and the delay source. It performs each
//! [`cycle::Action`] and answers with a [`cycle::Event`].

pub mod bus;
pub mod calibration;
pub mod compensation;
pub mod cycle;
pub mod fixed_point;
pub mod oversampling;
pub mod registers;

pub use bus::{BusError, WriteRead};
pub use calibration::CalibrationCoefficients;
pub use compensation::{
    compensate, get_temperature_and_pressure, ArithmeticError, Pressure, Temperature,
};
pub use cycle::{Action, CycleState, Event, MeasurementCycle, Phase};
pub use oversampling::{Oss, OversamplingPolicy};
