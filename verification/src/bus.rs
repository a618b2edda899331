//! What the library knows of the bus: how a transaction can fail, and the
//! shape of the one combined transaction that it asks for.

use vstd::prelude::*;

verus! {

/// Why a bus transaction failed.
#[derive(Clone, Copy, Debug, PartialEq, Eq, Structural)]
pub enum BusError {
    /// Another master won the bus.
    ArbitrationLoss,
    /// The sensor did not acknowledge.
    Nack,
    /// The transaction did not finish in time.
    Timeout,
    /// Any other failure that the bus reports.
    Other,
}

/// A combined transaction with the sensor: write the register address, then
/// read `len` bytes from there, without releasing the bus in between.
#[derive(Clone, Copy, Debug, PartialEq, Eq, Structural)]
pub struct WriteRead {
    pub register: u8,
    pub len: usize,
}

} // verus!
