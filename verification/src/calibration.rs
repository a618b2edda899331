//! The factory calibration block and its eleven coefficients.

use crate::bus::{BusError, WriteRead};
use crate::registers::{ADDR_CALIB0, CALIBRATION_LEN};
use vstd::prelude::*;

verus! {

/// The eleven calibration coefficients of one sensor, in the order in which
/// the calibration block holds them. `mb` is part of the block, and no
/// formula uses it.
#[derive(Clone, Copy, Debug, PartialEq, Eq, Structural)]
pub struct CalibrationCoefficients {
    pub ac1: i16,
    pub ac2: i16,
    pub ac3: i16,
    pub ac4: u16,
    pub ac5: u16,
    pub ac6: u16,
    pub b1: i16,
    pub b2: i16,
    pub mb: i16,
    pub mc: i16,
    pub md: i16,
}

/// The unsigned value of two bytes, most significant first.
pub open spec fn be_unsigned(msb: u8, lsb: u8) -> int {
    msb * 256 + lsb
}

/// The two's complement value of two bytes, most significant first.
pub open spec fn be_signed(msb: u8, lsb: u8) -> int {
    if msb >= 0x80 {
        msb * 256 + lsb - 0x1_0000
    } else {
        msb * 256 + lsb
    }
}

/// Whether a signed coefficient carries the pattern of a defective sensor:
/// all bits clear or all bits set.
pub open spec fn is_defect_signed(v: i16) -> bool {
    v == 0 || v == -1
}

/// Whether an unsigned coefficient carries the pattern of a defective sensor:
/// all bits clear or all bits set.
pub open spec fn is_defect_unsigned(v: u16) -> bool {
    v == 0 || v == 0xFFFF
}

fn unsigned_word(msb: u8, lsb: u8) -> (w: u16)
    ensures
        w == be_unsigned(msb, lsb),
{
    (msb as u16) * 256 + (lsb as u16)
}

fn signed_word(msb: u8, lsb: u8) -> (w: i16)
    ensures
        w == be_signed(msb, lsb),
{
    let u: u16 = unsigned_word(msb, lsb);
    assert(u as i16 == (if u >= 0x8000u16 { u - 0x1_0000 } else { u as int })) by (bit_vector);
    #[verifier::truncate]
    (u as i16)
}

impl CalibrationCoefficients {
    /// The coefficients that a calibration block of 22 bytes holds: eleven
    /// big-endian words, the first three and the last five signed.
    pub open spec fn spec_decode(block: Seq<u8>) -> CalibrationCoefficients
        recommends
            block.len() == 22,
    {
        CalibrationCoefficients {
            ac1: be_signed(block[0], block[1]) as i16,
            ac2: be_signed(block[2], block[3]) as i16,
            ac3: be_signed(block[4], block[5]) as i16,
            ac4: be_unsigned(block[6], block[7]) as u16,
            ac5: be_unsigned(block[8], block[9]) as u16,
            ac6: be_unsigned(block[10], block[11]) as u16,
            b1: be_signed(block[12], block[13]) as i16,
            b2: be_signed(block[14], block[15]) as i16,
            mb: be_signed(block[16], block[17]) as i16,
            mc: be_signed(block[18], block[19]) as i16,
            md: be_signed(block[20], block[21]) as i16,
        }
    }

    /// Whether some coefficient carries the pattern of a defective sensor.
    pub open spec fn spec_defect_indicated(self) -> bool {
        ||| is_defect_signed(self.ac1)
        ||| is_defect_signed(self.ac2)
        ||| is_defect_signed(self.ac3)
        ||| is_defect_unsigned(self.ac4)
        ||| is_defect_unsigned(self.ac5)
        ||| is_defect_unsigned(self.ac6)
        ||| is_defect_signed(self.b1)
        ||| is_defect_signed(self.b2)
        ||| is_defect_signed(self.mb)
        ||| is_defect_signed(self.mc)
        ||| is_defect_signed(self.md)
    }

    /// Decodes the calibration block as read from the sensor.
    pub fn decode(block: &[u8; 22]) -> (c: CalibrationCoefficients)
        ensures
            c == Self::spec_decode(block@),
            c.ac1 == be_signed(block@[0], block@[1]),
            c.ac2 == be_signed(block@[2], block@[3]),
            c.ac3 == be_signed(block@[4], block@[5]),
            c.ac4 == be_unsigned(block@[6], block@[7]),
            c.ac5 == be_unsigned(block@[8], block@[9]),
            c.ac6 == be_unsigned(block@[10], block@[11]),
            c.b1 == be_signed(block@[12], block@[13]),
            c.b2 == be_signed(block@[14], block@[15]),
            c.mb == be_signed(block@[16], block@[17]),
            c.mc == be_signed(block@[18], block@[19]),
            c.md == be_signed(block@[20], block@[21]),
    {
        CalibrationCoefficients {
            ac1: signed_word(block[0], block[1]),
            ac2: signed_word(block[2], block[3]),
            ac3: signed_word(block[4], block[5]),
            ac4: unsigned_word(block[6], block[7]),
            ac5: unsigned_word(block[8], block[9]),
            ac6: unsigned_word(block[10], block[11]),
            b1: signed_word(block[12], block[13]),
            b2: signed_word(block[14], block[15]),
            mb: signed_word(block[16], block[17]),
            mc: signed_word(block[18], block[19]),
            md: signed_word(block[20], block[21]),
        }
    }

    /// The transaction that reads the calibration block: all 22 bytes in one
    /// combined transaction, from the block's first register.
    pub fn load_request() -> (request: WriteRead)
        ensures
            request == (WriteRead { register: 0xAA, len: 22 }),
    {
        WriteRead { register: ADDR_CALIB0, len: CALIBRATION_LEN }
    }

    /// The coefficients from the outcome of the transaction that
    /// `load_request` names: the decoded block, or the failure of the bus as
    /// it is. Nothing is retried.
    pub fn load(outcome: Result<[u8; 22], BusError>) -> (r: Result<
        CalibrationCoefficients,
        BusError,
    >)
        ensures
            match outcome {
                Ok(block) => r == Ok::<CalibrationCoefficients, BusError>(
                    Self::spec_decode(block@),
                ),
                Err(error) => r == Err::<CalibrationCoefficients, BusError>(error),
            },
    {
        match outcome {
            Ok(block) => Ok(Self::decode(&block)),
            Err(error) => Err(error),
        }
    }

    /// Tells whether some coefficient is `0x0000` or `0xFFFF`, which a
    /// working sensor never holds. This is a signal about the data: decoding
    /// and compensation go ahead either way.
    pub fn defect_indicated(&self) -> (defect: bool)
        ensures
            defect == self.spec_defect_indicated(),
    {
        signed_defect(self.ac1) || signed_defect(self.ac2) || signed_defect(self.ac3)
            || unsigned_defect(self.ac4) || unsigned_defect(self.ac5) || unsigned_defect(self.ac6)
            || signed_defect(self.b1) || signed_defect(self.b2) || signed_defect(self.mb)
            || signed_defect(self.mc) || signed_defect(self.md)
    }
}

fn signed_defect(v: i16) -> (defect: bool)
    ensures
        defect == is_defect_signed(v),
{
    v == 0 || v == -1
}

fn unsigned_defect(v: u16) -> (defect: bool)
    ensures
        defect == is_defect_unsigned(v),
{
    v == 0 || v == 0xFFFF
}

} // verus!
