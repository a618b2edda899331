//! The oversampling setting and what follows from it.

use crate::registers::MEASURE_PRESSURE;
use vstd::prelude::*;

verus! {

/// Oversampling setting of the pressure measurement: precision against
/// conversion time.
#[derive(Clone, Copy, Debug, PartialEq, Eq, Structural)]
pub enum Oss {
    UltraLowPower,
    Standard,
    HighResolution,
    UltraHighResolution,
}

/// What a pressure measurement at one oversampling setting needs.
#[derive(Clone, Copy, Debug, PartialEq, Eq, Structural)]
pub struct OversamplingPolicy {
    /// Conversion time to wait after the command, in microseconds.
    pub delay_micros: u32,
    /// Number of extra low-order bits that the raw pressure count carries.
    pub shift_bits: u8,
    /// Value of the control register that starts the measurement.
    pub pressure_command: u8,
}

impl Oss {
    /// Position of the setting, from 0 for the fastest to 3 for the most precise.
    pub open spec fn spec_ordinal(self) -> int {
        match self {
            Oss::UltraLowPower => 0,
            Oss::Standard => 1,
            Oss::HighResolution => 2,
            Oss::UltraHighResolution => 3,
        }
    }

    /// The datasheet's table, one row per setting.
    pub open spec fn spec_policy(self) -> OversamplingPolicy {
        match self {
            Oss::UltraLowPower => OversamplingPolicy {
                delay_micros: 4500,
                shift_bits: 0,
                pressure_command: 0x34,
            },
            Oss::Standard => OversamplingPolicy {
                delay_micros: 7500,
                shift_bits: 1,
                pressure_command: 0x74,
            },
            Oss::HighResolution => OversamplingPolicy {
                delay_micros: 13500,
                shift_bits: 2,
                pressure_command: 0xB4,
            },
            Oss::UltraHighResolution => OversamplingPolicy {
                delay_micros: 25500,
                shift_bits: 3,
                pressure_command: 0xF4,
            },
        }
    }

    /// Two to the power of the setting's shift: the factor by which the raw
    /// pressure count is finer than at the lowest setting.
    pub open spec fn spec_scale(self) -> int {
        match self {
            Oss::UltraLowPower => 1,
            Oss::Standard => 2,
            Oss::HighResolution => 4,
            Oss::UltraHighResolution => 8,
        }
    }

    /// Position of the setting, from 0 to 3.
    pub fn ordinal(self) -> (n: u8)
        ensures
            n == self.spec_ordinal(),
    {
        match self {
            Oss::UltraLowPower => 0,
            Oss::Standard => 1,
            Oss::HighResolution => 2,
            Oss::UltraHighResolution => 3,
        }
    }

    /// Looks the setting up in the table. The command byte is built from the
    /// ordinal, shifted into the top two bits of the base command.
    pub fn policy(self) -> (p: OversamplingPolicy)
        ensures
            p == self.spec_policy(),
    {
        let n: u8 = self.ordinal();
        let delay_micros: u32 = match self {
            Oss::UltraLowPower => 4500,
            Oss::Standard => 7500,
            Oss::HighResolution => 13500,
            Oss::UltraHighResolution => 25500,
        };
        assert(n <= 3 ==> (n << 6u8) == n * 64) by (bit_vector);
        OversamplingPolicy {
            delay_micros,
            shift_bits: n,
            pressure_command: MEASURE_PRESSURE + (n << 6u8),
        }
    }
}

/// The shift of a setting is its ordinal, its scale is two to that power, and
/// its command byte is the base command plus the ordinal shifted left by six
/// bits.
pub proof fn lemma_policy_follows_ordinal(mode: Oss)
    ensures
        mode.spec_policy().shift_bits == mode.spec_ordinal(),
        mode.spec_scale() == vstd::arithmetic::power2::pow2(mode.spec_ordinal() as nat),
        mode.spec_policy().pressure_command == 0x34 + mode.spec_ordinal() * 64,
        mode.spec_policy().pressure_command == 0x34u8 + ((mode.spec_ordinal() as u8) << 6u8),
{
    vstd::arithmetic::power2::lemma2_to64();
    assert(0u8 << 6u8 == 0u8) by (bit_vector);
    assert(1u8 << 6u8 == 0x40u8) by (bit_vector);
    assert(2u8 << 6u8 == 0x80u8) by (bit_vector);
    assert(3u8 << 6u8 == 0xC0u8) by (bit_vector);
}

/// The wait before a pressure read grows strictly with the setting's ordinal.
pub proof fn lemma_delay_strictly_increasing(slower: Oss, faster: Oss)
    requires
        faster.spec_ordinal() < slower.spec_ordinal(),
    ensures
        faster.spec_policy().delay_micros < slower.spec_policy().delay_micros,
{
}

} // verus!
