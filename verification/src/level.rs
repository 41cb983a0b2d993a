//! Control levels. A level is a single-precision number, held by its bits: the
//! library carries levels around and compares them, it never computes with them.
use vstd::prelude::*;

verus! {

/// The bits of a single-precision number.
#[derive(Debug, Copy, Clone, PartialEq, Eq, Structural)]
pub struct Level {
    pub bits: u32,
}

/// 0.0
pub const ZERO_BITS: u32 = 0;

/// 0.25
pub const QUARTER_BITS: u32 = 0x3e80_0000;

/// 1.0
pub const ONE_BITS: u32 = 0x3f80_0000;

/// -6.0
pub const MINUS_SIX_BITS: u32 = 0xc0c0_0000;

/// 10.0
pub const TEN_BITS: u32 = 0x4120_0000;

/// 25.0
pub const TWENTY_FIVE_BITS: u32 = 0x41c8_0000;

/// 500.0
pub const FIVE_HUNDRED_BITS: u32 = 0x43fa_0000;

/// The bits without the sign.
pub open spec fn magnitude(bits: u32) -> int {
    bits as int % 0x8000_0000
}

/// Whether the bits stand for no number.
pub open spec fn is_nan(bits: u32) -> bool {
    magnitude(bits) > 0x7f80_0000
}

/// Whether two levels are equal as numbers: both are numbers, and they have the
/// same bits or are both zero.
pub open spec fn same_level(a: Level, b: Level) -> bool {
    &&& !is_nan(a.bits)
    &&& !is_nan(b.bits)
    &&& a.bits == b.bits || (magnitude(a.bits) == 0 && magnitude(b.bits) == 0)
}

/// Whether a level is above the distance from 1.0 to the next larger number,
/// the threshold of audibility.
pub open spec fn above_epsilon(level: Level) -> bool {
    0x3400_0000 < level.bits && level.bits <= 0x7f80_0000
}

/// A level clamped to the range from 0.0 to 1.0. What is no number stays as it is.
pub open spec fn unit_clamped(level: Level) -> Level {
    if is_nan(level.bits) {
        level
    } else if level.bits > 0x8000_0000 {
        Level { bits: ZERO_BITS }
    } else if level.bits < 0x8000_0000 && level.bits > ONE_BITS {
        Level { bits: ONE_BITS }
    } else {
        level
    }
}

impl Level {
    /// The level clamped to the range from 0.0 to 1.0.
    pub fn clamped_to_unit(self) -> (level: Level)
        ensures
            level == unit_clamped(self),
    {
        let magnitude: u32 = self.bits % 0x8000_0000;
        if magnitude > 0x7f80_0000 {
            self
        } else if self.bits > 0x8000_0000 {
            Level { bits: ZERO_BITS }
        } else if self.bits < 0x8000_0000 && self.bits > ONE_BITS {
            Level { bits: ONE_BITS }
        } else {
            self
        }
    }

    pub fn zero() -> (level: Level)
        ensures
            level.bits == ZERO_BITS,
    {
        Level { bits: ZERO_BITS }
    }

    pub fn one() -> (level: Level)
        ensures
            level.bits == ONE_BITS,
    {
        Level { bits: ONE_BITS }
    }

    pub fn quarter() -> (level: Level)
        ensures
            level.bits == QUARTER_BITS,
    {
        Level { bits: QUARTER_BITS }
    }

    /// Whether two levels are equal as numbers.
    pub fn same(self, other: Level) -> (same: bool)
        ensures
            same == same_level(self, other),
    {
        let a: u32 = self.bits % 0x8000_0000;
        let b: u32 = other.bits % 0x8000_0000;
        a <= 0x7f80_0000 && b <= 0x7f80_0000 && (self.bits == other.bits || (a == 0 && b == 0))
    }

    /// Whether the level is above the threshold of audibility.
    pub fn is_above_epsilon(self) -> (above: bool)
        ensures
            above == above_epsilon(self),
    {
        0x3400_0000 < self.bits && self.bits <= 0x7f80_0000
    }
}

/// Equality of levels is symmetric, and reflexive on numbers.
pub proof fn same_level_is_an_equality_on_numbers(a: Level, b: Level, c: Level)
    ensures
        same_level(a, b) == same_level(b, a),
        same_level(a, a) == !is_nan(a.bits),
        same_level(a, b) && same_level(b, c) ==> same_level(a, c),
{
}

/// A level above the threshold of audibility is a number other than zero.
pub proof fn audible_level_is_not_zero(level: Level)
    requires
        above_epsilon(level),
    ensures
        !is_nan(level.bits),
        !same_level(level, (Level { bits: ZERO_BITS })),
{
}

/// The threshold of audibility is 2 to the power of -23: a level is audible if it is not
/// negative and its binary exponent is above -23, or is -23 with a fraction behind the
/// leading one. Infinity is audible, and what is no number is not.
pub proof fn audibility_starts_above_its_threshold(level: Level)
    ensures
        level.bits >= 0x8000_0000 ==> !above_epsilon(level),
        level.bits == 0x7f80_0000 ==> above_epsilon(level),
        is_nan(level.bits) ==> !above_epsilon(level),
        level.bits < 0x7f80_0000 ==> above_epsilon(level) == ({
            let exponent = level.bits as int / 0x80_0000 - 127;
            let fraction = level.bits as int % 0x80_0000;
            exponent > -23 || (exponent == -23 && fraction > 0)
        }),
{
}

/// Clamping a number gives one from 0.0 to 1.0, leaves what lies there as it is, and takes
/// what lies below to 0.0 and what lies above to 1.0.
pub proof fn clamping_ends_in_the_unit_range(level: Level)
    requires
        !is_nan(level.bits),
    ensures
        magnitude(unit_clamped(level).bits) <= 0x3f80_0000,
        unit_clamped(level).bits <= 0x8000_0000,
        level.bits <= 0x3f80_0000 ==> unit_clamped(level) == level,
        0x3f80_0000 < level.bits < 0x8000_0000 ==> unit_clamped(level).bits == 0x3f80_0000,
        level.bits > 0x8000_0000 ==> unit_clamped(level).bits == 0,
        unit_clamped(unit_clamped(level)) == unit_clamped(level),
{
}

} // verus!
