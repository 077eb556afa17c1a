//! Audio levels in IEEE 754 notation and the ranges that are accepted.
//!
//! A level is held by its bit pattern: the binary64 pattern where it comes from
//! the configuration or the bus, the binary32 pattern where it goes to the audio
//! engine. The model of a finite level is the exact integer that it makes when
//! counted in units of the smallest positive number of its format.
use vstd::arithmetic::mul::*;
use vstd::arithmetic::power2::*;
use vstd::prelude::*;

verus! {

/// The pattern bit that holds the sign of a binary64 number.
pub const SIGN_64: u64 = 0x8000_0000_0000_0000;

/// The pattern bit that holds the sign of a binary32 number.
pub const SIGN_32: u32 = 0x8000_0000;

/// Patterns from here on, without the sign, are no finite binary64 numbers.
pub const NON_FINITE_64: u64 = 0x7ff0_0000_0000_0000;

/// Patterns from here on, without the sign, are no finite binary32 numbers.
pub const NON_FINITE_32: u32 = 0x7f80_0000;

/// The binary64 pattern of 30.
pub const MAX_GAIN_64: u64 = 0x403e_0000_0000_0000;

/// The binary64 pattern of 12.
pub const MAX_ATTENUATION_64: u64 = 0x4028_0000_0000_0000;

/// The binary64 pattern of the gain that is used until one is configured, 18 dB.
pub const DEFAULT_GAIN_64: u64 = 0x4032_0000_0000_0000;

/// The binary64 pattern of the limiter that is used until one is configured, -3 dBFS.
pub const DEFAULT_LIMITER_64: u64 = 0xc008_0000_0000_0000;

/// The binary32 pattern of 30.
pub const MAX_GAIN_32: u32 = 0x41f0_0000;

/// The binary32 pattern of 12.
pub const MAX_ATTENUATION_32: u32 = 0x4140_0000;

/// The binary32 pattern of 18.
pub const DEFAULT_MIC_GAIN_32: u32 = 0x4190_0000;

/// The binary32 pattern of -3.
pub const DEFAULT_LIMITER_32: u32 = 0xc040_0000;

/// The magnitude of a finite number, counted in units of the smallest positive
/// number of its format.
///
/// `pattern` is the bit pattern without the sign and `fraction_bits` the width of
/// the fraction field.
pub open spec fn magnitude(pattern: nat, fraction_bits: nat) -> nat {
    let unit = pow2(fraction_bits);
    let exponent = pattern / unit;
    let fraction = pattern % unit;
    if exponent == 0 {
        fraction
    } else {
        (unit + fraction) * pow2((exponent - 1) as nat)
    }
}

/// A larger pattern is a larger magnitude.
pub proof fn lemma_magnitude_increases(small: nat, large: nat, fraction_bits: nat)
    requires
        small < large,
    ensures
        magnitude(small, fraction_bits) < magnitude(large, fraction_bits),
{
    let unit = pow2(fraction_bits);
    lemma_pow2_pos(fraction_bits);
    let e1 = small / unit;
    let m1 = small % unit;
    let e2 = large / unit;
    let m2 = large % unit;
    vstd::arithmetic::div_mod::lemma_fundamental_div_mod(small as int, unit as int);
    vstd::arithmetic::div_mod::lemma_fundamental_div_mod(large as int, unit as int);
    vstd::arithmetic::div_mod::lemma_div_is_ordered(small as int, large as int, unit as int);
    vstd::arithmetic::div_mod::lemma_mod_bound(small as int, unit as int);
    vstd::arithmetic::div_mod::lemma_mod_bound(large as int, unit as int);
    if e1 == e2 {
        assert(m1 < m2);
        if e1 > 0 {
            let p = pow2((e1 - 1) as nat);
            lemma_pow2_pos((e1 - 1) as nat);
            lemma_mul_strict_inequality((unit + m1) as int, (unit + m2) as int, p as int);
        }
    } else {
        let p2 = pow2((e2 - 1) as nat);
        lemma_pow2_pos((e2 - 1) as nat);
        lemma_mul_inequality(unit as int, (unit + m2) as int, p2 as int);
        if e1 > 0 {
            let p1 = pow2((e1 - 1) as nat);
            lemma_pow2_pos((e1 - 1) as nat);
            lemma_pow2_unfold(e1);
            if e1 < e2 - 1 {
                lemma_pow2_strictly_increases(e1, (e2 - 1) as nat);
            }
            assert(2 * p1 <= p2);
            lemma_mul_strict_inequality((unit + m1) as int, (unit + unit) as int, p1 as int);
            assert((unit + unit) * p1 == unit * (2 * p1)) by (nonlinear_arith);
            lemma_mul_inequality((2 * p1) as int, p2 as int, unit as int);
            lemma_mul_is_commutative(unit as int, (2 * p1) as int);
            lemma_mul_is_commutative(unit as int, p2 as int);
        } else {
            lemma_mul_inequality(1, p2 as int, unit as int);
            lemma_mul_is_commutative(unit as int, p2 as int);
        }
    }
}

/// The magnitude of a pattern is at most that of another exactly where the
/// pattern is.
pub proof fn lemma_magnitude_order(pattern: nat, bound: nat, fraction_bits: nat)
    ensures
        magnitude(pattern, fraction_bits) <= magnitude(bound, fraction_bits) <==> pattern <= bound,
{
    if pattern < bound {
        lemma_magnitude_increases(pattern, bound, fraction_bits);
    } else if bound < pattern {
        lemma_magnitude_increases(bound, pattern, fraction_bits);
    }
}

/// The magnitude of a number whose fraction field holds only its three topmost bits.
proof fn lemma_magnitude_of(pattern: nat, fraction_bits: nat, exponent: nat, eighths: nat)
    requires
        fraction_bits >= 3,
        exponent >= 1,
        eighths < 8,
        pattern == exponent * pow2(fraction_bits) + eighths * pow2((fraction_bits - 3) as nat),
    ensures
        magnitude(pattern, fraction_bits) == (8 + eighths) * pow2(
            (fraction_bits - 3 + exponent - 1) as nat,
        ),
{
    let unit = pow2(fraction_bits);
    let eighth = pow2((fraction_bits - 3) as nat);
    lemma_pow2_pos(fraction_bits);
    lemma_pow2_adds(3, (fraction_bits - 3) as nat);
    lemma2_to64();
    assert(unit == 8 * eighth);
    lemma_mul_strict_inequality(eighths as int, 8, eighth as int);
    let fraction = eighths * eighth;
    vstd::arithmetic::div_mod::lemma_fundamental_div_mod_converse(
        pattern as int,
        unit as int,
        exponent as int,
        fraction as int,
    );
    assert(unit + fraction == (8 + eighths) * eighth) by (nonlinear_arith)
        requires
            unit == 8 * eighth,
            fraction == eighths * eighth,
    ;
    lemma_pow2_adds((fraction_bits - 3) as nat, (exponent - 1) as nat);
    lemma_mul_is_associative(
        (8 + eighths) as int,
        eighth as int,
        pow2((exponent - 1) as nat) as int,
    );
}

/// A level by its binary64 bit pattern.
#[derive(Clone, Copy, Debug)]
pub struct Decibels {
    pub bits: u64,
}

impl Decibels {
    /// Whether the sign is negative.
    pub open spec fn negative(self) -> bool {
        self.bits >= SIGN_64
    }

    /// The bit pattern without the sign.
    pub open spec fn pattern(self) -> nat {
        (self.bits % SIGN_64) as nat
    }

    /// Whether the level is a number, neither infinite nor undefined.
    pub open spec fn finite(self) -> bool {
        self.pattern() < NON_FINITE_64
    }

    /// The level times two to the 1074th power, an exact integer where the level
    /// is finite.
    pub open spec fn scaled(self) -> int {
        if self.negative() {
            -magnitude(self.pattern(), 52)
        } else {
            magnitude(self.pattern(), 52) as int
        }
    }

    /// Whether the level is finite and lies between two whole numbers of decibels.
    pub open spec fn within(self, low: int, high: int) -> bool {
        &&& self.finite()
        &&& low * pow2(1074) <= self.scaled() <= high * pow2(1074)
    }

    /// The range of the gain before the limiter: 0 to 30 dB.
    pub open spec fn valid_gain(self) -> bool {
        self.within(0, 30)
    }

    /// The range of the limiter ceiling: -12 to 0 dBFS.
    pub open spec fn valid_limiter(self) -> bool {
        self.within(-12, 0)
    }

    /// IEEE 754 equality: an undefined level equals none, and the two zeros are equal.
    pub open spec fn equal_to(self, other: Decibels) -> bool {
        &&& self.pattern() <= NON_FINITE_64
        &&& other.pattern() <= NON_FINITE_64
        &&& self.bits == other.bits || (self.pattern() == 0 && other.pattern() == 0)
    }

    /// The level with the given bit pattern.
    pub fn from_bits(bits: u64) -> (level: Decibels)
        ensures
            level.bits == bits,
    {
        Decibels { bits }
    }

    /// Accepts a gain that is finite and between 0 and 30 dB.
    pub fn is_valid_gain(self) -> (valid: bool)
        ensures
            valid == self.valid_gain(),
    {
        let pattern: u64 = self.bits % SIGN_64;
        proof {
            lemma_pow2_pos(1074);
            lemma_whole_64();
            lemma_magnitude_order(pattern as nat, MAX_GAIN_64 as nat, 52);
            lemma_magnitude_order(pattern as nat, 0, 52);
            lemma_magnitude_zero(52);
        }
        if self.bits >= SIGN_64 {
            pattern == 0
        } else {
            pattern <= MAX_GAIN_64
        }
    }

    /// Accepts a limiter ceiling that is finite and between -12 and 0 dBFS.
    pub fn is_valid_limiter(self) -> (valid: bool)
        ensures
            valid == self.valid_limiter(),
    {
        let pattern: u64 = self.bits % SIGN_64;
        proof {
            lemma_pow2_pos(1074);
            lemma_whole_64();
            lemma_magnitude_order(pattern as nat, MAX_ATTENUATION_64 as nat, 52);
            lemma_magnitude_order(pattern as nat, 0, 52);
            lemma_magnitude_zero(52);
        }
        if self.bits >= SIGN_64 {
            pattern <= MAX_ATTENUATION_64
        } else {
            pattern == 0
        }
    }

    /// IEEE 754 equality of two levels.
    pub fn equals(self, other: Decibels) -> (equal: bool)
        ensures
            equal == self.equal_to(other),
    {
        let left: u64 = self.bits % SIGN_64;
        let right: u64 = other.bits % SIGN_64;
        left <= NON_FINITE_64 && right <= NON_FINITE_64 && (self.bits == other.bits || (left == 0
            && right == 0))
    }
}

/// A level by its binary32 bit pattern, as the audio engine takes it.
#[derive(Clone, Copy, Debug)]
pub struct EngineDecibels {
    pub bits: u32,
}

impl EngineDecibels {
    /// Whether the sign is negative.
    pub open spec fn negative(self) -> bool {
        self.bits >= SIGN_32
    }

    /// The bit pattern without the sign.
    pub open spec fn pattern(self) -> nat {
        (self.bits % SIGN_32) as nat
    }

    /// Whether the level is a number, neither infinite nor undefined.
    pub open spec fn finite(self) -> bool {
        self.pattern() < NON_FINITE_32
    }

    /// The level times two to the 149th power, an exact integer where the level
    /// is finite.
    pub open spec fn scaled(self) -> int {
        if self.negative() {
            -magnitude(self.pattern(), 23)
        } else {
            magnitude(self.pattern(), 23) as int
        }
    }

    /// Whether the level is finite and lies between two whole numbers of decibels.
    pub open spec fn within(self, low: int, high: int) -> bool {
        &&& self.finite()
        &&& low * pow2(149) <= self.scaled() <= high * pow2(149)
    }

    /// The range of the gain before the limiter: 0 to 30 dB.
    pub open spec fn valid_gain(self) -> bool {
        self.within(0, 30)
    }

    /// The range of the limiter ceiling: -12 to 0 dBFS.
    pub open spec fn valid_limiter(self) -> bool {
        self.within(-12, 0)
    }

    /// The level with the given bit pattern.
    pub fn from_bits(bits: u32) -> (level: EngineDecibels)
        ensures
            level.bits == bits,
    {
        EngineDecibels { bits }
    }

    /// Accepts a gain that is finite and between 0 and 30 dB.
    pub fn is_valid_gain(self) -> (valid: bool)
        ensures
            valid == self.valid_gain(),
    {
        let pattern: u32 = self.bits % SIGN_32;
        proof {
            lemma_pow2_pos(149);
            lemma_whole_32();
            lemma_magnitude_order(pattern as nat, MAX_GAIN_32 as nat, 23);
            lemma_magnitude_order(pattern as nat, 0, 23);
            lemma_magnitude_zero(23);
        }
        if self.bits >= SIGN_32 {
            pattern == 0
        } else {
            pattern <= MAX_GAIN_32
        }
    }

    /// Accepts a limiter ceiling that is finite and between -12 and 0 dBFS.
    pub fn is_valid_limiter(self) -> (valid: bool)
        ensures
            valid == self.valid_limiter(),
    {
        let pattern: u32 = self.bits % SIGN_32;
        proof {
            lemma_pow2_pos(149);
            lemma_whole_32();
            lemma_magnitude_order(pattern as nat, MAX_ATTENUATION_32 as nat, 23);
            lemma_magnitude_order(pattern as nat, 0, 23);
            lemma_magnitude_zero(23);
        }
        if self.bits >= SIGN_32 {
            pattern <= MAX_ATTENUATION_32
        } else {
            pattern == 0
        }
    }
}

proof fn lemma_twice(double: nat, single: nat)
    requires
        double == 2 * single,
    ensures
        15 * double == 30 * single,
        9 * double == 18 * single,
{
}

proof fn lemma_magnitude_zero(fraction_bits: nat)
    ensures
        magnitude(0, fraction_bits) == 0,
{
    lemma_pow2_pos(fraction_bits);
    vstd::arithmetic::div_mod::lemma_div_of0(pow2(fraction_bits) as int);
    vstd::arithmetic::div_mod::lemma_small_mod(0, pow2(fraction_bits));
}

/// The magnitudes of the whole numbers that bound and fill the ranges, in binary64.
pub proof fn lemma_whole_64()
    ensures
        magnitude(MAX_GAIN_64 as nat, 52) == 30 * pow2(1074),
        magnitude(MAX_ATTENUATION_64 as nat, 52) == 12 * pow2(1074),
        magnitude(DEFAULT_GAIN_64 as nat, 52) == 18 * pow2(1074),
        magnitude((DEFAULT_LIMITER_64 - SIGN_64) as nat, 52) == 3 * pow2(1074),
{
    lemma2_to64();
    lemma2_to64_rest();
    lemma_magnitude_of(MAX_GAIN_64 as nat, 52, 0x403, 7);
    lemma_magnitude_of(MAX_ATTENUATION_64 as nat, 52, 0x402, 4);
    lemma_magnitude_of(DEFAULT_GAIN_64 as nat, 52, 0x403, 1);
    lemma_magnitude_of((DEFAULT_LIMITER_64 - SIGN_64) as nat, 52, 0x400, 4);
    lemma_pow2_unfold(1075);
    lemma_twice(pow2(1075), pow2(1074));
    lemma_pow2_unfold(1074);
    lemma_pow2_unfold(1073);
}

/// The magnitudes of the whole numbers that bound and fill the ranges, in binary32.
pub proof fn lemma_whole_32()
    ensures
        magnitude(MAX_GAIN_32 as nat, 23) == 30 * pow2(149),
        magnitude(MAX_ATTENUATION_32 as nat, 23) == 12 * pow2(149),
        magnitude(DEFAULT_MIC_GAIN_32 as nat, 23) == 18 * pow2(149),
        magnitude((DEFAULT_LIMITER_32 - SIGN_32) as nat, 23) == 3 * pow2(149),
{
    lemma2_to64();
    lemma_magnitude_of(MAX_GAIN_32 as nat, 23, 0x83, 7);
    lemma_magnitude_of(MAX_ATTENUATION_32 as nat, 23, 0x82, 4);
    lemma_magnitude_of(DEFAULT_MIC_GAIN_32 as nat, 23, 0x83, 1);
    lemma_magnitude_of((DEFAULT_LIMITER_32 - SIGN_32) as nat, 23, 0x80, 4);
    lemma_pow2_unfold(150);
    lemma_twice(pow2(150), pow2(149));
    lemma_pow2_unfold(149);
    lemma_pow2_unfold(148);
}

/// The levels that stand until others are configured, 18 dB and -3 dBFS, lie in
/// the accepted ranges.
pub proof fn law_defaults_are_valid()
    ensures
        (Decibels { bits: DEFAULT_GAIN_64 }).valid_gain(),
        (Decibels { bits: DEFAULT_GAIN_64 }).scaled() == 18 * pow2(1074),
        (Decibels { bits: DEFAULT_LIMITER_64 }).valid_limiter(),
        (Decibels { bits: DEFAULT_LIMITER_64 }).scaled() == -3 * pow2(1074),
{
    lemma_pow2_pos(1074);
    lemma_whole_64();
}

/// Two finite levels are equal exactly where they are the same number.
pub proof fn law_equality_is_numeric(left: Decibels, right: Decibels)
    requires
        left.finite(),
        right.finite(),
    ensures
        left.equal_to(right) <==> left.scaled() == right.scaled(),
{
    lemma_magnitude_order(left.pattern(), right.pattern(), 52);
    lemma_magnitude_order(right.pattern(), left.pattern(), 52);
    lemma_magnitude_order(left.pattern(), 0, 52);
    lemma_magnitude_order(right.pattern(), 0, 52);
    lemma_magnitude_zero(52);
}

/// A gain is accepted exactly from zero, of either sign, up to the pattern of 30: every
/// greater one, every negative one and everything that is no number is refused.
pub proof fn law_gains_reach_from_0_to_30(level: Decibels, valid: bool)
    requires
        call_ensures(Decibels::is_valid_gain, (level,), valid),
    ensures
        valid <==> level.bits <= 0x403e_0000_0000_0000 || level.bits == 0x8000_0000_0000_0000,
        magnitude(0x403e_0000_0000_0000, 52) == 30 * pow2(1074),
        valid ==> 0 <= level.scaled() <= 30 * pow2(1074),
{
    lemma_pow2_pos(1074);
    lemma_whole_64();
    lemma_magnitude_order(level.pattern(), MAX_GAIN_64 as nat, 52);
    lemma_magnitude_order(level.pattern(), 0, 52);
    lemma_magnitude_zero(52);
}

/// A limiter is accepted exactly from zero, of either sign, down to the pattern of -12.
pub proof fn law_limiters_reach_from_minus_12_to_0(level: Decibels, valid: bool)
    requires
        call_ensures(Decibels::is_valid_limiter, (level,), valid),
    ensures
        valid <==> level.bits == 0 || 0x8000_0000_0000_0000 <= level.bits
            <= 0xc028_0000_0000_0000,
        magnitude(0x4028_0000_0000_0000, 52) == 12 * pow2(1074),
        valid ==> -12 * pow2(1074) <= level.scaled() <= 0,
{
    lemma_pow2_pos(1074);
    lemma_whole_64();
    lemma_magnitude_order(level.pattern(), MAX_ATTENUATION_64 as nat, 52);
    lemma_magnitude_order(level.pattern(), 0, 52);
    lemma_magnitude_zero(52);
}

/// The audio engine takes the same gains, in its own format.
pub proof fn law_engine_gains_reach_from_0_to_30(level: EngineDecibels, valid: bool)
    requires
        call_ensures(EngineDecibels::is_valid_gain, (level,), valid),
    ensures
        valid <==> level.bits <= 0x41f0_0000 || level.bits == 0x8000_0000,
        magnitude(0x41f0_0000, 23) == 30 * pow2(149),
        valid ==> 0 <= level.scaled() <= 30 * pow2(149),
{
    lemma_pow2_pos(149);
    lemma_whole_32();
    lemma_magnitude_order(level.pattern(), MAX_GAIN_32 as nat, 23);
    lemma_magnitude_order(level.pattern(), 0, 23);
    lemma_magnitude_zero(23);
}

/// The audio engine takes the same limiters, in its own format.
pub proof fn law_engine_limiters_reach_from_minus_12_to_0(level: EngineDecibels, valid: bool)
    requires
        call_ensures(EngineDecibels::is_valid_limiter, (level,), valid),
    ensures
        valid <==> level.bits == 0 || 0x8000_0000 <= level.bits <= 0xc140_0000,
        magnitude(0x4140_0000, 23) == 12 * pow2(149),
        valid ==> -12 * pow2(149) <= level.scaled() <= 0,
{
    lemma_pow2_pos(149);
    lemma_whole_32();
    lemma_magnitude_order(level.pattern(), MAX_ATTENUATION_32 as nat, 23);
    lemma_magnitude_order(level.pattern(), 0, 23);
    lemma_magnitude_zero(23);
}

/// Two levels are equal exactly where they have the same pattern or are both zero, and
/// neither is undefined: what is undefined does not even equal itself.
pub proof fn law_undefined_levels_equal_nothing(left: Decibels, right: Decibels, equal: bool)
    requires
        call_ensures(Decibels::equals, (left, right), equal),
    ensures
        equal <==> {
            &&& left.bits % 0x8000_0000_0000_0000 <= 0x7ff0_0000_0000_0000
            &&& right.bits % 0x8000_0000_0000_0000 <= 0x7ff0_0000_0000_0000
            &&& left.bits == right.bits || (left.bits % 0x8000_0000_0000_0000 == 0 && right.bits
                % 0x8000_0000_0000_0000 == 0)
        },
{
}

} // verus!
