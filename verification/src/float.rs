//! IEEE 754 numbers as bit patterns.
use vstd::arithmetic::power2::{lemma_pow2_adds, lemma_pow2_pos, lemma_pow2_strictly_increases, pow2};
use vstd::bits::{lemma_u64_shl_is_mul, lemma_u64_shr_is_div};
use vstd::prelude::*;

verus! {

/// The weight of the sign bit of a single precision pattern.
pub const SIGN_BIT: u32 = 0x8000_0000;

/// The magnitude of an infinity; magnitudes above it are not numbers.
pub const INF_MAGNITUDE: u32 = 0x7f80_0000;

/// The number of patterns that share one exponent.
pub const FRACTION_RANGE: u32 = 0x80_0000;

/// The weight of the sign bit of a double precision pattern.
pub const SIGN_BIT_64: u64 = 0x8000_0000_0000_0000;

/// The magnitude of a double precision infinity.
pub const INF_MAGNITUDE_64: u64 = 0x7ff0_0000_0000_0000;

/// A single precision number.
#[derive(Debug, Clone, Copy, PartialEq, Eq, Hash, Structural)]
pub struct F32 {
    pub bits: u32,
}

/// A double precision number.
#[derive(Debug, Clone, Copy, PartialEq, Eq, Hash, Structural)]
pub struct F64 {
    pub bits: u64,
}

/// The number with the given pattern.
pub open spec fn f32_of(bits: u32) -> F32 {
    F32 { bits }
}

impl F32 {
    /// Whether the sign bit is set.
    pub open spec fn negative(self) -> bool {
        self.bits >= SIGN_BIT
    }

    /// The pattern without its sign bit.
    pub open spec fn magnitude(self) -> int {
        self.bits as int % SIGN_BIT as int
    }

    /// Neither an infinity nor a NaN.
    pub open spec fn finite(self) -> bool {
        self.magnitude() < INF_MAGNITUDE
    }

    /// Not a number.
    pub open spec fn nan(self) -> bool {
        self.magnitude() > INF_MAGNITUDE
    }

    /// The place of a number on the real line: numbers compare as their ranks do, and the two
    /// zeros share one.
    pub open spec fn rank(self) -> int {
        if self.negative() {
            -self.magnitude()
        } else {
            self.magnitude()
        }
    }

    /// The place of a pattern in the total order: NaNs lie outside the infinities of their sign,
    /// and the negative zero lies below the positive one.
    pub open spec fn total_rank(self) -> int {
        if self.negative() {
            -1 - self.magnitude()
        } else {
            self.magnitude()
        }
    }

    /// The absolute value of a finite number, in units of the least positive one.
    pub open spec fn units(self) -> nat {
        magnitude_units(self.magnitude())
    }

    /// The value of a finite number, in units of the least positive one.
    pub open spec fn value(self) -> int {
        if self.negative() {
            -(self.units() as int)
        } else {
            self.units() as int
        }
    }

    /// The number with the given pattern.
    pub fn from_bits(bits: u32) -> (r: F32)
        ensures
            r == f32_of(bits),
    {
        F32 { bits }
    }

    /// Positive zero.
    pub fn zero() -> (r: F32)
        ensures
            r == f32_of(0),
    {
        F32 { bits: 0 }
    }

    /// Whether the number is neither an infinity nor a NaN.
    pub fn is_finite(self) -> (r: bool)
        ensures
            r == self.finite(),
    {
        self.bits % SIGN_BIT < INF_MAGNITUDE
    }

    /// Whether the pattern is no number.
    pub fn is_nan(self) -> (r: bool)
        ensures
            r == self.nan(),
    {
        self.bits % SIGN_BIT > INF_MAGNITUDE
    }

    /// `self < other`.
    pub fn lt(self, other: F32) -> (r: bool)
        ensures
            r == (!self.nan() && !other.nan() && self.rank() < other.rank()),
    {
        if self.is_nan() || other.is_nan() {
            return false;
        }
        self.exec_rank() < other.exec_rank()
    }

    /// `self <= other`.
    pub fn le(self, other: F32) -> (r: bool)
        ensures
            r == (!self.nan() && !other.nan() && self.rank() <= other.rank()),
    {
        if self.is_nan() || other.is_nan() {
            return false;
        }
        self.exec_rank() <= other.exec_rank()
    }

    /// `self == other`, as numbers: the zeros are equal and a NaN equals nothing.
    pub fn same(self, other: F32) -> (r: bool)
        ensures
            r == (!self.nan() && !other.nan() && self.rank() == other.rank()),
    {
        if self.is_nan() || other.is_nan() {
            return false;
        }
        self.exec_rank() == other.exec_rank()
    }

    /// Whether `self` comes before `other` in the total order of the patterns.
    pub fn total_lt(self, other: F32) -> (r: bool)
        ensures
            r == (self.total_rank() < other.total_rank()),
    {
        self.exec_total_rank() < other.exec_total_rank()
    }

    /// `-self`.
    pub fn neg(self) -> (r: F32)
        ensures
            r.negative() == !self.negative(),
            r.magnitude() == self.magnitude(),
    {
        if self.bits >= SIGN_BIT {
            F32 { bits: self.bits - SIGN_BIT }
        } else {
            F32 { bits: self.bits + SIGN_BIT }
        }
    }

    /// `self.abs()`.
    pub fn abs(self) -> (r: F32)
        ensures
            !r.negative(),
            r.magnitude() == self.magnitude(),
    {
        F32 { bits: self.bits % SIGN_BIT }
    }

    /// `self.max(0.0)`: what is negative or no number becomes zero.
    pub fn max_zero(self) -> (r: F32)
        ensures
            r == if self.nan() || self.rank() <= 0 {
                f32_of(0)
            } else {
                self
            },
    {
        if self.is_nan() || self.bits >= SIGN_BIT {
            F32 { bits: 0 }
        } else {
            self
        }
    }

    /// The whole part of `self.max(0.0) * factor`, capped at the largest `u64`.
    ///
    /// With a factor of at most 29 bits the product is exact in double precision, so computing it
    /// there and cutting the fraction off gives the same number.
    pub fn scaled_floor(self, factor: u32) -> (r: u64)
        requires
            factor < 0x2000_0000,
        ensures
            r == self.spec_scaled_floor(factor),
    {
        if self.is_nan() || self.bits >= SIGN_BIT {
            return 0;
        }
        if self.bits == INF_MAGNITUDE {
            return u64::MAX;
        }
        let exponent: u32 = self.bits / FRACTION_RANGE;
        let fraction: u32 = self.bits % FRACTION_RANGE;
        assert(exponent <= 254);
        if exponent < 96 {
            // Far below one unit of the result, whatever the factor.
            proof {
                lemma_small_product(self, factor);
            }
            return 0;
        }
        let mantissa: u64 = (FRACTION_RANGE + fraction) as u64;
        assert(mantissa * (factor as u64) < 0x100_0000 * 0x2000_0000) by (nonlinear_arith)
            requires
                mantissa < 0x100_0000,
                factor < 0x2000_0000,
        ;
        let product: u64 = mantissa * (factor as u64);
        if exponent < 150 {
            let down: u64 = (150 - exponent) as u64;
            proof {
                lemma_u64_shr_is_div(product, down);
                lemma_pow2_adds((exponent - 1) as nat, down as nat);
                lemma_pow2_pos((exponent - 1) as nat);
                lemma_pow2_pos(down as nat);
                lemma_common_factor(
                    product as int,
                    pow2((exponent - 1) as nat) as int,
                    pow2(down as nat) as int,
                );
                lemma_units_times(mantissa as int, pow2((exponent - 1) as nat) as int, factor as int);
                assert((product >> down) == product as int / pow2(down as nat) as int);
            }
            product >> down
        } else {
            let up: u32 = exponent - 150;
            proof {
                lemma_pow2_adds(up as nat, 149);
                lemma_pow2_pos(149);
                lemma_pow2_pos(up as nat);
                lemma_units_times(mantissa as int, pow2((exponent - 1) as nat) as int, factor as int);
                lemma_exact_quotient(product as int, pow2(up as nat) as int, pow2(149) as int);
            }
            assert(self.units() * factor / pow2(149) as int == product * pow2(up as nat));
            if factor == 0 {
                assert(product == 0 && product * pow2(up as nat) == 0) by (nonlinear_arith)
                    requires
                        factor == 0,
                        product == mantissa * (factor as u64),
                ;
                return 0;
            }
            assert(product >= 0x80_0000) by (nonlinear_arith)
                requires
                    mantissa >= 0x80_0000,
                    factor >= 1,
                    product == mantissa * (factor as u64),
            ;
            if up >= 64 {
                proof {
                    lemma_pow2_grows(64, up as nat);
                    lemma_pow2_64();
                }
                assert(product * pow2(up as nat) > u64::MAX) by (nonlinear_arith)
                    requires
                        product >= 1,
                        pow2(up as nat) > u64::MAX,
                ;
                return u64::MAX;
            }
            let bound: u64 = u64::MAX >> up as u64;
            proof {
                lemma_u64_shr_is_div(u64::MAX, up as u64);
            }
            assert(bound == u64::MAX as int / pow2(up as nat) as int);
            if product > bound {
                proof {
                    lemma_over_bound(product as int, pow2(up as nat) as int, u64::MAX as int);
                }
                u64::MAX
            } else {
                proof {
                    lemma_under_bound(product as int, pow2(up as nat) as int, u64::MAX as int);
                    lemma_u64_shl_is_mul(product, up as u64);
                }
                product << up as u64
            }
        }
    }

    /// What [`F32::scaled_floor`] gives.
    pub open spec fn spec_scaled_floor(self, factor: u32) -> int {
        if self.nan() || self.negative() {
            0
        } else if !self.finite() || self.units() * factor / pow2(149) as int > u64::MAX {
            u64::MAX as int
        } else {
            self.units() * factor / pow2(149) as int
        }
    }

    fn exec_rank(self) -> (r: i64)
        ensures
            r == self.rank(),
    {
        let magnitude: i64 = (self.bits % SIGN_BIT) as i64;
        if self.bits >= SIGN_BIT {
            -magnitude
        } else {
            magnitude
        }
    }

    fn exec_total_rank(self) -> (r: i64)
        ensures
            r == self.total_rank(),
    {
        let magnitude: i64 = (self.bits % SIGN_BIT) as i64;
        if self.bits >= SIGN_BIT {
            -1 - magnitude
        } else {
            magnitude
        }
    }
}

/// The value of a magnitude in units of the least positive number: below the first full exponent
/// the fraction itself, above it the fraction with its leading one, doubled once per exponent.
pub open spec fn magnitude_units(magnitude: int) -> nat
    recommends
        0 <= magnitude < INF_MAGNITUDE,
{
    let exponent = magnitude / FRACTION_RANGE as int;
    let fraction = magnitude % FRACTION_RANGE as int;
    if exponent == 0 {
        fraction as nat
    } else {
        ((FRACTION_RANGE + fraction) * pow2((exponent - 1) as nat)) as nat
    }
}

proof fn lemma_pow2_grows(low: nat, high: nat)
    requires
        low <= high,
    ensures
        pow2(low) <= pow2(high),
{
    if low < high {
        lemma_pow2_strictly_increases(low, high);
    }
}

proof fn lemma_pow2_64()
    ensures
        pow2(64) == u64::MAX + 1,
{
    vstd::arithmetic::power2::lemma2_to64();
}

proof fn lemma_units_times(mantissa: int, power: int, factor: int)
    by (nonlinear_arith)
    ensures
        (mantissa * power) * factor == (mantissa * factor) * power,
{
}

proof fn lemma_common_factor(a: int, p: int, q: int)
    requires
        p > 0,
        q > 0,
        a >= 0,
    ensures
        (a * p) / (p * q) == a / q,
{
    vstd::arithmetic::div_mod::lemma_div_denominator(a * p, p, q);
    vstd::arithmetic::div_mod::lemma_div_multiples_vanish(a, p);
    vstd::arithmetic::mul::lemma_mul_is_commutative(a, p);
}

proof fn lemma_exact_quotient(a: int, p: int, q: int)
    requires
        p > 0,
        q > 0,
    ensures
        (a * (p * q)) / q == a * p,
{
    vstd::arithmetic::mul::lemma_mul_is_associative(a, p, q);
    vstd::arithmetic::mul::lemma_mul_is_commutative(a * p, q);
    vstd::arithmetic::div_mod::lemma_div_multiples_vanish(a * p, q);
}

proof fn lemma_over_bound(a: int, p: int, limit: int)
    requires
        p > 0,
        a > limit / p,
    ensures
        a * p > limit,
{
    vstd::arithmetic::div_mod::lemma_fundamental_div_mod(limit, p);
    assert(a * p >= (limit / p + 1) * p) by (nonlinear_arith)
        requires
            a >= limit / p + 1,
            p > 0,
    ;
    assert((limit / p + 1) * p == p * (limit / p) + p) by (nonlinear_arith);
}

proof fn lemma_under_bound(a: int, p: int, limit: int)
    requires
        p > 0,
        a <= limit / p,
        limit >= 0,
    ensures
        a * p <= limit,
{
    vstd::arithmetic::div_mod::lemma_fundamental_div_mod(limit, p);
    assert(a * p <= (limit / p) * p) by (nonlinear_arith)
        requires
            a <= limit / p,
            p > 0,
    ;
    assert((limit / p) * p == p * (limit / p)) by (nonlinear_arith);
}

/// A number of an exponent below 96 times a factor of 29 bits is less than one.
proof fn lemma_small_product(x: F32, factor: u32)
    requires
        x.magnitude() < 96 * FRACTION_RANGE,
        factor < 0x2000_0000,
    ensures
        x.units() * factor / pow2(149) as int == 0,
{
    let exponent = x.magnitude() / FRACTION_RANGE as int;
    let fraction = x.magnitude() % FRACTION_RANGE as int;
    vstd::arithmetic::power2::lemma2_to64();
    lemma_pow2_pos(94);
    lemma_pow2_pos(149);
    if exponent == 0 {
        assert(x.units() < 0x100_0000 * pow2(94)) by (nonlinear_arith)
            requires
                x.units() < 0x80_0000,
                pow2(94) >= 1,
        ;
    } else {
        lemma_pow2_grows((exponent - 1) as nat, 94);
        let power = pow2((exponent - 1) as nat);
        assert((FRACTION_RANGE + fraction) * power < 0x100_0000 * pow2(94)) by (nonlinear_arith)
            requires
                0 <= fraction < 0x80_0000,
                0 <= power <= pow2(94),
                pow2(94) >= 1,
        ;
    }
    assert(pow2(24) == 0x100_0000 && pow2(29) == 0x2000_0000);
    lemma_pow2_adds(24, 94);
    lemma_pow2_adds(118, 29);
    lemma_pow2_grows(147, 149);
    assert(x.units() * factor < pow2(118) * pow2(29)) by (nonlinear_arith)
        requires
            0 <= x.units() < pow2(118),
            0 <= factor < pow2(29),
    ;
    assert(x.units() * factor >= 0) by (nonlinear_arith);
    vstd::arithmetic::div_mod::lemma_basic_div(x.units() * factor, pow2(149) as int);
}

/// Larger magnitudes have larger values.
proof fn lemma_units_increase(low: int, high: int)
    requires
        0 <= low < high < INF_MAGNITUDE,
    ensures
        magnitude_units(low) < magnitude_units(high),
{
    let range = FRACTION_RANGE as int;
    let (e1, f1) = (low / range, low % range);
    let (e2, f2) = (high / range, high % range);
    vstd::arithmetic::power2::lemma2_to64();
    if e1 == e2 {
        if e1 > 0 {
            let power = pow2((e1 - 1) as nat);
            lemma_pow2_pos((e1 - 1) as nat);
            assert((range + f1) * power < (range + f2) * power) by (nonlinear_arith)
                requires
                    f1 < f2,
                    power > 0,
            ;
        }
    } else {
        let power = pow2((e2 - 1) as nat);
        lemma_pow2_pos((e2 - 1) as nat);
        assert((range + f2) * power >= range * power) by (nonlinear_arith)
            requires
                f2 >= 0,
                power > 0,
        ;
        if e1 == 0 {
            assert(range * power >= range) by (nonlinear_arith)
                requires
                    power >= 1,
                    range > 0,
            ;
        } else {
            let lower = pow2((e1 - 1) as nat);
            lemma_pow2_pos((e1 - 1) as nat);
            lemma_pow2_adds(1, (e1 - 1) as nat);
            lemma_pow2_grows(e1 as nat, (e2 - 1) as nat);
            assert(2 * lower <= power);
            assert((range + f1) * lower < range * power) by (nonlinear_arith)
                requires
                    0 <= f1 < range,
                    lower > 0,
                    2 * lower <= power,
            ;
        }
    }
}

/// Finite numbers compare as their values do.
pub proof fn law_rank_orders_values(a: F32, b: F32)
    requires
        a.finite(),
        b.finite(),
    ensures
        (a.rank() < b.rank()) == (a.value() < b.value()),
        (a.rank() == b.rank()) == (a.value() == b.value()),
{
    let (m, n) = (a.magnitude(), b.magnitude());
    if m < n {
        lemma_units_increase(m, n);
    } else if n < m {
        lemma_units_increase(n, m);
    }
    if 0 < m {
        lemma_units_increase(0, m);
    }
    if 0 < n {
        lemma_units_increase(0, n);
    }
}

impl F64 {
    /// Not a number.
    pub open spec fn nan(self) -> bool {
        self.bits as int % SIGN_BIT_64 as int > INF_MAGNITUDE_64
    }

    /// The place of a number on the real line.
    pub open spec fn rank(self) -> int {
        let magnitude = self.bits as int % SIGN_BIT_64 as int;
        if self.bits >= SIGN_BIT_64 {
            -magnitude
        } else {
            magnitude
        }
    }

    /// `self.max(floor)` for a positive `floor`: what is below it or no number becomes `floor`.
    pub fn at_least(self, floor: F64) -> (r: F64)
        requires
            !floor.nan(),
            floor.rank() > 0,
        ensures
            r == if self.nan() || self.rank() <= floor.rank() {
                floor
            } else {
                self
            },
    {
        if self.bits >= SIGN_BIT_64 || self.bits > INF_MAGNITUDE_64 || self.bits <= floor.bits {
            floor
        } else {
            self
        }
    }
}

/// What the patterns mean: the highest bit is the sign, the eight bits below it all set are no
/// finite number, and of those only the ones with a fraction are no number at all.
pub proof fn law_patterns(v: F32)
    ensures
        v.negative() <==> v.bits >= 0x8000_0000,
        v.magnitude() == (if v.bits >= 0x8000_0000 {
            v.bits - 0x8000_0000
        } else {
            v.bits as int
        }),
        v.finite() <==> v.bits < 0x7f80_0000 || 0x8000_0000 <= v.bits < 0xff80_0000,
        v.nan() <==> 0x7f80_0000 < v.bits < 0x8000_0000 || v.bits > 0xff80_0000,
{
}

/// The least positive number is the unit, each power of two is twice the one before, and numbers of
/// one exponent are evenly spaced.
pub proof fn law_values_of_patterns(magnitude: int)
    requires
        0 <= magnitude,
        magnitude + 0x80_0000 < INF_MAGNITUDE,
    ensures
        magnitude <= 0x100_0000 ==> magnitude_units(magnitude) == magnitude,
        magnitude >= 0x80_0000 ==> magnitude_units(magnitude + 0x80_0000) == 2 * magnitude_units(
            magnitude,
        ),
{
    vstd::arithmetic::power2::lemma2_to64();
    let exponent = magnitude / FRACTION_RANGE as int;
    let fraction = magnitude % FRACTION_RANGE as int;
    if magnitude >= 0x80_0000 {
        let power = pow2((exponent - 1) as nat);
        assert((magnitude + 0x80_0000) / FRACTION_RANGE as int == exponent + 1);
        assert((magnitude + 0x80_0000) % FRACTION_RANGE as int == fraction);
        lemma_pow2_adds(1, (exponent - 1) as nat);
        assert((FRACTION_RANGE + fraction) * (2 * power) == 2 * ((FRACTION_RANGE + fraction)
            * power)) by (nonlinear_arith);
        if magnitude < 0x100_0000 {
            assert(exponent == 1);
            assert(pow2((exponent - 1) as nat) == pow2(0));
            assert((FRACTION_RANGE + fraction) * 1 == magnitude);
        } else if magnitude == 0x100_0000 {
            assert(exponent == 2 && fraction == 0);
            assert(pow2((exponent - 1) as nat) == pow2(1));
            assert((FRACTION_RANGE + fraction) * 2 == magnitude);
        }
    } else {
        assert(exponent == 0 && fraction == magnitude);
    }
}

/// The total order tells any two patterns apart, and puts numbers that differ in the order of their
/// values; every pattern that is no number lies outside all numbers, on the side of its sign.
pub proof fn law_the_total_order_refines_the_values(a: F32, b: F32)
    ensures
        a.total_rank() == b.total_rank() <==> a.bits == b.bits,
        !a.nan() && !b.nan() && a.rank() < b.rank() ==> a.total_rank() < b.total_rank(),
        a.bits == 0x8000_0000 && b.bits == 0 ==> a.total_rank() < b.total_rank(),
        a.nan() && a.negative() && !b.nan() ==> a.total_rank() < b.total_rank(),
        a.nan() && !a.negative() && !b.nan() ==> a.total_rank() > b.total_rank(),
{
}

/// A scaled number is cut down to a whole one: it is at most the product and less than one below
/// it. What is no number or negative gives nothing, and what is too large gives the largest.
pub proof fn law_scaled_numbers_are_cut_down(v: F32, factor: u32)
    ensures
        ({
            let r = v.spec_scaled_floor(factor);
            let one = pow2(149);
            &&& 0 <= r <= u64::MAX
            &&& v.nan() || v.negative() ==> r == 0
            &&& v.finite() && !v.negative() && r < u64::MAX ==> r * one <= v.units() * factor < (r
                + 1) * one
            &&& v.finite() && !v.negative() && r == u64::MAX ==> r * one <= v.units() * factor
            &&& v.bits == 0x7f80_0000 ==> r == u64::MAX
        }),
{
    let one = pow2(149) as int;
    lemma_pow2_pos(149);
    let product = (v.units() * factor) as int;
    assert(product >= 0) by (nonlinear_arith)
        requires
            product == v.units() * factor,
    ;
    vstd::arithmetic::div_mod::lemma_fundamental_div_mod(product, one);
    vstd::arithmetic::div_mod::lemma_div_pos_is_pos(product, one);
    let q = product / one;
    assert(q * one == one * q && (q + 1) * one == one * q + one) by (nonlinear_arith);
    assert(q > u64::MAX ==> u64::MAX * one <= q * one) by (nonlinear_arith)
        requires
            one > 0,
    ;
}

/// Numbers compare as their values do; what is no number compares with nothing. Of the total order
/// the same holds but that it tells all patterns apart.
pub proof fn law_calls_of_the_comparisons(
    a: F32,
    b: F32,
    lt: bool,
    le: bool,
    same: bool,
    before: bool,
)
    requires
        call_ensures(F32::lt, (a, b), lt),
        call_ensures(F32::le, (a, b), le),
        call_ensures(F32::same, (a, b), same),
        call_ensures(F32::total_lt, (a, b), before),
    ensures
        a.nan() || b.nan() ==> !lt && !le && !same,
        a.finite() && b.finite() ==> {
            &&& lt <==> a.value() < b.value()
            &&& le <==> a.value() <= b.value()
            &&& same <==> a.value() == b.value()
        },
        a.bits < 0x8000_0000 && b.bits < 0x8000_0000 ==> (before <==> a.bits < b.bits),
        a.bits >= 0x8000_0000 && b.bits >= 0x8000_0000 ==> (before <==> a.bits > b.bits),
        (a.bits >= 0x8000_0000) != (b.bits >= 0x8000_0000) ==> (before <==> a.bits >= 0x8000_0000),
{
    if a.finite() && b.finite() {
        law_rank_orders_values(a, b);
    }
}

/// What becomes of single numbers: the other sign, no sign, zero for what is below it or no number,
/// and whether they are finite.
pub proof fn law_calls_of_the_signs(
    a: F32,
    neg: F32,
    abs: F32,
    floor: F32,
    finite: bool,
    nan: bool,
    zero: F32,
    bits: u32,
    made: F32,
)
    requires
        call_ensures(F32::neg, (a,), neg),
        call_ensures(F32::abs, (a,), abs),
        call_ensures(F32::max_zero, (a,), floor),
        call_ensures(F32::is_finite, (a,), finite),
        call_ensures(F32::is_nan, (a,), nan),
        call_ensures(F32::zero, (), zero),
        call_ensures(F32::from_bits, (bits,), made),
    ensures
        neg.bits == (if a.bits >= 0x8000_0000 {
            a.bits - 0x8000_0000
        } else {
            a.bits + 0x8000_0000
        }),
        abs.bits == a.bits % 0x8000_0000,
        0 < a.bits <= 0x7f80_0000 ==> floor.bits == a.bits,
        !(0 < a.bits <= 0x7f80_0000) ==> floor.bits == 0,
        finite <==> a.bits % 0x8000_0000 < 0x7f80_0000,
        nan <==> a.bits % 0x8000_0000 > 0x7f80_0000,
        zero.bits == 0,
        made.bits == bits,
{
}

/// What is above the floor stays; what is not, or is no number, becomes the floor.
pub proof fn law_calls_of_at_least(a: F64, floor: F64, r: F64)
    requires
        call_ensures(F64::at_least, (a, floor), r),
        !floor.nan(),
        floor.rank() > 0,
    ensures
        floor.bits < a.bits <= 0x7ff0_0000_0000_0000 ==> r.bits == a.bits,
        !(floor.bits < a.bits <= 0x7ff0_0000_0000_0000) ==> r.bits == floor.bits,
{
}

/// A scaled number is the whole part of the product, and zero for what is negative or no number.
pub proof fn law_calls_of_scaled_floor(a: F32, factor: u32, r: u64)
    requires
        call_ensures(F32::scaled_floor, (a, factor), r),
    ensures
        a.nan() || a.negative() ==> r == 0,
        a.finite() && !a.negative() && r < u64::MAX ==> r * pow2(149) <= a.units() * factor < (r
            + 1) * pow2(149),
        a.bits == 0x7f80_0000 ==> r == u64::MAX,
{
    law_scaled_numbers_are_cut_down(a, factor);
}

} // verus!
