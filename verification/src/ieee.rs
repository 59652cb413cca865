//! IEEE-754 binary64 values, carried as their bit patterns.

use vstd::prelude::*;
use vstd::arithmetic::power2::*;

verus! {

/// The sign bit of a double.
pub const SIGN_BIT: u64 = 0x8000_0000_0000_0000;

/// The magnitude bits of positive infinity; every larger magnitude is a NaN.
pub const INFINITY_BITS: u64 = 0x7FF0_0000_0000_0000;

/// The bits of `0.0`.
pub const ZERO_BITS: u64 = 0;

/// The bits of `1.0`.
pub const ONE_BITS: u64 = 0x3FF0_0000_0000_0000;

/// The bits of `-1.0`.
pub const MINUS_ONE_BITS: u64 = 0xBFF0_0000_0000_0000;

/// Two to the power 52: the number of values of the fraction bits.
pub const FRACTION_RANGE: u64 = 0x10_0000_0000_0000;

/// Two to the power 53: the number of fractions that [`Double::from_unit_fraction`] takes.
pub const UNIT_FRACTIONS: u64 = 0x20_0000_0000_0000;

/// A double, held as its 64 bits: one sign bit, eleven exponent bits and
/// fifty-two fraction bits.
///
/// The derived `==` compares representations: it tells `0.0` from `-0.0`
/// and finds a NaN equal to itself. Numeric comparison is [`Double::lt`] and
/// its siblings.
#[derive(Clone, Copy, Debug, PartialEq, Eq, Structural)]
pub struct Double {
    pub bits: u64,
}

/// The double `0.0`.
pub open spec fn zero() -> Double {
    Double { bits: ZERO_BITS }
}

/// The double `1.0`.
pub open spec fn one() -> Double {
    Double { bits: ONE_BITS }
}

/// The double `-1.0`.
pub open spec fn minus_one() -> Double {
    Double { bits: MINUS_ONE_BITS }
}

impl Double {
    /// The bits below the sign bit.
    pub open spec fn magnitude(self) -> u64 {
        if self.bits >= SIGN_BIT {
            (self.bits - SIGN_BIT) as u64
        } else {
            self.bits
        }
    }

    /// Whether the sign bit is set.
    pub open spec fn sign_set(self) -> bool {
        self.bits >= SIGN_BIT
    }

    /// Whether the bits stand for no number: a magnitude above that of
    /// infinity.
    pub open spec fn is_nan_spec(self) -> bool {
        self.magnitude() > INFINITY_BITS
    }

    /// Whether the bits stand for a number that is not infinite: a
    /// magnitude below that of infinity.
    pub open spec fn is_finite_spec(self) -> bool {
        self.magnitude() < INFINITY_BITS
    }

    /// An integer that orders the values that are no NaN as their numeric
    /// values are ordered: both zeros have key 0, and among the values of one
    /// sign a larger magnitude lies further from zero.
    pub open spec fn key(self) -> int {
        if self.sign_set() {
            -(self.magnitude() as int)
        } else {
            self.magnitude() as int
        }
    }

    /// `self < other` as IEEE-754 defines it: false when either is a NaN.
    pub open spec fn lt_spec(self, other: Double) -> bool {
        !self.is_nan_spec() && !other.is_nan_spec() && self.key() < other.key()
    }

    /// `self <= other` as IEEE-754 defines it: false when either is a NaN.
    pub open spec fn le_spec(self, other: Double) -> bool {
        !self.is_nan_spec() && !other.is_nan_spec() && self.key() <= other.key()
    }

    /// `self > other` as IEEE-754 defines it: false when either is a NaN.
    pub open spec fn gt_spec(self, other: Double) -> bool {
        other.lt_spec(self)
    }

    /// `self >= other` as IEEE-754 defines it: false when either is a NaN.
    pub open spec fn ge_spec(self, other: Double) -> bool {
        other.le_spec(self)
    }

    /// The eleven exponent bits.
    pub open spec fn exponent_field(self) -> nat {
        (self.magnitude() / FRACTION_RANGE) as nat
    }

    /// The fifty-two fraction bits.
    pub open spec fn fraction_field(self) -> nat {
        (self.magnitude() % FRACTION_RANGE) as nat
    }

    /// The significand: the fraction bits, with the hidden bit above them
    /// unless the exponent bits are 0.
    pub open spec fn significand(self) -> nat {
        if self.exponent_field() == 0 {
            self.fraction_field()
        } else {
            FRACTION_RANGE as nat + self.fraction_field()
        }
    }

    /// The power of two by which the significand is scaled, counted from
    /// the smallest: the exponent bits less one, and 0 where they are 0.
    pub open spec fn shift(self) -> nat {
        if self.exponent_field() == 0 {
            0
        } else {
            (self.exponent_field() - 1) as nat
        }
    }

    /// The absolute value of a finite double, as a multiple of the smallest
    /// positive double, 2^-1074: with exponent bits 0 it is the fraction
    /// bits, otherwise the fraction bits with the hidden bit above them,
    /// doubled once for each unit of the exponent bits above one.
    pub open spec fn scaled_magnitude(self) -> nat {
        self.significand() * pow2(self.shift())
    }

    /// The double with the given bits.
    pub fn from_bits(bits: u64) -> (r: Double)
        ensures
            r.bits == bits,
    {
        Double { bits }
    }

    /// The bits of the double.
    pub fn to_bits(self) -> (r: u64)
        ensures
            r == self.bits,
    {
        self.bits
    }

    fn magnitude_bits(self) -> (r: u64)
        ensures
            r == self.magnitude(),
    {
        if self.bits >= SIGN_BIT {
            self.bits - SIGN_BIT
        } else {
            self.bits
        }
    }

    /// Whether the double is a NaN.
    pub fn is_nan(self) -> (r: bool)
        ensures
            r == self.is_nan_spec(),
    {
        self.magnitude_bits() > INFINITY_BITS
    }

    /// Whether the double is neither a NaN nor infinite.
    pub fn is_finite(self) -> (r: bool)
        ensures
            r == self.is_finite_spec(),
    {
        self.magnitude_bits() < INFINITY_BITS
    }

    /// The double `m / 2^53`, which every `m` below 2^53 gives exactly: a
    /// value in the half-open unit interval.
    pub fn from_unit_fraction(m: u64) -> (r: Double)
        requires
            m < UNIT_FRACTIONS,
        ensures
            r.is_finite_spec(),
            !r.sign_set(),
            r.scaled_magnitude() == m * pow2(1021),
            (m == 0) == (r.bits == ZERO_BITS),
            m > 0 ==> r.gt_spec(zero()),
            r.bits < ONE_BITS,
    {
        if m == 0 {
            proof {
                let z = Double { bits: 0 };
                assert(z.significand() == 0);
                assert(z.significand() * pow2(z.shift()) == 0) by (nonlinear_arith)
                    requires
                        z.significand() == 0,
                ;
                assert(m * pow2(1021) == 0) by (nonlinear_arith)
                    requires
                        m == 0,
                ;
            }
            return Double { bits: 0 };
        }
        let mut n: u64 = m;
        let mut e: u64 = 1022;
        proof {
            lemma2_to64();
            lemma2_to64_rest();
            assert(pow2(0) == 1);
            assert(m * 1 == m);
        }
        while n < FRACTION_RANGE
            invariant
                1 <= m < UNIT_FRACTIONS,
                0 < n < UNIT_FRACTIONS,
                e <= 1022,
                n == m * pow2((1022 - e) as nat),
                pow2(52) == FRACTION_RANGE,
            decreases e,
        {
            proof {
                let k: nat = (1022 - e) as nat;
                if k >= 52 {
                    if k > 52 {
                        lemma_pow2_strictly_increases(52, k);
                    }
                    assert(m * pow2(k) >= pow2(k)) by (nonlinear_arith)
                        requires
                            m >= 1,
                    ;
                    assert(false);
                }
                lemma_pow2_unfold(k + 1);
                assert(2 * (m * pow2(k)) == m * (2 * pow2(k))) by (nonlinear_arith);
            }
            n = n * 2;
            e = e - 1;
        }
        let bits: u64 = e * FRACTION_RANGE + (n - FRACTION_RANGE);
        let r = Double { bits };
        proof {
            let k: nat = (1022 - e) as nat;
            let f: int = n - FRACTION_RANGE;
            assert(e >= 970) by {
                lemma2_to64_rest();
                if k >= 53 {
                    if k > 53 {
                        lemma_pow2_strictly_increases(53, k);
                    }
                    assert(m * pow2(k) >= pow2(k)) by (nonlinear_arith)
                        requires
                            m >= 1,
                    ;
                }
            }
            assert(bits / FRACTION_RANGE == e && bits % FRACTION_RANGE == f) by {
                vstd::arithmetic::div_mod::lemma_fundamental_div_mod_converse(
                    bits as int,
                    FRACTION_RANGE as int,
                    e as int,
                    f,
                );
            }
            assert(r.magnitude() == bits);
            assert(r.exponent_field() == e);
            assert(r.fraction_field() == f);
            lemma_pow2_adds(k, (e - 1) as nat);
            assert((m * pow2(k)) * pow2((e - 1) as nat) == m * (pow2(k) * pow2((e - 1) as nat)))
                by (nonlinear_arith);
        }
        r
    }

    /// Significand and shift of a finite double.
    fn parts(self) -> (r: (u64, u64))
        requires
            self.is_finite_spec(),
        ensures
            r.0 == self.significand(),
            r.1 == self.shift(),
            r.0 < UNIT_FRACTIONS,
            r.1 <= 2045,
            self.exponent_field() != 0 ==> r.0 >= FRACTION_RANGE,
    {
        let m: u64 = self.magnitude_bits();
        let e: u64 = m / FRACTION_RANGE;
        let f: u64 = m % FRACTION_RANGE;
        if e == 0 {
            (f, 0)
        } else {
            (FRACTION_RANGE + f, e - 1)
        }
    }

    /// Whether `factor` times the absolute value of `self` is above the
    /// absolute value of `other`, decided exactly, without rounding.
    pub fn times_exceeds(self, factor: u64, other: Double) -> (r: bool)
        requires
            self.is_finite_spec(),
            other.is_finite_spec(),
            factor <= 1024,
        ensures
            r == (factor * self.scaled_magnitude() > other.scaled_magnitude()),
    {
        let (ma, ea) = self.parts();
        let (mb, eb) = other.parts();
        assert(factor * ma < 0x8000_0000_0000_0000) by (nonlinear_arith)
            requires
                factor <= 1024,
                ma < 0x20_0000_0000_0000,
        ;
        let lhs: u128 = (factor as u128) * (ma as u128);
        let rhs: u128 = mb as u128;
        proof {
            lemma_pow2_pos(ea as nat);
            lemma_pow2_pos(eb as nat);
            assert(factor * (ma * pow2(ea as nat)) == lhs * pow2(ea as nat)) by (nonlinear_arith)
                requires
                    lhs == factor * ma,
            ;
        }
        if lhs == 0 {
            assert(lhs * pow2(ea as nat) == 0) by (nonlinear_arith)
                requires
                    lhs == 0,
            ;
            return false;
        }
        if ea >= eb {
            let d: u64 = ea - eb;
            proof {
                lemma_pow2_adds(d as nat, eb as nat);
                lemma_pow2_pos(d as nat);
            }
            if d >= 64 {
                proof {
                    lemma2_to64();
                    if d > 64 {
                        lemma_pow2_strictly_increases(64, d as nat);
                    }
                    assert(lhs * (pow2(d as nat) * pow2(eb as nat)) > rhs * pow2(eb as nat))
                        by (nonlinear_arith)
                        requires
                            lhs >= 1,
                            pow2(d as nat) > rhs,
                            pow2(eb as nat) > 0,
                    ;
                }
                true
            } else {
                let scale: u128 = power_of_two(d);
                assert(lhs * scale < 0x8000_0000_0000_0000_0000_0000_0000_0000) by (nonlinear_arith)
                    requires
                        lhs < 0x8000_0000_0000_0000,
                        scale < 0x1_0000_0000_0000_0000,
                ;
                let scaled: u128 = lhs * scale;
                proof {
                    let q = pow2(eb as nat);
                    assert((scaled > rhs) == (lhs * (scale * q) > rhs * q)) by (nonlinear_arith)
                        requires
                            scaled == lhs * scale,
                            q > 0,
                    ;
                }
                scaled > rhs
            }
        } else {
            let d: u64 = eb - ea;
            proof {
                lemma_pow2_adds(d as nat, ea as nat);
                lemma_pow2_pos(d as nat);
            }
            if d >= 64 {
                proof {
                    lemma2_to64();
                    if d > 64 {
                        lemma_pow2_strictly_increases(64, d as nat);
                    }
                    assert(lhs * pow2(ea as nat) <= rhs * (pow2(d as nat) * pow2(ea as nat)))
                        by (nonlinear_arith)
                        requires
                            lhs < pow2(d as nat),
                            rhs >= 1,
                            pow2(ea as nat) > 0,
                    ;
                }
                false
            } else {
                let scale: u128 = power_of_two(d);
                assert(rhs * scale < 0x8000_0000_0000_0000_0000_0000_0000_0000) by (nonlinear_arith)
                    requires
                        rhs < 0x8000_0000_0000_0000,
                        scale < 0x1_0000_0000_0000_0000,
                ;
                let scaled: u128 = rhs * scale;
                proof {
                    let q = pow2(ea as nat);
                    assert((lhs > scaled) == (lhs * q > rhs * (scale * q))) by (nonlinear_arith)
                        requires
                            scaled == rhs * scale,
                            q > 0,
                    ;
                }
                lhs > scaled
            }
        }
    }

    /// Numeric `<`.
    pub fn lt(self, other: Double) -> (r: bool)
        ensures
            r == self.lt_spec(other),
    {
        if self.is_nan() || other.is_nan() {
            return false;
        }
        let a: u64 = self.magnitude_bits();
        let b: u64 = other.magnitude_bits();
        if self.bits >= SIGN_BIT {
            if other.bits >= SIGN_BIT {
                a > b
            } else {
                a > 0 || b > 0
            }
        } else {
            if other.bits >= SIGN_BIT {
                false
            } else {
                a < b
            }
        }
    }

    /// Numeric `<=`.
    pub fn le(self, other: Double) -> (r: bool)
        ensures
            r == self.le_spec(other),
    {
        if self.is_nan() || other.is_nan() {
            return false;
        }
        let a: u64 = self.magnitude_bits();
        let b: u64 = other.magnitude_bits();
        if self.bits >= SIGN_BIT {
            if other.bits >= SIGN_BIT {
                a >= b
            } else {
                true
            }
        } else {
            if other.bits >= SIGN_BIT {
                a == 0 && b == 0
            } else {
                a <= b
            }
        }
    }

    /// Numeric `>`.
    pub fn gt(self, other: Double) -> (r: bool)
        ensures
            r == self.gt_spec(other),
    {
        other.lt(self)
    }

    /// Numeric `>=`.
    pub fn ge(self, other: Double) -> (r: bool)
        ensures
            r == self.ge_spec(other),
    {
        other.le(self)
    }
}

/// The larger of a value and a floor: the value where it is above the
/// floor, and the floor otherwise, also where the value is a NaN.
pub open spec fn floor_at_spec(x: Double, floor: Double) -> Double {
    if x.gt_spec(floor) {
        x
    } else {
        floor
    }
}

/// Raises a value to a floor: the value where it is above the floor, and
/// the floor otherwise, also where the value is a NaN.
pub fn floor_at(x: Double, floor: Double) -> (r: Double)
    ensures
        r == floor_at_spec(x, floor),
        !floor.is_nan_spec() ==> r.ge_spec(floor),
{
    if x.gt(floor) {
        x
    } else {
        floor
    }
}

/// Cuts a value off at zero: the value where it is above zero, and zero
/// otherwise, also where the value is a NaN. What comes out is never below
/// zero and never a NaN.
pub fn floor_at_zero(x: Double) -> (r: Double)
    ensures
        r == if x.gt_spec(zero()) {
            x
        } else {
            zero()
        },
        r == floor_at_spec(x, zero()),
        r.ge_spec(zero()),
{
    floor_at(x, Double { bits: ZERO_BITS })
}

/// Two to the power 116: above every product of two significands and a
/// factor of at most 1024.
pub const PRODUCT_RANGE: u128 = 0x10_0000_0000_0000_0000_0000_0000_0000;

proof fn lemma_product_range()
    ensures
        pow2(116) == PRODUCT_RANGE,
        pow2(64) == 0x1_0000_0000_0000_0000,
{
    lemma2_to64();
    lemma2_to64_rest();
    lemma_pow2_adds(64, 52);
    assert(0x1_0000_0000_0000_0000 * 0x10_0000_0000_0000 == PRODUCT_RANGE) by (nonlinear_arith);
}

/// Two to the power `d`.
fn power_of_two(d: u64) -> (r: u128)
    requires
        d <= 116,
    ensures
        r == pow2(d as nat),
        r <= PRODUCT_RANGE,
        d < 64 ==> r < 0x1_0000_0000_0000_0000,
{
    let mut r: u128 = 1;
    let mut i: u64 = 0;
    proof {
        lemma2_to64();
        lemma_product_range();
    }
    while i < d
        invariant
            i <= d <= 116,
            r == pow2(i as nat),
            pow2(116) == PRODUCT_RANGE,
        decreases d - i,
    {
        proof {
            lemma_pow2_unfold((i + 1) as nat);
            if i + 1 < 116 {
                lemma_pow2_strictly_increases((i + 1) as nat, 116);
            }
        }
        r = r * 2;
        i = i + 1;
    }
    proof {
        lemma_product_range();
        if d < 116 {
            lemma_pow2_strictly_increases(d as nat, 116);
        }
        if d < 64 {
            lemma_pow2_strictly_increases(d as nat, 64);
        }
    }
    r
}

/// Whether `l` times two to the power `p` is at most `r` times two to the
/// power `q`.
fn scaled_at_most(l: u128, p: u64, r: u128, q: u64) -> (res: bool)
    requires
        l < PRODUCT_RANGE,
        r < PRODUCT_RANGE,
        p <= 4090,
        q <= 4090,
    ensures
        res == (l * pow2(p as nat) <= r * pow2(q as nat)),
{
    proof {
        lemma_product_range();
        lemma_pow2_pos(p as nat);
        lemma_pow2_pos(q as nat);
    }
    if p >= q {
        let d: u64 = p - q;
        proof {
            lemma_pow2_adds(d as nat, q as nat);
            lemma_pow2_pos(d as nat);
            assert((l * pow2(p as nat) <= r * pow2(q as nat)) == (l * pow2(d as nat) <= r))
                by (nonlinear_arith)
                requires
                    pow2(p as nat) == pow2(d as nat) * pow2(q as nat),
                    pow2(q as nat) > 0,
            ;
        }
        if l == 0 {
            assert(l * pow2(d as nat) == 0) by (nonlinear_arith)
                requires
                    l == 0,
            ;
            return true;
        }
        if d >= 116 {
            proof {
                if d > 116 {
                    lemma_pow2_strictly_increases(116, d as nat);
                }
                assert(l * pow2(d as nat) >= pow2(d as nat)) by (nonlinear_arith)
                    requires
                        l >= 1,
                ;
            }
            return false;
        }
        let room: u128 = power_of_two(116 - d);
        let scale: u128 = power_of_two(d);
        proof {
            lemma_pow2_adds((116 - d) as nat, d as nat);
        }
        if l >= room {
            assert(l * scale >= PRODUCT_RANGE) by (nonlinear_arith)
                requires
                    l >= room,
                    room * scale == PRODUCT_RANGE,
                    scale >= 0,
            ;
            return false;
        }
        assert(l * scale < PRODUCT_RANGE) by (nonlinear_arith)
            requires
                l < room,
                room * scale == PRODUCT_RANGE,
                scale > 0,
        ;
        l * scale <= r
    } else {
        let d: u64 = q - p;
        proof {
            lemma_pow2_adds(d as nat, p as nat);
            lemma_pow2_pos(d as nat);
            assert((l * pow2(p as nat) <= r * pow2(q as nat)) == (l <= r * pow2(d as nat)))
                by (nonlinear_arith)
                requires
                    pow2(q as nat) == pow2(d as nat) * pow2(p as nat),
                    pow2(p as nat) > 0,
            ;
        }
        if r == 0 {
            assert(r * pow2(d as nat) == 0) by (nonlinear_arith)
                requires
                    r == 0,
            ;
            return l == 0;
        }
        if d >= 116 {
            proof {
                if d > 116 {
                    lemma_pow2_strictly_increases(116, d as nat);
                }
                assert(r * pow2(d as nat) >= pow2(d as nat)) by (nonlinear_arith)
                    requires
                        r >= 1,
                ;
            }
            return true;
        }
        let room: u128 = power_of_two(116 - d);
        let scale: u128 = power_of_two(d);
        proof {
            lemma_pow2_adds((116 - d) as nat, d as nat);
        }
        if r >= room {
            assert(r * scale >= PRODUCT_RANGE) by (nonlinear_arith)
                requires
                    r >= room,
                    room * scale == PRODUCT_RANGE,
                    scale >= 0,
            ;
            return true;
        }
        assert(r * scale < PRODUCT_RANGE) by (nonlinear_arith)
            requires
                r < room,
                room * scale == PRODUCT_RANGE,
                scale > 0,
        ;
        l <= r * scale
    }
}

/// Whether `factor` times the product of the absolute values of `a` and
/// `b` is at most the product of the absolute values of `c` and `d`,
/// decided exactly, without rounding.
pub fn product_at_most(factor: u64, a: Double, b: Double, c: Double, d: Double) -> (r: bool)
    requires
        a.is_finite_spec(),
        b.is_finite_spec(),
        c.is_finite_spec(),
        d.is_finite_spec(),
        factor <= 1024,
    ensures
        r == (factor * a.scaled_magnitude() * b.scaled_magnitude() <= c.scaled_magnitude()
            * d.scaled_magnitude()),
{
    let (ma, ea) = a.parts();
    let (mb, eb) = b.parts();
    let (mc, ec) = c.parts();
    let (md, ed) = d.parts();
    assert(ma * mb < 0x400_0000_0000_0000_0000_0000_0000) by (nonlinear_arith)
        requires
            ma < 0x20_0000_0000_0000,
            mb < 0x20_0000_0000_0000,
    ;
    assert(mc * md < 0x400_0000_0000_0000_0000_0000_0000) by (nonlinear_arith)
        requires
            mc < 0x20_0000_0000_0000,
            md < 0x20_0000_0000_0000,
    ;
    let ab: u128 = (ma as u128) * (mb as u128);
    assert(factor * ab < PRODUCT_RANGE) by (nonlinear_arith)
        requires
            factor <= 1024,
            ab < 0x400_0000_0000_0000_0000_0000_0000,
    ;
    let l: u128 = (factor as u128) * ab;
    let r: u128 = (mc as u128) * (md as u128);
    proof {
        lemma_pow2_adds(ea as nat, eb as nat);
        lemma_pow2_adds(ec as nat, ed as nat);
        let pa = pow2(ea as nat);
        let pb = pow2(eb as nat);
        let pc = pow2(ec as nat);
        let pd = pow2(ed as nat);
        assert(factor * (ma * pa) * (mb * pb) == l * (pa * pb)) by (nonlinear_arith)
            requires
                l == factor * (ma * mb),
        ;
        assert((mc * pc) * (md * pd) == r * (pc * pd)) by (nonlinear_arith)
            requires
                r == mc * md,
        ;
    }
    scaled_at_most(l, ea + eb, r, ec + ed)
}

proof fn lemma_scaled_increases(a: Double, b: Double)
    requires
        a.magnitude() < b.magnitude(),
    ensures
        a.scaled_magnitude() < b.scaled_magnitude(),
{
    let range: int = FRACTION_RANGE as int;
    let ea = a.exponent_field();
    let fa = a.fraction_field();
    let eb = b.exponent_field();
    let fb = b.fraction_field();
    let p = pow2(a.shift());
    let q = pow2(b.shift());
    vstd::arithmetic::div_mod::lemma_fundamental_div_mod(a.magnitude() as int, range);
    vstd::arithmetic::div_mod::lemma_fundamental_div_mod(b.magnitude() as int, range);
    lemma_pow2_pos(a.shift());
    lemma_pow2_pos(b.shift());
    assert(ea <= eb) by (nonlinear_arith)
        requires
            range * ea + fa < range * eb + fb,
            0 <= fa < range,
            0 <= fb < range,
    ;
    if ea == eb {
        assert(a.significand() * p < b.significand() * p) by (nonlinear_arith)
            requires
                a.significand() < b.significand(),
                p > 0,
        ;
    } else {
        assert(range * 1 <= b.significand() * q) by (nonlinear_arith)
            requires
                q >= 1,
                b.significand() >= range,
                range > 0,
        ;
        if ea == 0 {
            assert(pow2(0) == 1) by {
                lemma2_to64();
            }
            assert(a.significand() * 1 == a.significand());
        } else {
            lemma_pow2_unfold(ea);
            if ea < eb - 1 {
                lemma_pow2_strictly_increases(ea, (eb - 1) as nat);
            }
            assert(a.significand() * p < range * q) by (nonlinear_arith)
                requires
                    0 <= a.significand() < 2 * range,
                    p > 0,
                    2 * p <= q,
            ;
            assert(range * q <= b.significand() * q) by (nonlinear_arith)
                requires
                    b.significand() >= range,
                    q >= 1,
            ;
        }
    }
}

/// The magnitude bits order finite doubles by absolute value: of two bit
/// patterns the one with the larger magnitude bits stands for the larger
/// absolute value, and equal absolute values have equal magnitude bits.
pub proof fn lemma_magnitude_orders_values(a: Double, b: Double)
    ensures
        (a.magnitude() < b.magnitude()) == (a.scaled_magnitude() < b.scaled_magnitude()),
        (a.magnitude() == b.magnitude()) == (a.scaled_magnitude() == b.scaled_magnitude()),
{
    if a.magnitude() < b.magnitude() {
        lemma_scaled_increases(a, b);
    } else if b.magnitude() < a.magnitude() {
        lemma_scaled_increases(b, a);
    }
}

} // verus!
