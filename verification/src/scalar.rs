//! Floating-point numbers of the IEEE 754 binary64 format, held as bit patterns.
//!
//! The optimizer's arithmetic happens elsewhere; what is decided here only ever
//! classifies and compares numbers.  Both can be done on the bit pattern alone, and
//! this module proves that doing so agrees with the numbers the patterns stand for.

use vstd::arithmetic::mul::*;
use vstd::arithmetic::power2::*;
use vstd::prelude::*;

verus! {

/// The sign bit of a bit pattern.
pub const SIGN_BIT: u64 = 0x8000_0000_0000_0000;

/// The magnitude bits of positive and negative infinity: all exponent bits set, no
/// fraction bit set.  Greater magnitudes are NaNs, smaller ones are finite numbers.
pub const INFINITY_BITS: u64 = 0x7ff0_0000_0000_0000;

/// Two to the power of 52: the weight of the lowest exponent bit, the implicit leading
/// bit of a normal significand, and the magnitude bits of the smallest normal number.
pub const HIDDEN_BIT: u64 = 0x0010_0000_0000_0000;

/// What a bit pattern stands for.
///
/// A finite number is given in units of the smallest positive subnormal number,
/// two to the power of -1074; every finite binary64 number is a whole multiple of it.
/// Both zeros are `Finite(0)`.
pub enum Value {
    /// Not a number.
    Nan,
    /// The given multiple of two to the power of -1074.
    Finite(int),
    /// Positive or negative infinity.
    Infinite { negative: bool },
}

impl Value {
    /// Numerically less; false whenever a NaN is involved.
    pub open spec fn lt(self, other: Value) -> bool {
        match (self, other) {
            (Value::Finite(a), Value::Finite(b)) => a < b,
            (Value::Finite(_), Value::Infinite { negative }) => !negative,
            (Value::Infinite { negative }, Value::Finite(_)) => negative,
            (Value::Infinite { negative: a }, Value::Infinite { negative: b }) => a && !b,
            _ => false,
        }
    }

    /// Numerically equal; false whenever a NaN is involved, true of the two zeros.
    pub open spec fn eq(self, other: Value) -> bool {
        match (self, other) {
            (Value::Finite(a), Value::Finite(b)) => a == b,
            (Value::Infinite { negative: a }, Value::Infinite { negative: b }) => a == b,
            _ => false,
        }
    }

    /// Numerically less or equal.
    pub open spec fn le(self, other: Value) -> bool {
        self.lt(other) || self.eq(other)
    }

    /// Numerically greater.
    pub open spec fn gt(self, other: Value) -> bool {
        other.lt(self)
    }

    /// Numerically greater or equal.
    pub open spec fn ge(self, other: Value) -> bool {
        other.le(self)
    }

    /// The absolute value; a NaN stays a NaN.
    pub open spec fn abs(self) -> Value {
        match self {
            Value::Nan => Value::Nan,
            Value::Finite(a) => Value::Finite(if a < 0 { -a } else { a }),
            Value::Infinite { .. } => Value::Infinite { negative: false },
        }
    }

    /// Neither zero, subnormal, infinite nor NaN: a finite number of magnitude at
    /// least two to the power of -1022.
    pub open spec fn is_normal(self) -> bool {
        match self {
            Value::Finite(a) => a >= HIDDEN_BIT || -a >= HIDDEN_BIT,
            _ => false,
        }
    }

    /// Zero, subnormal or normal.
    pub open spec fn is_finite(self) -> bool {
        self is Finite
    }
}

/// The number that the magnitude bits `m` of a finite pattern stand for, in units of two
/// to the power of -1074.  With exponent field `e` and fraction field `f` that is `f`
/// for a subnormal number or zero (`e == 0`), and `(2^52 + f) * 2^(e - 1)` otherwise.
pub open spec fn magnitude_units(m: u64) -> nat {
    let e = m / HIDDEN_BIT;
    let f = m % HIDDEN_BIT;
    if e == 0 {
        f as nat
    } else {
        ((HIDDEN_BIT + f) * pow2((e - 1) as nat)) as nat
    }
}

/// A binary64 number, known by its bit pattern.
///
/// The type has no `==` of its own: two patterns can differ and still be the same number
/// (the two zeros), or agree and not be equal as numbers (a NaN).  Use [`Scalar::eq`]
/// for the numbers and compare [`Scalar::to_bits`] for the patterns.
#[derive(Clone, Copy, Debug)]
pub struct Scalar {
    pub bits: u64,
}

impl View for Scalar {
    type V = Value;

    open spec fn view(&self) -> Value {
        if self.magnitude() > INFINITY_BITS {
            Value::Nan
        } else if self.magnitude() == INFINITY_BITS {
            Value::Infinite { negative: self.negative() }
        } else if self.negative() {
            Value::Finite(-(magnitude_units(self.magnitude()) as int))
        } else {
            Value::Finite(magnitude_units(self.magnitude()) as int)
        }
    }
}

impl Scalar {
    /// Whether the sign bit is set.
    pub open spec fn negative(self) -> bool {
        self.bits >= SIGN_BIT
    }

    /// The pattern without its sign bit.
    pub open spec fn magnitude(self) -> u64 {
        if self.bits >= SIGN_BIT {
            (self.bits - SIGN_BIT) as u64
        } else {
            self.bits
        }
    }

    /// The place of the pattern on the number line: its magnitude bits, taken negative
    /// if the sign bit is set. Of two numbers the lesser has the lesser place, and
    /// equal numbers have the same place ([`lemma_order_is_that_of_positions`]).
    pub open spec fn position(self) -> int {
        if self.negative() {
            -(self.magnitude() as int)
        } else {
            self.magnitude() as int
        }
    }

    /// The number with the given bit pattern.
    pub fn from_bits(bits: u64) -> (r: Scalar)
        ensures
            r.bits == bits,
    {
        Scalar { bits }
    }

    /// The bit pattern of the number.
    pub fn to_bits(self) -> (r: u64)
        ensures
            r == self.bits,
    {
        self.bits
    }

    /// Positive zero.
    pub fn zero() -> (r: Scalar)
        ensures
            r.bits == 0,
            r@ == Value::Finite(0),
    {
        Scalar { bits: 0 }
    }

    fn magnitude_bits(self) -> (r: u64)
        ensures
            r == self.magnitude(),
    {
        if self.bits >= SIGN_BIT {
            self.bits - SIGN_BIT
        } else {
            self.bits
        }
    }

    /// Whether the sign bit is set, which it can be on a zero and on a NaN too.
    pub fn is_sign_negative(self) -> (r: bool)
        ensures
            r == self.negative(),
    {
        self.bits >= SIGN_BIT
    }

    /// Whether the pattern is a NaN.
    pub fn is_nan(self) -> (r: bool)
        ensures
            r == (self@ is Nan),
    {
        self.magnitude_bits() > INFINITY_BITS
    }

    /// Whether the number is positive or negative infinity.
    pub fn is_infinite(self) -> (r: bool)
        ensures
            r == (self@ is Infinite),
    {
        self.magnitude_bits() == INFINITY_BITS
    }

    /// Whether the number is zero, subnormal or normal.
    pub fn is_finite(self) -> (r: bool)
        ensures
            r == self@.is_finite(),
    {
        self.magnitude_bits() < INFINITY_BITS
    }

    /// Whether the number is neither zero, subnormal, infinite nor NaN.
    pub fn is_normal(self) -> (r: bool)
        ensures
            r == self@.is_normal(),
    {
        let m: u64 = self.magnitude_bits();
        proof {
            if m < INFINITY_BITS {
                lemma_units_of_normal(m);
            }
        }
        HIDDEN_BIT <= m && m < INFINITY_BITS
    }

    /// The absolute value: the same pattern with the sign bit cleared.
    pub fn abs(self) -> (r: Scalar)
        ensures
            r.bits == self.magnitude(),
            r@ == self@.abs(),
    {
        Scalar { bits: self.magnitude_bits() }
    }

    fn place(self) -> (r: i128)
        ensures
            r == self.position(),
    {
        if self.bits >= SIGN_BIT {
            -((self.bits - SIGN_BIT) as i128)
        } else {
            self.bits as i128
        }
    }

    /// `self < other` as numbers.
    pub fn lt(self, other: Scalar) -> (r: bool)
        ensures
            r == self@.lt(other@),
    {
        if self.is_nan() || other.is_nan() {
            return false;
        }
        proof {
            lemma_order_is_that_of_positions(self, other);
        }
        self.place() < other.place()
    }

    /// `self == other` as numbers: false of a NaN and itself, true of the two zeros.
    pub fn eq(self, other: Scalar) -> (r: bool)
        ensures
            r == self@.eq(other@),
    {
        if self.is_nan() || other.is_nan() {
            return false;
        }
        proof {
            lemma_order_is_that_of_positions(self, other);
        }
        self.place() == other.place()
    }

    /// `self <= other` as numbers.
    pub fn le(self, other: Scalar) -> (r: bool)
        ensures
            r == self@.le(other@),
    {
        self.lt(other) || self.eq(other)
    }

    /// `self > other` as numbers.
    pub fn gt(self, other: Scalar) -> (r: bool)
        ensures
            r == self@.gt(other@),
    {
        other.lt(self)
    }

    /// `self >= other` as numbers.
    pub fn ge(self, other: Scalar) -> (r: bool)
        ensures
            r == self@.ge(other@),
    {
        other.le(self)
    }
}

/// A normal magnitude stands for at least `2^52` units, a smaller one for fewer.
proof fn lemma_units_of_normal(m: u64)
    requires
        m < INFINITY_BITS,
    ensures
        magnitude_units(m) >= HIDDEN_BIT <==> m >= HIDDEN_BIT,
{
    let e = m / HIDDEN_BIT;
    let f = m % HIDDEN_BIT;
    if e > 0 {
        let p = pow2((e - 1) as nat) as int;
        lemma_pow2_pos((e - 1) as nat);
        lemma_mul_increases(p, (HIDDEN_BIT + f) as int);
        lemma_mul_is_commutative(p, (HIDDEN_BIT + f) as int);
        assert(magnitude_units(m) == (HIDDEN_BIT + f) * p);
    } else {
        assert(m == f);
    }
}

/// Among the magnitudes of finite numbers, a greater pattern stands for a greater
/// number.
pub proof fn lemma_units_increase(a: u64, b: u64)
    requires
        a < b,
        b < INFINITY_BITS,
    ensures
        magnitude_units(a) < magnitude_units(b),
{
    let ea = a / HIDDEN_BIT;
    let fa = a % HIDDEN_BIT;
    let eb = b / HIDDEN_BIT;
    let fb = b % HIDDEN_BIT;
    assert(ea <= eb);
    if ea == eb {
        assert(fa < fb);
        if ea > 0 {
            lemma_pow2_pos((ea - 1) as nat);
            lemma_mul_strict_inequality(
                (HIDDEN_BIT + fa) as int,
                (HIDDEN_BIT + fb) as int,
                pow2((ea - 1) as nat) as int,
            );
        }
    } else {
        // The number of `b` is at least `2^52 * 2^(eb - 1)`, ...
        let pb = pow2((eb - 1) as nat) as int;
        lemma_pow2_pos((eb - 1) as nat);
        lemma_mul_inequality(HIDDEN_BIT as int, (HIDDEN_BIT + fb) as int, pb);
        if ea == 0 {
            // ... and that of a subnormal `a` is below `2^52`.
            lemma_mul_increases(pb, HIDDEN_BIT as int);
        } else {
            // ... and that of a normal `a` is below `2^53 * 2^(ea - 1) = 2^52 * 2^ea`.
            let pa = pow2((ea - 1) as nat) as int;
            lemma_pow2_pos((ea - 1) as nat);
            lemma_mul_strict_inequality((HIDDEN_BIT + fa) as int, 2 * HIDDEN_BIT, pa);
            lemma_pow2_unfold(ea as nat);
            assert(2 * HIDDEN_BIT * pa == HIDDEN_BIT * (2 * pa)) by (nonlinear_arith);
            if ea < eb - 1 {
                lemma_pow2_strictly_increases(ea as nat, (eb - 1) as nat);
            }
            lemma_mul_inequality(pow2(ea as nat) as int, pb, HIDDEN_BIT as int);
            assert(HIDDEN_BIT * pow2(ea as nat) == pow2(ea as nat) * HIDDEN_BIT)
                by (nonlinear_arith);
            assert(HIDDEN_BIT * pb == pb * HIDDEN_BIT) by (nonlinear_arith);
        }
    }
}

/// Numbers compare as their places on the number line do. So, of the patterns that are
/// no NaN, those with the sign bit clear are ordered as unsigned integers are, and
/// those with the sign bit set the other way round.
pub proof fn lemma_order_is_that_of_positions(a: Scalar, b: Scalar)
    requires
        !(a@ is Nan),
        !(b@ is Nan),
    ensures
        a@.lt(b@) <==> a.position() < b.position(),
        a@.eq(b@) <==> a.position() == b.position(),
        a@.le(b@) <==> a.position() <= b.position(),
{
    let ma = a.magnitude();
    let mb = b.magnitude();
    if ma < INFINITY_BITS && mb < INFINITY_BITS {
        if ma < mb {
            lemma_units_increase(ma, mb);
        }
        if mb < ma {
            lemma_units_increase(mb, ma);
        }
        if 0 < ma {
            lemma_units_increase(0, ma);
        }
        if 0 < mb {
            lemma_units_increase(0, mb);
        }
    }
}

/// On the numbers, which are all values but the NaN, less-than is a strict total order,
/// and equality is what is left where neither of two numbers is less.
pub proof fn lemma_numbers_are_ordered(a: Value, b: Value, c: Value)
    requires
        !(a is Nan),
        !(b is Nan),
        !(c is Nan),
    ensures
        !a.lt(a),
        a.eq(a),
        a.lt(b) && b.lt(c) ==> a.lt(c),
        a.lt(b) || b.lt(a) || a.eq(b),
        !(a.lt(b) && b.lt(a)),
        a.eq(b) <==> !a.lt(b) && !b.lt(a),
        a.le(b) <==> !b.lt(a),
{
}

/// The pattern with the exponent field `e` and no fraction bit set stands for the power
/// of two `2^(e - 1023)`, which is `2^(e + 51)` units. So `0x3ff0_0000_0000_0000`, with
/// the exponent field 1023, is one.
pub proof fn lemma_power_of_two(e: u64)
    requires
        1 <= e <= 2046,
    ensures
        (Scalar { bits: (e * HIDDEN_BIT) as u64 })@ == Value::Finite(pow2((e - 1) as nat + 52) as int),
{
    let bits = (e * HIDDEN_BIT) as u64;
    assert(e * HIDDEN_BIT < INFINITY_BITS) by (nonlinear_arith)
        requires
            e <= 2046,
    ;
    assert(bits / HIDDEN_BIT == e && bits % HIDDEN_BIT == 0) by (nonlinear_arith)
        requires
            bits == e * HIDDEN_BIT,
    ;
    lemma2_to64_rest();
    lemma_pow2_adds(52, (e - 1) as nat);
    lemma_pow2_adds((e - 1) as nat, 52);
}

} // verus!
