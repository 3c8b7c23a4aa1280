//! Floating point numbers as the library holds them: by their bits.
//!
//! The library reads such a number (its sign, whether it is zero, how it
//! compares with another, which integer it equals) but never makes one: what
//! arithmetic, parsing and formatting produce comes from the host, as the
//! numerics module describes.

use vstd::arithmetic::power2::pow2;
use vstd::prelude::*;
use vstd::std_specs::cmp::PartialEqSpecImpl;

verus! {

/// The sign bit of a 64-bit floating point number.
pub const SIGN_BIT: u64 = 0x8000_0000_0000_0000;

/// The bits of positive infinity: every exponent bit set, no fraction bit.
pub const INFINITE: u64 = 0x7ff0_0000_0000_0000;

/// The bit that a normal number's 52 fraction bits leave out: 2 to the 52.
pub const HIDDEN_BIT: u64 = 0x0010_0000_0000_0000;

/// A 64-bit binary floating point number in the IEEE-754 format, held by its
/// bit pattern: one sign bit, eleven exponent bits, 52 fraction bits.
#[derive(Clone, Copy, Debug)]
pub struct Float {
    pub bits: u64,
}

/// `v`, or the nearest 64-bit signed integer where `v` is out of range.
pub open spec fn saturated(v: int) -> i64 {
    if v < i64::MIN {
        i64::MIN
    } else if v > i64::MAX {
        i64::MAX
    } else {
        v as i64
    }
}

impl Float {
    /// The bits without the sign.
    pub open spec fn magnitude(self) -> int {
        (self.bits % SIGN_BIT) as int
    }

    /// Whether the sign bit is set.
    pub open spec fn negative(self) -> bool {
        self.bits >= SIGN_BIT
    }

    /// The eleven exponent bits.
    pub open spec fn exponent(self) -> int {
        self.magnitude() / (HIDDEN_BIT as int)
    }

    /// The 52 fraction bits.
    pub open spec fn fraction(self) -> int {
        self.magnitude() % (HIDDEN_BIT as int)
    }

    /// Whether this is not a number.
    pub open spec fn nan(self) -> bool {
        self.magnitude() > INFINITE
    }

    /// Whether this is zero, of either sign.
    pub open spec fn zero(self) -> bool {
        self.magnitude() == 0
    }

    /// The place of a number in the order of all numbers: numbers that are
    /// not NaN compare as their ranks do, and the two zeros share rank 0.
    pub open spec fn rank(self) -> int {
        if self.negative() {
            -self.magnitude()
        } else {
            self.magnitude()
        }
    }

    /// IEEE-754 equality: no NaN equals anything, and the two zeros are equal.
    pub open spec fn same(self, other: Float) -> bool {
        !self.nan() && !other.nan() && self.rank() == other.rank()
    }

    /// IEEE-754 `<`: false as soon as either side is a NaN.
    pub open spec fn below(self, other: Float) -> bool {
        !self.nan() && !other.nan() && self.rank() < other.rank()
    }

    /// `v` with the sign of this number.
    pub open spec fn signed(self, v: int) -> int {
        if self.negative() {
            -v
        } else {
            v
        }
    }

    /// The integer that this number equals, if it is finite and has no
    /// fractional part. A normal number with exponent bits `e` and fraction
    /// bits `f` has the value (2^52 + f) * 2^(e - 1075); a number with no
    /// exponent bit set is zero or smaller than 1.
    pub open spec fn whole(self) -> Option<int> {
        let m = HIDDEN_BIT + self.fraction();
        let e = self.exponent();
        if self.magnitude() >= INFINITE {
            None
        } else if e == 0 {
            if self.fraction() == 0 {
                Some(0int)
            } else {
                None
            }
        } else if e >= 1075 {
            Some(self.signed(m * pow2((e - 1075) as nat)))
        } else if m % (pow2((1075 - e) as nat) as int) == 0 {
            Some(self.signed(m / (pow2((1075 - e) as nat) as int)))
        } else {
            None
        }
    }

    /// The number with the given bits.
    pub fn from_bits(bits: u64) -> (r: Float)
        ensures
            r.bits == bits,
    {
        Float { bits }
    }

    /// The bits of the number.
    pub fn to_bits(&self) -> (r: u64)
        ensures
            r == self.bits,
    {
        self.bits
    }

    /// Whether this is not a number.
    pub fn is_nan(&self) -> (r: bool)
        ensures
            r == self.nan(),
    {
        self.bits % SIGN_BIT > INFINITE
    }

    /// Whether this is zero, of either sign.
    pub fn is_zero(&self) -> (r: bool)
        ensures
            r == self.zero(),
    {
        self.bits % SIGN_BIT == 0
    }

    /// IEEE-754 `<`.
    pub fn lt(&self, other: &Float) -> (r: bool)
        ensures
            r == self.below(*other),
    {
        if self.is_nan() || other.is_nan() {
            return false;
        }
        let a = self.bits % SIGN_BIT;
        let b = other.bits % SIGN_BIT;
        if self.bits >= SIGN_BIT {
            if other.bits >= SIGN_BIT {
                b < a
            } else {
                a != 0 || b != 0
            }
        } else if other.bits >= SIGN_BIT {
            false
        } else {
            a < b
        }
    }

    /// IEEE-754 `>`.
    pub fn gt(&self, other: &Float) -> (r: bool)
        ensures
            r == other.below(*self),
    {
        other.lt(self)
    }

    /// The integer that this number equals, brought into the range of 64-bit
    /// signed integers; none where the number is infinite, not a number, or
    /// has a fractional part.
    pub fn to_int(&self) -> (r: Option<i64>)
        ensures
            r == match self.whole() {
                Some(v) => Some(saturated(v)),
                None => None,
            },
    {
        let mag = self.bits % SIGN_BIT;
        if mag >= INFINITE {
            return None;
        }
        let e = mag / HIDDEN_BIT;
        let f = mag % HIDDEN_BIT;
        if e == 0 {
            return if f == 0 {
                Some(0)
            } else {
                None
            };
        }
        let m = HIDDEN_BIT + f;
        let negative = self.bits >= SIGN_BIT;
        if e >= 1075 {
            let up = e - 1075;
            if up >= 11 {
                proof {
                    vstd::arithmetic::power2::lemma2_to64();
                    if up > 11 {
                        vstd::arithmetic::power2::lemma_pow2_strictly_increases(11, up as nat);
                    }
                    assert(m * pow2(up as nat) >= 0x8000_0000_0000_0000) by (nonlinear_arith)
                        requires
                            m >= 0x0010_0000_0000_0000,
                            pow2(up as nat) >= 0x800,
                    ;
                }
                Some(
                    if negative {
                        i64::MIN
                    } else {
                        i64::MAX
                    },
                )
            } else {
                let p = power_of_two(up);
                proof {
                    vstd::arithmetic::power2::lemma2_to64();
                    if up < 10 {
                        vstd::arithmetic::power2::lemma_pow2_strictly_increases(up as nat, 10);
                    }
                    assert(m * p < 0x8000_0000_0000_0000) by (nonlinear_arith)
                        requires
                            0 <= m < 0x0020_0000_0000_0000,
                            0 <= p <= 0x400,
                    ;
                }
                let v = m * p;
                Some(
                    if negative {
                        -(v as i64)
                    } else {
                        v as i64
                    },
                )
            }
        } else {
            let down = 1075 - e;
            if down > 52 {
                proof {
                    vstd::arithmetic::power2::lemma2_to64_rest();
                    if down > 53 {
                        vstd::arithmetic::power2::lemma_pow2_strictly_increases(53, down as nat);
                    }
                    vstd::arithmetic::div_mod::lemma_small_mod(m as nat, pow2(down as nat));
                }
                None
            } else {
                let p = power_of_two(down);
                if m % p == 0 {
                    let v = m / p;
                    Some(
                        if negative {
                            -(v as i64)
                        } else {
                            v as i64
                        },
                    )
                } else {
                    None
                }
            }
        }
    }
}

/// 2 to the `k`.
fn power_of_two(k: u64) -> (p: u64)
    requires
        k <= 62,
    ensures
        p == pow2(k as nat),
        p >= 1,
{
    let mut p: u64 = 1;
    let mut i: u64 = 0;
    proof {
        vstd::arithmetic::power2::lemma2_to64();
    }
    while i < k
        invariant
            i <= k <= 62,
            p == pow2(i as nat),
            p >= 1,
        decreases k - i,
    {
        proof {
            vstd::arithmetic::power2::lemma_pow2_unfold((i + 1) as nat);
            vstd::arithmetic::power2::lemma2_to64_rest();
            if i + 1 < 62 {
                vstd::arithmetic::power2::lemma_pow2_strictly_increases((i + 1) as nat, 62);
            }
        }
        p = p * 2;
        i += 1;
    }
    p
}

impl PartialEq for Float {
    /// IEEE-754 equality.
    fn eq(&self, other: &Float) -> (r: bool) {
        if self.is_nan() || other.is_nan() {
            false
        } else if self.bits % SIGN_BIT == 0 {
            other.bits % SIGN_BIT == 0
        } else {
            self.bits == other.bits
        }
    }
}

impl PartialEqSpecImpl for Float {
    open spec fn obeys_eq_spec() -> bool {
        true
    }

    open spec fn eq_spec(&self, other: &Float) -> bool {
        self.same(*other)
    }
}

} // verus!
