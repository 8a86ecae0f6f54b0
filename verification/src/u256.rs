//! Unsigned 256-bit numbers, as far as cumulative difficulties need them.

use vstd::prelude::*;
use crate::text::{
    digit_values, is_numeral, numeral_digits, numeral_radix, numeral_value, radix_value,
    radix_value_prefix_le, scan_numeral,
};

verus! {

/// 2 to the power 64.
pub open spec fn limb_base() -> nat {
    0x1_0000_0000_0000_0000
}

/// 2 to the power 256.
pub open spec fn u256_bound() -> nat {
    limb_base() * limb_base() * limb_base() * limb_base()
}

/// An unsigned 256-bit number in four 64-bit limbs.
#[derive(Debug, Clone, Copy, PartialEq, Eq, Structural, Hash)]
pub struct U256 {
    w3: u64,
    w2: u64,
    w1: u64,
    w0: u64,
}

impl View for U256 {
    type V = nat;

    /// The number that the limbs denote, `w3` being the most significant.
    closed spec fn view(&self) -> nat {
        self.w0 as nat + self.w1 as nat * limb_base() + self.w2 as nat * limb_base() * limb_base()
            + self.w3 as nat * limb_base() * limb_base() * limb_base()
    }
}

/// The difficulty that a text denotes, if it is a numeral below 2^256.
pub open spec fn difficulty_of_text(s: Seq<char>) -> Option<nat> {
    if is_numeral(s) && numeral_value(s) < u256_bound() {
        Some(numeral_value(s))
    } else {
        None
    }
}

impl U256 {
    /// Zero.
    pub fn zero() -> (r: U256)
        ensures
            r@ == 0,
    {
        U256 { w3: 0, w2: 0, w1: 0, w0: 0 }
    }

    /// The number `v`.
    pub fn from_u64(v: u64) -> (r: U256)
        ensures
            r@ == v,
    {
        U256 { w3: 0, w2: 0, w1: 0, w0: v }
    }

    /// The four 64-bit words of the number, the most significant first.
    pub fn to_words(&self) -> (r: (u64, u64, u64, u64))
        ensures
            self@ == r.3 as nat + r.2 as nat * limb_base() + r.1 as nat * limb_base() * limb_base()
                + r.0 as nat * limb_base() * limb_base() * limb_base(),
    {
        (self.w3, self.w2, self.w1, self.w0)
    }

    /// Every value is below 2^256.
    pub proof fn view_bounded(self)
        ensures
            self@ < u256_bound(),
    {
    }

    /// Two numbers with the same value are the same number.
    pub proof fn view_injective(self, other: U256)
        requires
            self@ == other@,
        ensures
            self == other,
    {
        let b = limb_base();
        let m2 = b * b;
        let m3 = b * m2;
        let x = self.w0 as nat + self.w1 as nat * b + self.w2 as nat * m2 + self.w3 as nat * m3;
        let y = other.w0 as nat + other.w1 as nat * b + other.w2 as nat * m2 + other.w3 as nat
            * m3;
        assert(x == self@) by (nonlinear_arith)
            requires
                m2 == b * b,
                m3 == b * m2,
                x == self.w0 as nat + self.w1 as nat * b + self.w2 as nat * m2 + self.w3 as nat
                    * m3,
                self@ == self.w0 as nat + self.w1 as nat * b + self.w2 as nat * b * b
                    + self.w3 as nat * b * b * b,
        ;
        assert(y == other@) by (nonlinear_arith)
            requires
                m2 == b * b,
                m3 == b * m2,
                y == other.w0 as nat + other.w1 as nat * b + other.w2 as nat * m2
                    + other.w3 as nat * m3,
                other@ == other.w0 as nat + other.w1 as nat * b + other.w2 as nat * b * b
                    + other.w3 as nat * b * b * b,
        ;
        Self::limbs_equal(
            self.w0 as nat,
            self.w1 as nat,
            self.w2 as nat,
            self.w3 as nat,
            other.w0 as nat,
            other.w1 as nat,
            other.w2 as nat,
            other.w3 as nat,
            b,
        );
    }

    /// Numbers written in four digits of one base are equal only where
    /// their digits are.
    proof fn limbs_equal(
        a0: nat,
        a1: nat,
        a2: nat,
        a3: nat,
        c0: nat,
        c1: nat,
        c2: nat,
        c3: nat,
        b: nat,
    )
        requires
            a0 < b && a1 < b && a2 < b && a3 < b,
            c0 < b && c1 < b && c2 < b && c3 < b,
            a0 + a1 * b + a2 * (b * b) + a3 * (b * (b * b)) == c0 + c1 * b + c2 * (b * b) + c3 * (b
                * (b * b)),
        ensures
            a0 == c0 && a1 == c1 && a2 == c2 && a3 == c3,
    {
        let m2 = b * b;
        let m3 = b * m2;
        Self::below(a0, a1, b, b);
        Self::below(c0, c1, b, b);
        Self::below(a0 + a1 * b, a2, m2, b);
        Self::below(c0 + c1 * b, c2, m2, b);
        Self::same_digit(a3, a0 + a1 * b + a2 * m2, c3, c0 + c1 * b + c2 * m2, m3);
        Self::same_digit(a2, a0 + a1 * b, c2, c0 + c1 * b, m2);
        Self::same_digit(a1, a0, c1, c0, b);
    }

    /// A digit below `b` in front of a number below `m` gives a number
    /// below `b * m`.
    proof fn below(low: nat, x: nat, m: nat, b: nat)
        requires
            low < m,
            x < b,
        ensures
            low + x * m < b * m,
    {
        assert(low + x * m < b * m) by (nonlinear_arith)
            requires
                low < m,
                x < b,
        ;
    }

    /// Two numbers `p + x * b` and `q + y * b` with `p, q < b` are equal
    /// only where `x == y` and `p == q`.
    proof fn same_digit(x: nat, p: nat, y: nat, q: nat, b: nat)
        requires
            p < b,
            q < b,
            p + x * b == q + y * b,
        ensures
            x == y,
            p == q,
    {
        assert(x == y) by (nonlinear_arith)
            requires
                p < b,
                q < b,
                p + x * b == q + y * b,
        ;
    }

    /// Whether `self` is strictly greater than `other`.
    pub fn gt(&self, other: &U256) -> (b: bool)
        ensures
            b == (self@ > other@),
    {
        if self.w3 != other.w3 {
            self.w3 > other.w3
        } else if self.w2 != other.w2 {
            self.w2 > other.w2
        } else if self.w1 != other.w1 {
            self.w1 > other.w1
        } else {
            self.w0 > other.w0
        }
    }

    /// `self * m + d`, or `None` where that does not fit 256 bits.
    pub fn mul_add_small(&self, m: u64, d: u64) -> (r: Option<U256>)
        ensures
            r matches Some(v) ==> v@ == self@ * m + d,
            r is Some <==> self@ * m + d < u256_bound(),
    {
        let (r0, c0) = Self::limb_mul_add(self.w0, m, d);
        let (r1, c1) = Self::limb_mul_add(self.w1, m, c0);
        let (r2, c2) = Self::limb_mul_add(self.w2, m, c1);
        let (r3, c3) = Self::limb_mul_add(self.w3, m, c2);
        let v = U256 { w3: r3, w2: r2, w1: r1, w0: r0 };
        proof {
            let b = limb_base();
            assert(self@ * m + d == v@ + c3 as nat * b * b * b * b) by (nonlinear_arith)
                requires
                    b == limb_base(),
                    self@ == self.w0 as nat + self.w1 as nat * b + self.w2 as nat * b * b
                        + self.w3 as nat * b * b * b,
                    v@ == r0 as nat + r1 as nat * b + r2 as nat * b * b + r3 as nat * b * b * b,
                    self.w0 * m + d == r0 + c0 * b,
                    self.w1 * m + c0 == r1 + c1 * b,
                    self.w2 * m + c1 == r2 + c2 * b,
                    self.w3 * m + c2 == r3 + c3 * b,
            ;
            assert(c3 > 0 ==> c3 as nat * b * b * b * b >= b * b * b * b) by (nonlinear_arith)
                requires
                    b > 0,
            ;
        }
        if c3 == 0 {
            Some(v)
        } else {
            None
        }
    }

    /// One limb of a multiplication: the low 64 bits of `a * m + c` and
    /// what is carried into the next limb.
    fn limb_mul_add(a: u64, m: u64, c: u64) -> (r: (u64, u64))
        ensures
            a * m + c == r.0 + r.1 * limb_base(),
    {
        assert(a * m + c < 0x1_0000_0000_0000_0000_0000_0000_0000_0000) by (nonlinear_arith)
            requires
                a <= 0xffff_ffff_ffff_ffff,
                m <= 0xffff_ffff_ffff_ffff,
                c <= 0xffff_ffff_ffff_ffff,
        ;
        let t: u128 = a as u128 * m as u128 + c as u128;
        let lo: u128 = t % 0x1_0000_0000_0000_0000;
        let hi: u128 = t / 0x1_0000_0000_0000_0000;
        (lo as u64, hi as u64)
    }

    /// Reads a difficulty: hexadecimal after `0x` or `0X`, otherwise decimal
    /// with an optional leading `+`. `None` where the text is no such number
    /// or the number does not fit 256 bits.
    pub fn parse(s: &str) -> (r: Option<U256>)
        ensures
            r is Some <==> difficulty_of_text(s@) is Some,
            r matches Some(v) ==> Some(v@) == difficulty_of_text(s@),
    {
        let (radix, values) = match scan_numeral(s) {
            None => {
                return None;
            },
            Some(parts) => parts,
        };
        let ghost digits = numeral_digits(s@);
        let mut value = U256::zero();
        let mut i: usize = 0;
        while i < values.len()
            invariant
                radix as nat == numeral_radix(s@),
                i <= values.len(),
                digits == numeral_digits(s@),
                digit_values(values@, digits),
                value@ == radix_value(digits.take(i as int), radix as nat),
            decreases values.len() - i,
        {
            let ghost t = digits.take(i + 1);
            proof {
                assert(t.drop_last() =~= digits.take(i as int));
                assert(t.last() == digits[i as int]);
            }
            match value.mul_add_small(radix as u64, values[i] as u64) {
                None => {
                    proof {
                        radix_value_prefix_le(digits, radix as nat, i + 1);
                    }
                    return None;
                },
                Some(v) => {
                    value = v;
                },
            }
            i += 1;
        }
        proof {
            assert(digits.take(i as int) =~= digits);
            value.view_bounded();
        }
        Some(value)
    }
}

} // verus!
