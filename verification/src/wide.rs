//! Unsigned numbers of 256 bits, wide enough to add up the squares of a
//! whole window of samples without rounding.

use vstd::prelude::*;

verus! {

/// Two to the power of 64.
pub const HALF_LIMB: u128 = 0x1_0000_0000_0000_0000;

/// Two to the power of 128: the weight of the high limb.
pub open spec fn limb() -> nat {
    0x1_0000_0000_0000_0000_0000_0000_0000_0000nat
}

/// A number below two to the power of 256, held as two limbs of 128 bits.
#[derive(Clone, Copy, Debug)]
pub struct Wide {
    high: u128,
    low: u128,
}

impl View for Wide {
    type V = nat;

    /// The number that the two limbs stand for.
    open spec fn view(&self) -> nat {
        self.spec_high() as nat * limb() + self.spec_low() as nat
    }
}

impl Wide {
    /// The high limb.
    pub closed spec fn spec_high(&self) -> u128 {
        self.high
    }

    /// The low limb.
    pub closed spec fn spec_low(&self) -> u128 {
        self.low
    }

    /// The high limb: the number divided by two to the power of 128.
    #[verifier::when_used_as_spec(spec_high)]
    pub fn high(&self) -> (half: u128)
        ensures
            half == self.spec_high(),
            half == self@ / limb(),
    {
        proof {
            lemma_limbs(self.high as nat, self.low as nat);
        }
        self.high
    }

    /// The low limb: the number modulo two to the power of 128.
    #[verifier::when_used_as_spec(spec_low)]
    pub fn low(&self) -> (half: u128)
        ensures
            half == self.spec_low(),
            half == self@ % limb(),
    {
        proof {
            lemma_limbs(self.high as nat, self.low as nat);
        }
        self.low
    }

    /// Zero.
    pub fn zero() -> (wide: Wide)
        ensures
            wide@ == 0,
    {
        Wide { high: 0, low: 0 }
    }

    /// `value`, widened.
    pub fn from_u128(value: u128) -> (wide: Wide)
        ensures
            wide@ == value,
    {
        Wide { high: 0, low: value }
    }

    /// `value` times `value`. The product of two numbers of 128 bits always
    /// fits.
    pub fn square(value: u128) -> (wide: Wide)
        ensures
            wide@ == value as nat * value as nat,
    {
        let upper: u128 = value / HALF_LIMB;
        let lower: u128 = value % HALF_LIMB;
        proof {
            lemma_square_parts(upper as nat, lower as nat);
        }
        let bottom: u128 = lower * lower;
        let cross: u128 = upper * lower;
        let top: u128 = upper * upper;
        // Twice the cross product, shifted by 64 bits, falls on both limbs.
        let cross_high: u128 = cross / 0x8000_0000_0000_0000;
        let cross_low: u128 = (cross % 0x8000_0000_0000_0000) * 0x2_0000_0000_0000_0000;
        let low: u128 = bottom.wrapping_add(cross_low);
        let carry: u128 = if low < bottom {
            1
        } else {
            0
        };
        let high: u128 = top + cross_high + carry;
        Wide { high, low }
    }

    /// The sum of `self` and `other`.
    pub fn plus(self, other: Wide) -> (sum: Wide)
        requires
            self@ + other@ < limb() * limb(),
        ensures
            sum@ == self@ + other@,
    {
        let low: u128 = self.low.wrapping_add(other.low);
        let carry: u128 = if low < self.low {
            1
        } else {
            0
        };
        proof {
            lemma_high_fits((self.high + other.high + carry) as nat, low as nat);
        }
        let high: u128 = self.high + other.high + carry;
        Wide { high, low }
    }

    /// `self` less `other`.
    pub fn minus(self, other: Wide) -> (difference: Wide)
        requires
            other@ <= self@,
        ensures
            difference@ == self@ - other@,
    {
        let low: u128 = self.low.wrapping_sub(other.low);
        let borrow: u128 = if self.low < other.low {
            1
        } else {
            0
        };
        proof {
            lemma_high_order(self.high as nat, self.low as nat, other.high as nat, other.low as nat);
        }
        let high: u128 = self.high - other.high - borrow;
        Wide { high, low }
    }
}

/// The limbs are the quotient and the remainder by the limb's weight.
proof fn lemma_limbs(high: nat, low: nat)
    requires
        low < limb(),
    ensures
        (high * limb() + low) / limb() == high,
        (high * limb() + low) % limb() == low,
{
    vstd::arithmetic::div_mod::lemma_fundamental_div_mod_converse(
        (high * limb() + low) as int,
        limb() as int,
        high as int,
        low as int,
    );
}

/// A number below the square of the limb's weight has a high limb below that weight.
proof fn lemma_high_fits(high: nat, low: nat)
    requires
        high * limb() + low < limb() * limb(),
    ensures
        high < limb(),
{
    assert(high < limb()) by (nonlinear_arith)
        requires
            high * limb() + low < limb() * limb(),
    ;
}

/// Of two numbers in limbs, the smaller has the smaller high limb, or the
/// same one and the smaller low limb.
proof fn lemma_high_order(high: nat, low: nat, other_high: nat, other_low: nat)
    requires
        low < limb(),
        other_low < limb(),
        other_high * limb() + other_low <= high * limb() + low,
    ensures
        other_high <= high,
        other_high == high ==> other_low <= low,
{
    assert(other_high <= high) by (nonlinear_arith)
        requires
            low < limb(),
            other_low < limb(),
            other_high * limb() + other_low <= high * limb() + low,
    ;
}

/// How the square of a number splits over its two halves of 64 bits, and
/// that each partial product fits a limb.
proof fn lemma_square_parts(upper: nat, lower: nat)
    requires
        upper < HALF_LIMB,
        lower < HALF_LIMB,
    ensures
        lower * lower < limb(),
        upper * lower < limb(),
        upper * upper < limb(),
        (upper * HALF_LIMB + lower) * (upper * HALF_LIMB + lower) == upper * upper * limb() + 2
            * (upper * lower) * HALF_LIMB + lower * lower,
        (upper * HALF_LIMB + lower) * (upper * HALF_LIMB + lower) < limb() * limb(),
{
    let most: nat = 0xffff_ffff_ffff_ffff;
    assert(most * most < limb() && (most + 1) * (most + 1) == limb()) by (nonlinear_arith)
        requires
            most == 0xffff_ffff_ffff_ffff,
            limb() == 0x1_0000_0000_0000_0000_0000_0000_0000_0000,
    ;
    lemma_product_bound(lower, lower, most);
    lemma_product_bound(upper, lower, most);
    lemma_product_bound(upper, upper, most);
    assert((upper * HALF_LIMB + lower) * (upper * HALF_LIMB + lower) == upper * upper * (HALF_LIMB
        * HALF_LIMB) + 2 * (upper * lower) * HALF_LIMB + lower * lower) by (nonlinear_arith);
    let whole: nat = upper * HALF_LIMB as nat + lower;
    assert(whole <= (limb() - 1) as nat) by (nonlinear_arith)
        requires
            whole == upper * HALF_LIMB + lower,
            upper <= most,
            lower <= most,
            HALF_LIMB == most + 1,
            (most + 1) * (most + 1) == limb(),
    ;
    lemma_product_bound(whole, whole, (limb() - 1) as nat);
    assert((limb() - 1) * (limb() - 1) < limb() * limb()) by (nonlinear_arith)
        requires
            limb() > 1,
    ;
}

/// A product of two numbers is at most the square of a bound on both.
proof fn lemma_product_bound(a: nat, b: nat, bound: nat)
    requires
        a <= bound,
        b <= bound,
    ensures
        a * b <= bound * bound,
{
    assert(a * b <= bound * bound) by (nonlinear_arith)
        requires
            a <= bound,
            b <= bound,
    ;
}

} // verus!
