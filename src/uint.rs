//! 256-bit unsigned integers, held as four 64-bit words, with arithmetic
//! delegated to `alloy_primitives::U256`.

use vstd::arithmetic::power::pow;
use vstd::prelude::*;

verus! {

/// 2^64, the weight of one word.
pub open spec fn word_base() -> nat {
    0x1_0000_0000_0000_0000
}

/// 2^256, one past the largest value.
pub open spec fn modulus() -> nat {
    word_base() * word_base() * word_base() * word_base()
}

/// An unsigned 256-bit integer, least significant word first.
#[derive(Clone, Copy, Debug, PartialEq, Eq, Structural)]
pub struct Uint256 {
    pub w0: u64,
    pub w1: u64,
    pub w2: u64,
    pub w3: u64,
}

impl View for Uint256 {
    type V = nat;

    open spec fn view(&self) -> nat {
        self.w0 as nat + self.w1 as nat * word_base() + self.w2 as nat * word_base() * word_base()
            + self.w3 as nat * word_base() * word_base() * word_base()
    }
}

/// `a / b` rounded up.
pub open spec fn ceil_div(a: nat, b: nat) -> nat
    recommends
        b > 0,
{
    ((a + b - 1) as nat / b) as nat
}

impl Uint256 {
    /// The value zero.
    pub fn zero() -> (r: Uint256)
        ensures
            r@ == 0,
    {
        Uint256 { w0: 0, w1: 0, w2: 0, w3: 0 }
    }

    /// A value that fits in one word.
    pub fn from_u64(x: u64) -> (r: Uint256)
        ensures
            r@ == x as nat,
    {
        Uint256 { w0: x, w1: 0, w2: 0, w3: 0 }
    }

    /// Whether the value is zero.
    pub fn is_zero(&self) -> (r: bool)
        ensures
            r == (self@ == 0),
    {
        proof {
            let b = word_base();
            assert(self.w1 as nat * b >= 0) by (nonlinear_arith);
            assert(self.w2 as nat * b * b >= 0) by (nonlinear_arith);
            assert(self.w3 as nat * b * b * b >= 0) by (nonlinear_arith);
            assert(self.w1 > 0 ==> self.w1 as nat * b > 0) by (nonlinear_arith)
                requires b > 0;
            assert(self.w2 > 0 ==> self.w2 as nat * b * b > 0) by (nonlinear_arith)
                requires b > 0;
            assert(self.w3 > 0 ==> self.w3 as nat * b * b * b > 0) by (nonlinear_arith)
                requires b > 0;
        }
        self.w0 == 0 && self.w1 == 0 && self.w2 == 0 && self.w3 == 0
    }

    /// Relies on `U256::checked_add`: the sum, or `None` when it reaches 2^256.
    #[verifier::external_body]
    pub(crate) fn checked_add(&self, rhs: &Uint256) -> (r: Option<Uint256>)
        ensures
            match r {
                Some(s) => s@ == self@ + rhs@,
                None => self@ + rhs@ >= modulus(),
            },
    {
        let a = alloy_primitives::U256::from_limbs([self.w0, self.w1, self.w2, self.w3]);
        let b = alloy_primitives::U256::from_limbs([rhs.w0, rhs.w1, rhs.w2, rhs.w3]);
        a.checked_add(b).map(|s| {
            let [w0, w1, w2, w3] = s.into_limbs();
            Uint256 { w0, w1, w2, w3 }
        })
    }

    /// Relies on `U256::checked_mul`: the product, or `None` when it reaches 2^256.
    #[verifier::external_body]
    pub(crate) fn checked_mul(&self, rhs: &Uint256) -> (r: Option<Uint256>)
        ensures
            match r {
                Some(p) => p@ == self@ * rhs@,
                None => self@ * rhs@ >= modulus(),
            },
    {
        let a = alloy_primitives::U256::from_limbs([self.w0, self.w1, self.w2, self.w3]);
        let b = alloy_primitives::U256::from_limbs([rhs.w0, rhs.w1, rhs.w2, rhs.w3]);
        a.checked_mul(b).map(|p| {
            let [w0, w1, w2, w3] = p.into_limbs();
            Uint256 { w0, w1, w2, w3 }
        })
    }

    /// Relies on `U256::checked_pow`: the power, or `None` when it reaches 2^256.
    #[verifier::external_body]
    pub(crate) fn checked_pow(&self, exp: &Uint256) -> (r: Option<Uint256>)
        ensures
            match r {
                Some(p) => p@ == pow(self@ as int, exp@),
                None => pow(self@ as int, exp@) >= modulus(),
            },
    {
        let a = alloy_primitives::U256::from_limbs([self.w0, self.w1, self.w2, self.w3]);
        let e = alloy_primitives::U256::from_limbs([exp.w0, exp.w1, exp.w2, exp.w3]);
        a.checked_pow(e).map(|p| {
            let [w0, w1, w2, w3] = p.into_limbs();
            Uint256 { w0, w1, w2, w3 }
        })
    }

    /// Relies on `U256::checked_rem`: the remainder, or `None` for a zero
    /// divisor.
    #[verifier::external_body]
    pub(crate) fn checked_rem(&self, rhs: &Uint256) -> (r: Option<Uint256>)
        ensures
            match r {
                Some(m) => rhs@ > 0 && m@ == self@ % rhs@,
                None => rhs@ == 0,
            },
    {
        let a = alloy_primitives::U256::from_limbs([self.w0, self.w1, self.w2, self.w3]);
        let b = alloy_primitives::U256::from_limbs([rhs.w0, rhs.w1, rhs.w2, rhs.w3]);
        a.checked_rem(b).map(|m| {
            let [w0, w1, w2, w3] = m.into_limbs();
            Uint256 { w0, w1, w2, w3 }
        })
    }

    /// Relies on `U256::div_ceil`: the quotient rounded up; it panics on a
    /// zero divisor, which `requires` leaves out.
    #[verifier::external_body]
    pub(crate) fn div_ceil(&self, rhs: &Uint256) -> (r: Uint256)
        requires
            rhs@ > 0,
        ensures
            r@ == ceil_div(self@, rhs@),
    {
        let a = alloy_primitives::U256::from_limbs([self.w0, self.w1, self.w2, self.w3]);
        let b = alloy_primitives::U256::from_limbs([rhs.w0, rhs.w1, rhs.w2, rhs.w3]);
        let [w0, w1, w2, w3] = a.div_ceil(b).into_limbs();
        Uint256 { w0, w1, w2, w3 }
    }
}

/// A value below 2^64 sits in the lowest word alone.
pub proof fn lemma_small_value(x: Uint256)
    requires
        x@ < word_base(),
    ensures
        x.w1 == 0,
        x.w2 == 0,
        x.w3 == 0,
        x@ == x.w0,
{
    let b = word_base();
    assert(x.w1 as nat * b >= 0) by (nonlinear_arith);
    assert(x.w2 as nat * b * b >= 0) by (nonlinear_arith);
    assert(x.w3 as nat * b * b * b >= 0) by (nonlinear_arith);
    assert(x.w1 > 0 ==> x.w1 as nat * b >= b) by (nonlinear_arith)
        requires
            b > 0,
    ;
    assert(x.w2 > 0 ==> x.w2 as nat * b * b >= b) by (nonlinear_arith)
        requires
            b > 0,
    ;
    assert(x.w3 > 0 ==> x.w3 as nat * b * b * b >= b) by (nonlinear_arith)
        requires
            b > 0,
    ;
}

} // verus!
