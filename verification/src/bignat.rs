//! Natural numbers without an upper bound, added by `num-bigint`.

use vstd::prelude::*;

use crate::numeric::FibonacciAcceptableType;

verus! {

/// The natural number that a sequence of base-2^32 digits stands for, the
/// least significant digit first.
pub open spec fn limbs_value(limbs: Seq<u32>) -> nat
    decreases limbs.len(),
{
    if limbs.len() == 0 {
        0
    } else {
        limbs[0] as nat + 0x1_0000_0000 * limbs_value(limbs.drop_first())
    }
}

/// A natural number of any size, kept as its base-2^32 digits, the least
/// significant first. Leading zero digits are allowed and change nothing.
pub struct BigNat {
    limbs: Vec<u32>,
}

impl View for BigNat {
    type V = nat;

    closed spec fn view(&self) -> nat {
        limbs_value(self.limbs@)
    }
}

impl Clone for BigNat {
    fn clone(&self) -> (copy: Self)
        ensures
            copy@ == self@,
    {
        BigNat { limbs: self.limbs.clone() }
    }
}

impl BigNat {
    /// The number with the given digits.
    pub fn from_limbs(limbs: Vec<u32>) -> (number: Self)
        ensures
            number@ == limbs_value(limbs@),
    {
        BigNat { limbs }
    }

    /// The digits of the number.
    pub fn limbs(&self) -> (limbs: &Vec<u32>)
        ensures
            limbs_value(limbs@) == self@,
    {
        &self.limbs
    }
}

/// Calls `num_traits::Zero::zero` of `num_bigint::BigUint` and turns the result
/// into digits with `BigUint::to_u32_digits`. Believed without proof: the
/// digits stand for 0.
#[verifier::external_body]
fn zero_limbs() -> (limbs: Vec<u32>)
    ensures
        limbs_value(limbs@) == 0,
{
    <num_bigint::BigUint as num_traits::Zero>::zero().to_u32_digits()
}

/// Calls `num_traits::One::one` of `num_bigint::BigUint` and turns the result
/// into digits with `BigUint::to_u32_digits`. Believed without proof: the
/// digits stand for 1.
#[verifier::external_body]
fn one_limbs() -> (limbs: Vec<u32>)
    ensures
        limbs_value(limbs@) == 1,
{
    <num_bigint::BigUint as num_traits::One>::one().to_u32_digits()
}

/// Calls `num_traits::CheckedAdd::checked_add` of `num_bigint::BigUint` on two
/// numbers made with `BigUint::new`, and turns the sum into digits with
/// `BigUint::to_u32_digits`. Believed without proof: both conversions take the
/// digits least significant first, and the addition always returns the exact
/// sum, never `None`.
#[verifier::external_body]
fn checked_add_limbs(a: &Vec<u32>, b: &Vec<u32>) -> (sum: Option<Vec<u32>>)
    ensures
        sum is Some,
        sum matches Some(s) ==> limbs_value(s@) == limbs_value(a@) + limbs_value(b@),
{
    let x = num_bigint::BigUint::new(a.clone());
    let y = num_bigint::BigUint::new(b.clone());
    num_traits::CheckedAdd::checked_add(&x, &y).as_ref().map(num_bigint::BigUint::to_u32_digits)
}

impl FibonacciAcceptableType for BigNat {
    open spec fn value(&self) -> int {
        self@ as int
    }

    open spec fn holds(v: int) -> bool {
        v >= 0
    }

    proof fn lemma_holds_seeds() {
    }

    proof fn lemma_holds_own_value(&self) {
    }

    proof fn lemma_holds_between(lo: int, mid: int, hi: int) {
    }

    proof fn lemma_clone_keeps_value(source: &Self, copy: &Self) {
    }

    fn zero() -> (r: Self) {
        BigNat { limbs: zero_limbs() }
    }

    fn one() -> (r: Self) {
        BigNat { limbs: one_limbs() }
    }

    fn checked_add(&self, v: &Self) -> (r: Option<Self>) {
        match checked_add_limbs(&self.limbs, &v.limbs) {
            Some(limbs) => Some(BigNat { limbs }),
            None => None,
        }
    }
}

} // verus!
