//! What a number type must offer to carry Fibonacci numbers.

use vstd::prelude::*;

use crate::term::{fibonacci_number, lemma_fibonacci_monotone};

verus! {

/// A number type that the evaluators can compute with: it has a zero and a
/// one, its values can be cloned, and its addition reports overflow instead of
/// wrapping.
///
/// A value stands for the integer `value()`, and `holds(v)` says whether the
/// type has a value for `v`. The integers that a type holds form an interval
/// that contains 0 and 1.
pub trait FibonacciAcceptableType: Clone + Sized {
    /// The integer that this value stands for.
    spec fn value(&self) -> int;

    /// Whether the type has a value that stands for `v`.
    spec fn holds(v: int) -> bool;

    /// The type holds both seeds of the sequence.
    proof fn lemma_holds_seeds()
        ensures
            Self::holds(0),
            Self::holds(1),
    ;

    /// The type holds what each of its values stands for.
    proof fn lemma_holds_own_value(&self)
        ensures
            Self::holds(self.value()),
    ;

    /// The integers that the type holds have no gap between them.
    proof fn lemma_holds_between(lo: int, mid: int, hi: int)
        requires
            lo <= mid <= hi,
            Self::holds(lo),
            Self::holds(hi),
        ensures
            Self::holds(mid),
    ;

    /// A clone stands for the same integer as the value it was made from.
    proof fn lemma_clone_keeps_value(source: &Self, copy: &Self)
        requires
            cloned::<Self>(*source, *copy),
        ensures
            copy.value() == source.value(),
    ;

    /// The additive identity.
    fn zero() -> (r: Self)
        ensures
            r.value() == 0,
    ;

    /// The second seed of the sequence.
    fn one() -> (r: Self)
        ensures
            r.value() == 1,
    ;

    /// The sum of the two values, or `None` where the type does not hold it.
    fn checked_add(&self, v: &Self) -> (r: Option<Self>)
        ensures
            r is Some <==> Self::holds(self.value() + v.value()),
            r matches Some(sum) ==> sum.value() == self.value() + v.value(),
    ;
}

/// The integer that an optional value stands for, if there is one.
pub open spec fn optional_value<I: FibonacciAcceptableType>(number: Option<I>) -> Option<int> {
    match number {
        Some(v) => Some(v.value()),
        None => None,
    }
}

/// The Fibonacci number at index `n` as far as `I` can carry it: the number
/// where `I` holds it, and `None` where it is out of the type's range.
pub open spec fn held_term<I: FibonacciAcceptableType>(n: nat) -> Option<int> {
    if I::holds(fibonacci_number(n) as int) {
        Some(fibonacci_number(n) as int)
    } else {
        None
    }
}

/// A type that holds the Fibonacci number at one index holds the numbers at
/// all earlier indices too.
pub proof fn lemma_holds_earlier_terms<I: FibonacciAcceptableType>(i: nat, j: nat)
    requires
        i <= j,
        I::holds(fibonacci_number(j) as int),
    ensures
        I::holds(fibonacci_number(i) as int),
{
    I::lemma_holds_seeds();
    lemma_fibonacci_monotone(i, j);
    I::lemma_holds_between(0, fibonacci_number(i) as int, fibonacci_number(j) as int);
}

} // verus!
