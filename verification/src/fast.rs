//! The bottom-up evaluator: one forward loop over the last two terms.

use vstd::prelude::*;

use crate::numeric::{
    held_term, lemma_holds_earlier_terms, optional_value, FibonacciAcceptableType,
};
use crate::term::fibonacci_number;

verus! {

/// The index of the term that the bottom-up evaluator reaches for `n`.
///
/// Its loop runs over `2..n`, one addition each, so from `n = 2` on it stops at
/// the term before `n`.
pub open spec fn fast_index(n: nat) -> nat {
    if n < 2 {
        n
    } else {
        (n - 1) as nat
    }
}

/// Walks the sequence upwards from its seeds, keeping the last two terms only,
/// and returns the term at `fast_index(n)`, or `None` if `I` does not hold that
/// term.
pub fn fibonacci_at_fast<I: FibonacciAcceptableType>(n: usize) -> (fib: Option<I>)
    ensures
        optional_value(fib) == held_term::<I>(fast_index(n as nat)),
{
    let mut a = I::zero();
    let mut b = I::one();
    if n == 0 {
        proof {
            a.lemma_holds_own_value();
        }
        return Some(a);
    }
    let mut i: usize = 2;
    while i < n
        invariant
            n >= 1,
            2 <= i,
            i <= n || i == 2,
            a.value() == fibonacci_number((i - 2) as nat),
            b.value() == fibonacci_number((i - 1) as nat),
        decreases n - i,
    {
        match b.checked_add(&a) {
            Some(c) => {
                a = b;
                b = c;
                i += 1;
            },
            None => {
                proof {
                    if I::holds(fibonacci_number((n - 1) as nat) as int) {
                        lemma_holds_earlier_terms::<I>(i as nat, (n - 1) as nat);
                    }
                }
                return None;
            },
        }
    }
    proof {
        b.lemma_holds_own_value();
    }
    Some(b)
}

} // verus!
