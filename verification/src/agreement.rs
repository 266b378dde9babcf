//! How the evaluators relate to each other, and where a bounded type gives out.

use vstd::prelude::*;

use crate::fast::fast_index;
use crate::numeric::{held_term, lemma_holds_earlier_terms, FibonacciAcceptableType};
use crate::term::{fibonacci_number, lemma_fibonacci_grows};

verus! {

/// `fibonacci_at` and `fibonacci_at_memo` return the term at `n` as far as `I`
/// holds it, and `fibonacci_at_fast` the term at `fast_index(n)`. The three
/// agree up to index 2, where the two indices name the same number, and where
/// `I` does not even hold the term before `n`, so that all three return `None`.
pub proof fn lemma_bottom_up_agrees<I: FibonacciAcceptableType>(n: nat)
    requires
        n <= 2 || !I::holds(fibonacci_number((n - 1) as nat) as int),
    ensures
        held_term::<I>(fast_index(n)) == held_term::<I>(n),
{
    if n <= 2 {
        reveal_with_fuel(fibonacci_number, 3);
    } else if I::holds(fibonacci_number(n) as int) {
        lemma_holds_earlier_terms::<I>((n - 1) as nat, n);
    }
}

/// Everywhere else the bottom-up evaluator is one index behind: from index 2
/// on it returns what the other two return for the index before.
pub proof fn lemma_bottom_up_is_one_behind<I: FibonacciAcceptableType>(n: nat)
    requires
        n >= 2,
    ensures
        held_term::<I>(fast_index(n)) == held_term::<I>((n - 1) as nat),
{
}

/// The least index at or below `n` whose term `I` does not hold.
proof fn lemma_least_missing_term<I: FibonacciAcceptableType>(n: nat) -> (first: nat)
    requires
        !I::holds(fibonacci_number(n) as int),
    ensures
        first <= n,
        !I::holds(fibonacci_number(first) as int),
        forall|k: nat| k < first ==> I::holds(#[trigger] fibonacci_number(k) as int),
    decreases n,
{
    I::lemma_holds_seeds();
    if I::holds(fibonacci_number((n - 1) as nat) as int) {
        assert forall|k: nat| k < n implies I::holds(#[trigger] fibonacci_number(k) as int) by {
            lemma_holds_earlier_terms::<I>(k, (n - 1) as nat);
        }
        n
    } else {
        lemma_least_missing_term::<I>((n - 1) as nat)
    }
}

/// A type that has no value for some number `beyond` gives out at one index:
/// there is a first index whose term it does not hold. `fibonacci_at` and
/// `fibonacci_at_memo` return a term below that index and `None` from it on.
/// `fibonacci_at_fast`, which is one index behind, still returns a term at that
/// index and returns `None` from the next one on.
pub proof fn lemma_first_missing_term<I: FibonacciAcceptableType>(beyond: int) -> (first: nat)
    requires
        beyond >= 0,
        !I::holds(beyond),
    ensures
        first >= 3,
        forall|k: nat| k < first ==> #[trigger] held_term::<I>(k) is Some,
        forall|k: nat| k >= first ==> #[trigger] held_term::<I>(k) is None,
        forall|k: nat| k <= first ==> #[trigger] held_term::<I>(fast_index(k)) is Some,
        forall|k: nat| k > first ==> #[trigger] held_term::<I>(fast_index(k)) is None,
{
    let far = (beyond + 2) as nat;
    lemma_fibonacci_grows(far);
    I::lemma_holds_seeds();
    if I::holds(fibonacci_number(far) as int) {
        I::lemma_holds_between(0, beyond, fibonacci_number(far) as int);
    }
    let first = lemma_least_missing_term::<I>(far);
    assert(first >= 3) by {
        reveal_with_fuel(fibonacci_number, 3);
    }
    assert forall|k: nat| k >= first implies #[trigger] held_term::<I>(k) is None by {
        if I::holds(fibonacci_number(k) as int) {
            lemma_holds_earlier_terms::<I>(first, k);
        }
    }
    first
}

} // verus!
