//! The Fibonacci sequence as a mathematical function, and the facts about it
//! that the evaluators rest on.

use vstd::prelude::*;

verus! {

/// The Fibonacci number at index `n`: 0, 1, 1, 2, 3, 5, 8, ...
pub open spec fn fibonacci_number(n: nat) -> nat
    decreases n,
{
    if n < 2 {
        n
    } else {
        fibonacci_number((n - 1) as nat) + fibonacci_number((n - 2) as nat)
    }
}

/// The sequence never decreases from one index to the next.
pub proof fn lemma_fibonacci_step(n: nat)
    ensures
        fibonacci_number(n) <= fibonacci_number(n + 1),
{
    if n >= 1 {
        assert(fibonacci_number(n + 1) == fibonacci_number(n) + fibonacci_number((n - 1) as nat));
    }
}

/// The sequence is monotone: a later index never holds a smaller number.
pub proof fn lemma_fibonacci_monotone(i: nat, j: nat)
    requires
        i <= j,
    ensures
        fibonacci_number(i) <= fibonacci_number(j),
    decreases j,
{
    if i < j {
        lemma_fibonacci_monotone(i, (j - 1) as nat);
        lemma_fibonacci_step((j - 1) as nat);
    }
}

/// The sequence is unbounded: from index 1 on, the number at index `n` is at
/// least `n - 1`.
pub proof fn lemma_fibonacci_grows(n: nat)
    requires
        n >= 1,
    ensures
        fibonacci_number(n) >= n - 1,
    decreases n,
{
    if n >= 4 {
        lemma_fibonacci_grows((n - 1) as nat);
        lemma_fibonacci_grows((n - 2) as nat);
    } else {
        reveal_with_fuel(fibonacci_number, 4);
    }
}

} // verus!
