//! The memo of computed terms and the evaluator that fills it on demand.

use std::collections::HashMap;
use vstd::prelude::*;

use crate::numeric::{
    held_term, lemma_holds_earlier_terms, optional_value, FibonacciAcceptableType,
};
use crate::term::fibonacci_number;

verus! {

broadcast use vstd::std_specs::hash::group_hash_axioms;

/// A memo that the evaluator can trust: it has both seeds, and the value under
/// every key is the Fibonacci number at that index.
pub open spec fn is_fibonacci_memo<I: FibonacciAcceptableType>(memo: Map<usize, I>) -> bool {
    &&& memo.contains_key(0)
    &&& memo.contains_key(1)
    &&& forall|k: usize| #[trigger]
        memo.contains_key(k) ==> memo[k].value() == fibonacci_number(k as nat)
}

/// Whether `j` and `j + 1` are both among the keys.
pub open spec fn adjacent_keys(keys: Set<usize>, j: int) -> bool {
    keys.contains(j as usize) && keys.contains((j + 1) as usize)
}

/// Whether evaluating index `n` on a memo with the given keys computes the
/// term at index `k` and stores it.
///
/// The descent from a missing index visits the two indices below it and stops
/// at each key that it finds, so it reaches `k` unless two neighbouring keys
/// lie between `k` and `n`; and it stores the term at `k` where `I` holds it.
pub open spec fn newly_cached<I: FibonacciAcceptableType>(
    keys: Set<usize>,
    n: usize,
    k: usize,
) -> bool {
    &&& !keys.contains(n)
    &&& k <= n
    &&& I::holds(fibonacci_number(k as nat) as int)
    &&& forall|j: int| k < j && j + 1 < n ==> !#[trigger] adjacent_keys(keys, j)
}

/// The keys of a memo after index `n` was evaluated on it.
pub open spec fn keys_after<I: FibonacciAcceptableType>(keys: Set<usize>, n: usize) -> Set<usize> {
    Set::new(|k: usize| keys.contains(k) || newly_cached::<I>(keys, n, k))
}

/// Whether the keys are an unbroken run of indices from 0 up, as they are in
/// every memo that only the evaluator has filled.
pub open spec fn without_gaps(keys: Set<usize>) -> bool {
    forall|j: usize, k: usize|
        #![trigger keys.contains(j), keys.contains(k)]
        j <= k && keys.contains(k) ==> keys.contains(j)
}

/// How evaluating index `n` changes a memo: the keys grow to `keys_after`, the
/// entries that were there stay as they were, and the memo is still one that
/// the evaluator can trust, so each new entry is the term at its index.
pub open spec fn memo_step<I: FibonacciAcceptableType>(
    before: Map<usize, I>,
    n: usize,
    after: Map<usize, I>,
) -> bool {
    &&& is_fibonacci_memo(after)
    &&& after.dom() =~= keys_after::<I>(before.dom(), n)
    &&& forall|k: usize| #[trigger] before.contains_key(k) ==> after[k] == before[k]
}

/// The keys after evaluating a missing index `n` are those after evaluating
/// `n - 1` and then `n - 2`, with `n` itself where `I` holds its term.
proof fn lemma_keys_after_unfold<I: FibonacciAcceptableType>(keys: Set<usize>, n: usize)
    requires
        n >= 2,
        !keys.contains(n),
    ensures
        keys_after::<I>(keys, n) == {
            let below = keys_after::<I>(
                keys_after::<I>(keys, (n - 1) as usize),
                (n - 2) as usize,
            );
            if I::holds(fibonacci_number(n as nat) as int) {
                below.insert(n)
            } else {
                below
            }
        },
{
    let n1 = (n - 1) as usize;
    let n2 = (n - 2) as usize;
    let d1 = keys_after::<I>(keys, n1);
    let d2 = keys_after::<I>(d1, n2);
    let unfolded = if I::holds(fibonacci_number(n as nat) as int) {
        d2.insert(n)
    } else {
        d2
    };
    let direct = keys_after::<I>(keys, n);
    assert forall|k: usize| direct.contains(k) <==> unfolded.contains(k) by {
        if keys.contains(k) {
        } else if k >= n {
        } else if keys.contains(n1) {
            // The first descent is a hit and changes nothing.
            assert(d1 =~= keys);
            if k < n2 {
                if newly_cached::<I>(keys, n, k) {
                    assert(!adjacent_keys(keys, n2 as int));
                }
            }
        } else {
            // The first descent does all the work and the second finds it done.
            assert(newly_cached::<I>(keys, n, k) <==> newly_cached::<I>(keys, n1, k));
            if newly_cached::<I>(d1, n2, k) && !d1.contains(k) {
                assert(!d1.contains(n2));
                assert(!newly_cached::<I>(keys, n1, n2));
                assert(k < n2);
                let j = choose|j: int| k < j && j + 1 < n1 && adjacent_keys(keys, j);
                assert(adjacent_keys(d1, j));
            }
        }
    }
    assert(direct =~= unfolded);
}

/// A memo with the two seeds of the sequence and nothing else.
pub fn fibonacci_construct_memo<I: FibonacciAcceptableType>() -> (memo: HashMap<usize, I>)
    ensures
        memo@.dom() =~= set![0usize, 1usize],
        memo@[0].value() == 0,
        memo@[1].value() == 1,
        is_fibonacci_memo(memo@),
{
    let mut memo = HashMap::default();
    memo.insert(0, I::zero());
    memo.insert(1, I::one());
    proof {
        reveal_with_fuel(fibonacci_number, 2);
    }
    memo
}

/// The term at index `n`, from the memo where it has it, and else computed
/// from the two terms below, which are looked up or computed in the same way.
/// Every term computed on the way is stored, so `memo_step` describes the memo
/// afterwards. The result is `None` if `I` does not hold the term; nothing is
/// stored under `n` then.
pub fn fibonacci_at_memo<I: FibonacciAcceptableType>(n: usize, memo: &mut HashMap<usize, I>) -> (fib:
    Option<I>)
    requires
        is_fibonacci_memo(old(memo)@),
    ensures
        optional_value(fib) == held_term::<I>(n as nat),
        fib is Some <==> final(memo)@.contains_key(n),
        old(memo)@.contains_key(n) ==> final(memo)@ == old(memo)@,
        memo_step(old(memo)@, n, final(memo)@),
    decreases n,
{
    let ghost before = memo@;
    match memo.get(&n) {
        Some(found) => {
            let fib = found.clone();
            proof {
                I::lemma_clone_keeps_value(found, &fib);
                fib.lemma_holds_own_value();
                assert(memo@.dom() =~= keys_after::<I>(before.dom(), n));
            }
            Some(fib)
        },
        None => {
            let fibn1 = fibonacci_at_memo(n - 1, memo);
            let ghost middle = memo@;
            let fibn2 = fibonacci_at_memo(n - 2, memo);
            proof {
                lemma_keys_after_unfold::<I>(before.dom(), n);
                assert forall|k: usize| #[trigger] before.contains_key(k) implies memo@[k]
                    == before[k] by {
                    assert(middle.contains_key(k));
                }
                if I::holds(fibonacci_number(n as nat) as int) {
                    lemma_holds_earlier_terms::<I>((n - 1) as nat, n as nat);
                    lemma_holds_earlier_terms::<I>((n - 2) as nat, n as nat);
                }
            }
            match (fibn1, fibn2) {
                (Some(a), Some(b)) => match a.checked_add(&b) {
                    Some(fib) => {
                        let stored = fib.clone();
                        proof {
                            I::lemma_clone_keeps_value(&fib, &stored);
                        }
                        memo.insert(n, stored);
                        Some(fib)
                    },
                    None => None,
                },
                _ => None,
            }
        },
    }
}

/// The term at index `n`, computed on a fresh memo that is then dropped, or
/// `None` if `I` does not hold the term.
pub fn fibonacci_at<I: FibonacciAcceptableType>(n: usize) -> (fib: Option<I>)
    ensures
        optional_value(fib) == held_term::<I>(n as nat),
{
    let mut memo = fibonacci_construct_memo();
    fibonacci_at_memo(n, &mut memo);
    let fib = memo.get(&n).cloned();
    proof {
        if fib is Some {
            I::lemma_clone_keeps_value(&memo@[n], &fib->0);
        }
    }
    fib
}

/// On keys without gaps the descent is stopped by nothing: evaluating index
/// `n` adds every index up to `n` whose term `I` holds, and the keys are again
/// without gaps.
pub proof fn lemma_keys_after_without_gaps<I: FibonacciAcceptableType>(keys: Set<usize>, n: usize)
    requires
        without_gaps(keys),
    ensures
        forall|k: usize|
            #[trigger] keys_after::<I>(keys, n).contains(k) <==> keys.contains(k) || (k <= n
                && I::holds(fibonacci_number(k as nat) as int)),
        keys.contains(0) ==> without_gaps(keys_after::<I>(keys, n)),
{
    let after = keys_after::<I>(keys, n);
    assert forall|k: usize| #[trigger]
        after.contains(k) <==> keys.contains(k) || (k <= n && I::holds(
            fibonacci_number(k as nat) as int,
        )) by {
        if !keys.contains(k) && k <= n {
            assert(!keys.contains(n));
            assert forall|j: int| k < j && j + 1 < n implies !#[trigger] adjacent_keys(
                keys,
                j,
            ) by {
                assert(!keys.contains(j as usize));
            }
        }
    }
    if keys.contains(0) {
        assert forall|j: usize, k: usize|
            #![trigger after.contains(j), after.contains(k)]
            j <= k && after.contains(k) implies after.contains(j) by {
            if !keys.contains(j) {
                assert(!keys.contains(k));
                lemma_holds_earlier_terms::<I>(j as nat, k as nat);
            }
        }
    }
}

/// Evaluating an index a second time finds the memo as the first evaluation
/// left it and changes nothing, whether the first one returned a term or not.
pub proof fn lemma_second_evaluation_changes_nothing<I: FibonacciAcceptableType>(
    before: Map<usize, I>,
    n: usize,
    once: Map<usize, I>,
    twice: Map<usize, I>,
)
    requires
        memo_step(before, n, once),
        memo_step(once, n, twice),
    ensures
        twice == once,
{
    assert forall|k: usize| twice.contains_key(k) implies once.contains_key(k) by {
        if !once.contains_key(k) {
            assert(newly_cached::<I>(once.dom(), n, k));
            assert(!newly_cached::<I>(before.dom(), n, k));
            let j = choose|j: int| k < j && j + 1 < n && adjacent_keys(before.dom(), j);
            assert(adjacent_keys(once.dom(), j));
        }
    }
    assert(twice =~= once);
}

} // verus!
