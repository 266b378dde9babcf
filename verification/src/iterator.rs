//! The lazy sequence: a cursor over a memo that hands out one term per call.

use std::collections::HashMap;
use vstd::prelude::*;

use crate::memo::{
    fibonacci_at_memo, fibonacci_construct_memo, is_fibonacci_memo, lemma_keys_after_without_gaps,
};
use crate::numeric::{lemma_holds_earlier_terms, optional_value, FibonacciAcceptableType};
use crate::term::fibonacci_number;

verus! {

broadcast use vstd::std_specs::hash::group_hash_axioms;

/// Whether a sequence whose cursor is at `position` hands out a term on its
/// next call: `I` must hold the term, and the cursor must have room to move on.
pub open spec fn produces<I: FibonacciAcceptableType>(position: usize) -> bool {
    position < usize::MAX && I::holds(fibonacci_number(position as nat) as int)
}

/// Where the cursor of a sequence stands after `calls` calls, starting from
/// `position`: each call that hands out a term moves it on by one, and a call
/// that hands out nothing leaves it in place.
pub open spec fn position_after<I: FibonacciAcceptableType>(position: usize, calls: nat) -> usize
    decreases calls,
{
    if calls == 0 {
        position
    } else {
        let reached = position_after::<I>(position, (calls - 1) as nat);
        if produces::<I>(reached) {
            (reached + 1) as usize
        } else {
            reached
        }
    }
}

/// What a sequence that starts at `position` hands out on the call after
/// `calls` earlier ones.
pub open spec fn produced<I: FibonacciAcceptableType>(position: usize, calls: nat) -> Option<int> {
    let reached = position_after::<I>(position, calls);
    if produces::<I>(reached) {
        Some(fibonacci_number(reached as nat) as int)
    } else {
        None
    }
}

/// A producer of the Fibonacci sequence that keeps every term it has computed.
pub struct FibonacciIterator<I: FibonacciAcceptableType> {
    memo: HashMap<usize, I>,
    current: usize,
}

impl<I: FibonacciAcceptableType> FibonacciIterator<I> {
    /// The index of the term that the next call asks for.
    pub closed spec fn position(&self) -> usize {
        self.current
    }

    /// The memo that the sequence has built so far.
    pub closed spec fn cache(&self) -> Map<usize, I> {
        self.memo@
    }

    /// The state that every sequence is in: its memo can be trusted, and has
    /// every term below the cursor that `I` holds.
    pub open spec fn well_formed(&self) -> bool {
        &&& is_fibonacci_memo(self.cache())
        &&& forall|k: usize|
            k < self.position() && I::holds(fibonacci_number(k as nat) as int)
                ==> #[trigger] self.cache().contains_key(k)
    }

    /// A sequence that starts at index 0, with the two seeds in its memo.
    pub fn new() -> (sequence: Self)
        ensures
            sequence.well_formed(),
            sequence.position() == 0,
            sequence.cache().dom() =~= set![0usize, 1usize],
    {
        Self { memo: fibonacci_construct_memo(), current: 0 }
    }

    /// A sequence that starts at index `n`. Its memo has every term up to `n`
    /// that `I` holds, and no other.
    pub fn new_at(n: usize) -> (sequence: Self)
        ensures
            sequence.well_formed(),
            sequence.position() == n,
            forall|k: usize|
                #[trigger] sequence.cache().contains_key(k) <==> k <= 1 || (k <= n && I::holds(
                    fibonacci_number(k as nat) as int,
                )),
    {
        let mut memo = fibonacci_construct_memo();
        fibonacci_at_memo(n, &mut memo);
        proof {
            lemma_keys_after_without_gaps::<I>(set![0usize, 1usize], n);
            I::lemma_holds_seeds();
            reveal_with_fuel(fibonacci_number, 2);
        }
        Self { memo, current: n }
    }

    /// Gives up the sequence for its memo.
    pub fn into_memo(self) -> (memo: HashMap<usize, I>)
        ensures
            memo@ == self.cache(),
    {
        self.memo
    }

    /// Hands out the term at the cursor, stores it in the memo and moves the
    /// cursor on, or hands out `None` and leaves the sequence as it is:
    /// `produces` says which, and `produced` what.
    pub fn next(&mut self) -> (fib: Option<I>)
        requires
            old(self).well_formed(),
        ensures
            final(self).well_formed(),
            optional_value(fib) == produced::<I>(old(self).position(), 0),
            final(self).position() == position_after::<I>(old(self).position(), 1),
            fib is Some ==> final(self).cache().dom() =~= old(self).cache().dom().insert(
                old(self).position(),
            ),
            fib is None ==> final(self).cache() == old(self).cache(),
            forall|k: usize| #[trigger]
                old(self).cache().contains_key(k) ==> final(self).cache()[k]
                    == old(self).cache()[k],
    {
        if self.current == usize::MAX {
            return None;
        }
        let ghost before = self.memo@;
        let fib = fibonacci_at_memo(self.current, &mut self.memo);
        proof {
            reveal_with_fuel(position_after, 2);
            assert forall|k: usize| self.memo@.contains_key(k) implies before.contains_key(k)
                || k == self.current by {}
            if fib is None {
                assert(self.memo@ =~= before);
            }
        }
        if fib.is_some() {
            self.current += 1;
        }
        fib
    }
}

/// A sequence that starts at index `n`.
pub fn fibonacci_n<I: FibonacciAcceptableType>(n: usize) -> (sequence: FibonacciIterator<I>)
    ensures
        sequence.well_formed(),
        sequence.position() == n,
        forall|k: usize|
            #[trigger] sequence.cache().contains_key(k) <==> k <= 1 || (k <= n && I::holds(
                fibonacci_number(k as nat) as int,
            )),
{
    FibonacciIterator::new_at(n)
}

/// A sequence that starts at index 0.
pub fn fibonacci<I: FibonacciAcceptableType>() -> (sequence: FibonacciIterator<I>)
    ensures
        sequence.well_formed(),
        sequence.position() == 0,
        sequence.cache().dom() =~= set![0usize, 1usize],
{
    FibonacciIterator::new()
}

/// The cursor never moves back, and no call moves it by more than one.
pub proof fn lemma_position_after_bounds<I: FibonacciAcceptableType>(position: usize, calls: nat)
    ensures
        position <= position_after::<I>(position, calls) <= position + calls,
    decreases calls,
{
    if calls > 0 {
        lemma_position_after_bounds::<I>(position, (calls - 1) as nat);
    }
}

/// Calls one after another: the cursor after `first + then` calls is where
/// `then` calls take it from where `first` calls left it.
pub proof fn lemma_position_after_split<I: FibonacciAcceptableType>(
    position: usize,
    first: nat,
    then: nat,
)
    ensures
        position_after::<I>(position, first + then) == position_after::<I>(
            position_after::<I>(position, first),
            then,
        ),
    decreases then,
{
    if then > 0 {
        lemma_position_after_split::<I>(position, first, (then - 1) as nat);
    }
}

/// Exhaustion lasts: once a sequence hands out nothing, its cursor stays where
/// it is and every later call hands out nothing too.
pub proof fn lemma_exhaustion_is_final<I: FibonacciAcceptableType>(position: usize, calls: nat)
    requires
        produced::<I>(position, 0) is None,
    ensures
        position_after::<I>(position, calls) == position,
        produced::<I>(position, calls) is None,
    decreases calls,
{
    I::lemma_holds_seeds();
    if calls > 0 {
        lemma_exhaustion_is_final::<I>(position, (calls - 1) as nat);
    }
}

/// A sequence that has handed out a term on each of its first `calls` calls
/// was given a term that `I` holds each time.
pub proof fn lemma_full_run_holds_terms<I: FibonacciAcceptableType>(calls: nat, k: nat)
    requires
        position_after::<I>(0, calls) == calls,
        k < calls,
    ensures
        I::holds(fibonacci_number(k) as int),
        k < usize::MAX,
    decreases calls,
{
    lemma_position_after_bounds::<I>(0, (calls - 1) as nat);
    if k + 1 < calls {
        lemma_full_run_holds_terms::<I>((calls - 1) as nat, k);
    }
}

/// Starting at index `n` gives the same terms, in the same order, as starting
/// at index 0 and dropping what the first `n` calls hand out.
pub proof fn lemma_seek_matches_drain<I: FibonacciAcceptableType>(n: usize, calls: nat)
    ensures
        produced::<I>(n, calls) == produced::<I>(0, n as nat + calls),
{
    let drained = position_after::<I>(0, n as nat);
    lemma_position_after_split::<I>(0, n as nat, calls);
    lemma_position_after_bounds::<I>(0, n as nat);
    if drained != n {
        // Draining stopped early, at a term that `I` does not hold; seeking
        // starts beyond that term.
        lemma_drain_stops_at_missing_term::<I>(n as nat);
        lemma_exhaustion_is_final::<I>(drained, calls);
        let sought = position_after::<I>(n, calls);
        lemma_position_after_bounds::<I>(n, calls);
        if I::holds(fibonacci_number(sought as nat) as int) {
            lemma_holds_earlier_terms::<I>(drained as nat, sought as nat);
        }
    }
}

/// Where the cursor fell behind the number of calls, it stands at a term that
/// is not handed out.
proof fn lemma_drain_stops_at_missing_term<I: FibonacciAcceptableType>(calls: nat)
    requires
        position_after::<I>(0, calls) != calls,
    ensures
        !produces::<I>(position_after::<I>(0, calls)),
    decreases calls,
{
    if calls > 0 {
        let earlier = (calls - 1) as nat;
        lemma_position_after_bounds::<I>(0, earlier);
        if position_after::<I>(0, earlier) != earlier {
            lemma_drain_stops_at_missing_term::<I>(earlier);
        }
    }
}

/// The memo of a sequence that started at index 0 and has handed out `count`
/// terms has each of these terms under its index.
pub proof fn lemma_memo_keeps_produced_terms<I: FibonacciAcceptableType>(
    sequence: FibonacciIterator<I>,
    count: usize,
    k: usize,
)
    requires
        sequence.well_formed(),
        sequence.position() == count,
        position_after::<I>(0, count as nat) == count,
        k < count,
    ensures
        sequence.cache().contains_key(k),
        sequence.cache()[k].value() == fibonacci_number(k as nat),
{
    lemma_full_run_holds_terms::<I>(count as nat, k as nat);
}

} // verus!
