use fibonacci::{
    fibonacci, fibonacci_at, fibonacci_at_fast, fibonacci_at_memo, fibonacci_construct_memo,
    fibonacci_n, BigNat, FibonacciAcceptableType,
};
use num_bigint::BigUint;

fn number(big: &BigNat) -> BigUint {
    BigUint::new(big.limbs().clone())
}

fn parsed(decimal: &str) -> BigUint {
    decimal.parse::<BigUint>().unwrap()
}

#[test]
fn big_seeds_are_zero_and_one() {
    assert_eq!(number(&BigNat::zero()), BigUint::from(0u32));
    assert_eq!(number(&BigNat::one()), BigUint::from(1u32));
    assert_eq!(number(&fibonacci_at::<BigNat>(0).unwrap()), BigUint::from(0u32));
    assert_eq!(number(&fibonacci_at::<BigNat>(1).unwrap()), BigUint::from(1u32));
}

#[test]
fn big_addition_is_exact_and_always_succeeds() {
    let a = BigNat::from_limbs(vec![u32::MAX, u32::MAX]);
    let b = BigNat::from_limbs(vec![1]);
    let sum = a.checked_add(&b).unwrap();
    assert_eq!(number(&sum), parsed("18446744073709551616"));
    assert_eq!(sum.limbs(), &vec![0, 0, 1]);
    let twice = sum.checked_add(&sum).unwrap();
    assert_eq!(number(&twice), parsed("36893488147419103232"));
}

#[test]
fn big_addition_ignores_leading_zero_digits() {
    let a = BigNat::from_limbs(vec![5, 0, 0]);
    let b = BigNat::from_limbs(vec![]);
    let sum = a.checked_add(&b).unwrap();
    assert_eq!(number(&sum), BigUint::from(5u32));
    assert_eq!(sum.limbs(), &vec![5]);
}

#[test]
fn big_clone_keeps_the_number() {
    let a = BigNat::from_limbs(vec![3314859971, 870020775, 19]);
    let b = a.clone();
    assert_eq!(number(&a), number(&b));
    assert_eq!(number(&b), parsed("354224848179261915075"));
}

#[test]
fn big_lookup_goes_beyond_the_machine_integers() {
    assert_eq!(number(&fibonacci_at::<BigNat>(10).unwrap()), BigUint::from(55u32));
    assert_eq!(number(&fibonacci_at::<BigNat>(94).unwrap()), parsed("19740274219868223167"));
    assert_eq!(number(&fibonacci_at::<BigNat>(100).unwrap()), parsed("354224848179261915075"));
    assert_eq!(
        number(&fibonacci_at::<BigNat>(300).unwrap()),
        parsed("222232244629420445529739893461909967206666939096499764990979600")
    );
    assert_eq!(fibonacci_at::<BigNat>(100).unwrap().limbs(), &vec![3314859971, 870020775, 19]);
}

#[test]
fn big_bottom_up_runs_one_behind() {
    assert_eq!(number(&fibonacci_at_fast::<BigNat>(101).unwrap()), parsed("354224848179261915075"));
    assert_eq!(number(&fibonacci_at_fast::<BigNat>(0).unwrap()), BigUint::from(0u32));
    assert_eq!(number(&fibonacci_at_fast::<BigNat>(2).unwrap()), BigUint::from(1u32));
}

#[test]
fn big_memo_is_filled_like_any_other() {
    let mut memo = fibonacci_construct_memo::<BigNat>();
    let fib = fibonacci_at_memo(120, &mut memo).unwrap();
    assert_eq!(number(&fib), parsed("5358359254990966640871840"));
    assert_eq!(memo.len(), 121);
    assert_eq!(number(memo.get(&100).unwrap()), parsed("354224848179261915075"));
}

#[test]
fn big_sequence_does_not_end() {
    let mut sequence = fibonacci::<BigNat>();
    let mut previous = (BigUint::from(0u32), BigUint::from(1u32));
    for n in 0..500usize {
        let term = number(&sequence.next().unwrap());
        if n >= 2 {
            assert_eq!(term, &previous.0 + &previous.1);
            previous = (previous.1, term);
        } else {
            assert_eq!(term, BigUint::from(n as u32));
        }
    }
    let mut sought = fibonacci_n::<BigNat>(500);
    assert_eq!(number(&sought.next().unwrap()), &previous.0 + &previous.1);
}
