use fibonacci::{fibonacci, fibonacci_at_memo, fibonacci_n, FibonacciIterator};

fn take<I: fibonacci::FibonacciAcceptableType>(
    sequence: &mut FibonacciIterator<I>,
    calls: usize,
) -> Vec<Option<I>> {
    let mut out = Vec::new();
    for _ in 0..calls {
        out.push(sequence.next());
    }
    out
}

#[test]
fn sequence_starts_with_the_seeds() {
    let mut sequence = fibonacci::<u32>();
    let terms: Vec<Option<u32>> = take(&mut sequence, 11);
    let expected: Vec<Option<u32>> =
        vec![0, 1, 1, 2, 3, 5, 8, 13, 21, 34, 55].into_iter().map(Some).collect();
    assert_eq!(terms, expected);
}

#[test]
fn new_is_the_sequence_from_zero() {
    let mut by_new = FibonacciIterator::<u64>::new();
    let mut by_function = fibonacci::<u64>();
    let mut by_seek = fibonacci_n::<u64>(0);
    let expected = take(&mut by_new, 100);
    assert_eq!(take(&mut by_function, 100), expected);
    assert_eq!(take(&mut by_seek, 100), expected);
}

#[test]
fn sequence_from_an_index_starts_with_its_term() {
    let mut sequence = fibonacci_n::<u64>(6);
    assert_eq!(take(&mut sequence, 4), vec![Some(8), Some(13), Some(21), Some(34)]);
    let mut other = FibonacciIterator::<u64>::new_at(10);
    assert_eq!(other.next(), Some(55));
}

#[test]
fn seeking_matches_draining() {
    for n in 0..=30usize {
        let mut drained = fibonacci::<u8>();
        take(&mut drained, n);
        let mut sought = fibonacci_n::<u8>(n);
        assert_eq!(take(&mut sought, 20), take(&mut drained, 20));
    }
}

#[test]
fn exhausted_sequence_stays_exhausted() {
    let mut sequence = fibonacci::<u8>();
    let terms = take(&mut sequence, 14);
    assert!(terms.iter().all(|t| t.is_some()));
    assert_eq!(terms[13], Some(233));
    for _ in 0..50 {
        assert_eq!(sequence.next(), None);
    }
}

#[test]
fn sequence_of_a_signed_type_ends_at_its_range() {
    let mut sequence = fibonacci::<i16>();
    let produced = take(&mut sequence, 40).into_iter().flatten().count();
    assert_eq!(produced, 24);
    assert_eq!(sequence.next(), None);
}

#[test]
fn sequence_started_beyond_the_range_gives_nothing() {
    let mut sequence = fibonacci_n::<u8>(20);
    assert_eq!(take(&mut sequence, 5), vec![None, None, None, None, None]);
    let memo = sequence.into_memo();
    assert_eq!(memo.len(), 14);
    assert!(!memo.contains_key(&14));
    assert!(!memo.contains_key(&20));
}

#[test]
fn sequence_from_an_index_has_the_terms_up_to_it() {
    let memo = fibonacci_n::<u64>(12).into_memo();
    let mut keys: Vec<usize> = memo.keys().copied().collect();
    keys.sort();
    assert_eq!(keys, (0..=12usize).collect::<Vec<usize>>());
    assert_eq!(memo.get(&12), Some(&144));
}

#[test]
fn fresh_sequence_gives_up_the_seeded_memo() {
    let memo = fibonacci::<u16>().into_memo();
    assert_eq!(memo.len(), 2);
    assert_eq!(memo.get(&0), Some(&0));
    assert_eq!(memo.get(&1), Some(&1));
}

#[test]
fn memo_of_a_sequence_has_every_term_it_produced() {
    let expected: Vec<u64> = vec![0, 1, 1, 2, 3, 5, 8, 13, 21, 34, 55, 89, 144];
    for count in 0..=expected.len() {
        let mut sequence = fibonacci::<u64>();
        take(&mut sequence, count);
        let mut memo = sequence.into_memo();
        for k in 0..count {
            assert_eq!(memo.get(&k), Some(&expected[k]));
        }
        let size = memo.len();
        for k in 0..count {
            assert_eq!(fibonacci_at_memo(k, &mut memo), Some(expected[k]));
            assert_eq!(memo.len(), size);
        }
    }
}

#[test]
fn memo_survives_exhaustion() {
    let mut sequence = fibonacci::<u8>();
    take(&mut sequence, 30);
    let mut memo = sequence.into_memo();
    assert_eq!(memo.len(), 14);
    assert_eq!(fibonacci_at_memo(13, &mut memo), Some(233));
    assert_eq!(fibonacci_at_memo(14, &mut memo), None);
    assert_eq!(memo.len(), 14);
}
