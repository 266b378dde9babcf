//! Terms of the Fibonacci sequence over any number type that can add with an
//! overflow check: a memoized evaluator, a bottom-up evaluator and a lazy
//! sequence that keeps its memo between calls.

pub mod agreement;
pub mod bignat;
pub mod fast;
pub mod iterator;
pub mod memo;
pub mod numeric;
pub mod signed;
pub mod term;
pub mod unsigned;

pub use bignat::BigNat;
pub use fast::fibonacci_at_fast;
pub use iterator::{fibonacci, fibonacci_n, FibonacciIterator};
pub use memo::{fibonacci_at, fibonacci_at_memo, fibonacci_construct_memo};
pub use numeric::FibonacciAcceptableType;
