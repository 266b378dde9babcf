//! The unsigned integer types of the language as number types for the sequence.
//!
//! Each type holds the integers of its range and adds with its own
//! `checked_add`.

use vstd::prelude::*;

use crate::numeric::FibonacciAcceptableType;

verus! {

impl FibonacciAcceptableType for u8 {
    open spec fn value(&self) -> int {
        *self as int
    }

    open spec fn holds(v: int) -> bool {
        0 <= v <= u8::MAX
    }

    proof fn lemma_holds_seeds() {
    }

    proof fn lemma_holds_own_value(&self) {
    }

    proof fn lemma_holds_between(lo: int, mid: int, hi: int) {
    }

    proof fn lemma_clone_keeps_value(source: &Self, copy: &Self) {
    }

    fn zero() -> (r: Self) {
        0
    }

    fn one() -> (r: Self) {
        1
    }

    fn checked_add(&self, v: &Self) -> (r: Option<Self>) {
        u8::checked_add(*self, *v)
    }
}

impl FibonacciAcceptableType for u16 {
    open spec fn value(&self) -> int {
        *self as int
    }

    open spec fn holds(v: int) -> bool {
        0 <= v <= u16::MAX
    }

    proof fn lemma_holds_seeds() {
    }

    proof fn lemma_holds_own_value(&self) {
    }

    proof fn lemma_holds_between(lo: int, mid: int, hi: int) {
    }

    proof fn lemma_clone_keeps_value(source: &Self, copy: &Self) {
    }

    fn zero() -> (r: Self) {
        0
    }

    fn one() -> (r: Self) {
        1
    }

    fn checked_add(&self, v: &Self) -> (r: Option<Self>) {
        u16::checked_add(*self, *v)
    }
}

impl FibonacciAcceptableType for u32 {
    open spec fn value(&self) -> int {
        *self as int
    }

    open spec fn holds(v: int) -> bool {
        0 <= v <= u32::MAX
    }

    proof fn lemma_holds_seeds() {
    }

    proof fn lemma_holds_own_value(&self) {
    }

    proof fn lemma_holds_between(lo: int, mid: int, hi: int) {
    }

    proof fn lemma_clone_keeps_value(source: &Self, copy: &Self) {
    }

    fn zero() -> (r: Self) {
        0
    }

    fn one() -> (r: Self) {
        1
    }

    fn checked_add(&self, v: &Self) -> (r: Option<Self>) {
        u32::checked_add(*self, *v)
    }
}

impl FibonacciAcceptableType for u64 {
    open spec fn value(&self) -> int {
        *self as int
    }

    open spec fn holds(v: int) -> bool {
        0 <= v <= u64::MAX
    }

    proof fn lemma_holds_seeds() {
    }

    proof fn lemma_holds_own_value(&self) {
    }

    proof fn lemma_holds_between(lo: int, mid: int, hi: int) {
    }

    proof fn lemma_clone_keeps_value(source: &Self, copy: &Self) {
    }

    fn zero() -> (r: Self) {
        0
    }

    fn one() -> (r: Self) {
        1
    }

    fn checked_add(&self, v: &Self) -> (r: Option<Self>) {
        u64::checked_add(*self, *v)
    }
}

impl FibonacciAcceptableType for u128 {
    open spec fn value(&self) -> int {
        *self as int
    }

    open spec fn holds(v: int) -> bool {
        0 <= v <= u128::MAX
    }

    proof fn lemma_holds_seeds() {
    }

    proof fn lemma_holds_own_value(&self) {
    }

    proof fn lemma_holds_between(lo: int, mid: int, hi: int) {
    }

    proof fn lemma_clone_keeps_value(source: &Self, copy: &Self) {
    }

    fn zero() -> (r: Self) {
        0
    }

    fn one() -> (r: Self) {
        1
    }

    fn checked_add(&self, v: &Self) -> (r: Option<Self>) {
        u128::checked_add(*self, *v)
    }
}

impl FibonacciAcceptableType for usize {
    open spec fn value(&self) -> int {
        *self as int
    }

    open spec fn holds(v: int) -> bool {
        0 <= v <= usize::MAX
    }

    proof fn lemma_holds_seeds() {
    }

    proof fn lemma_holds_own_value(&self) {
    }

    proof fn lemma_holds_between(lo: int, mid: int, hi: int) {
    }

    proof fn lemma_clone_keeps_value(source: &Self, copy: &Self) {
    }

    fn zero() -> (r: Self) {
        0
    }

    fn one() -> (r: Self) {
        1
    }

    fn checked_add(&self, v: &Self) -> (r: Option<Self>) {
        usize::checked_add(*self, *v)
    }
}

} // verus!
