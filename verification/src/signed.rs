//! The signed integer types of the language as number types for the sequence.
//!
//! Each type holds the integers of its range and adds with its own
//! `checked_add`.

use vstd::prelude::*;

use crate::numeric::FibonacciAcceptableType;

verus! {

impl FibonacciAcceptableType for i8 {
    open spec fn value(&self) -> int {
        *self as int
    }

    open spec fn holds(v: int) -> bool {
        i8::MIN <= v <= i8::MAX
    }

    proof fn lemma_holds_seeds() {
    }

    proof fn lemma_holds_own_value(&self) {
    }

    proof fn lemma_holds_between(lo: int, mid: int, hi: int) {
    }

    proof fn lemma_clone_keeps_value(source: &Self, copy: &Self) {
    }

    fn zero() -> (r: Self) {
        0
    }

    fn one() -> (r: Self) {
        1
    }

    fn checked_add(&self, v: &Self) -> (r: Option<Self>) {
        i8::checked_add(*self, *v)
    }
}

impl FibonacciAcceptableType for i16 {
    open spec fn value(&self) -> int {
        *self as int
    }

    open spec fn holds(v: int) -> bool {
        i16::MIN <= v <= i16::MAX
    }

    proof fn lemma_holds_seeds() {
    }

    proof fn lemma_holds_own_value(&self) {
    }

    proof fn lemma_holds_between(lo: int, mid: int, hi: int) {
    }

    proof fn lemma_clone_keeps_value(source: &Self, copy: &Self) {
    }

    fn zero() -> (r: Self) {
        0
    }

    fn one() -> (r: Self) {
        1
    }

    fn checked_add(&self, v: &Self) -> (r: Option<Self>) {
        i16::checked_add(*self, *v)
    }
}

impl FibonacciAcceptableType for i32 {
    open spec fn value(&self) -> int {
        *self as int
    }

    open spec fn holds(v: int) -> bool {
        i32::MIN <= v <= i32::MAX
    }

    proof fn lemma_holds_seeds() {
    }

    proof fn lemma_holds_own_value(&self) {
    }

    proof fn lemma_holds_between(lo: int, mid: int, hi: int) {
    }

    proof fn lemma_clone_keeps_value(source: &Self, copy: &Self) {
    }

    fn zero() -> (r: Self) {
        0
    }

    fn one() -> (r: Self) {
        1
    }

    fn checked_add(&self, v: &Self) -> (r: Option<Self>) {
        i32::checked_add(*self, *v)
    }
}

impl FibonacciAcceptableType for i64 {
    open spec fn value(&self) -> int {
        *self as int
    }

    open spec fn holds(v: int) -> bool {
        i64::MIN <= v <= i64::MAX
    }

    proof fn lemma_holds_seeds() {
    }

    proof fn lemma_holds_own_value(&self) {
    }

    proof fn lemma_holds_between(lo: int, mid: int, hi: int) {
    }

    proof fn lemma_clone_keeps_value(source: &Self, copy: &Self) {
    }

    fn zero() -> (r: Self) {
        0
    }

    fn one() -> (r: Self) {
        1
    }

    fn checked_add(&self, v: &Self) -> (r: Option<Self>) {
        i64::checked_add(*self, *v)
    }
}

impl FibonacciAcceptableType for i128 {
    open spec fn value(&self) -> int {
        *self as int
    }

    open spec fn holds(v: int) -> bool {
        i128::MIN <= v <= i128::MAX
    }

    proof fn lemma_holds_seeds() {
    }

    proof fn lemma_holds_own_value(&self) {
    }

    proof fn lemma_holds_between(lo: int, mid: int, hi: int) {
    }

    proof fn lemma_clone_keeps_value(source: &Self, copy: &Self) {
    }

    fn zero() -> (r: Self) {
        0
    }

    fn one() -> (r: Self) {
        1
    }

    fn checked_add(&self, v: &Self) -> (r: Option<Self>) {
        i128::checked_add(*self, *v)
    }
}

impl FibonacciAcceptableType for isize {
    open spec fn value(&self) -> int {
        *self as int
    }

    open spec fn holds(v: int) -> bool {
        isize::MIN <= v <= isize::MAX
    }

    proof fn lemma_holds_seeds() {
    }

    proof fn lemma_holds_own_value(&self) {
    }

    proof fn lemma_holds_between(lo: int, mid: int, hi: int) {
    }

    proof fn lemma_clone_keeps_value(source: &Self, copy: &Self) {
    }

    fn zero() -> (r: Self) {
        0
    }

    fn one() -> (r: Self) {
        1
    }

    fn checked_add(&self, v: &Self) -> (r: Option<Self>) {
        isize::checked_add(*self, *v)
    }
}

} // verus!
