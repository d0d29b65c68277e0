//! The `on` partial-application combinators: each builds a transformer that
//! splices the piped item into one designated argument position of a
//! multi-argument operation, with fixed arguments supplied before and after
//! that position. `on2_1`, for example, fixes two leading arguments and one
//! trailing argument, and completing it on `value` calls the operation on
//! `(before1, before2, value, after1)`. The family covers up to three fixed
//! arguments on either side of the designated position, expanded uniformly.

use vstd::prelude::*;

use crate::{Pipe, PipeKind};

verus! {

/// Partial application with one fixed leading argument and no fixed trailing argument:
/// completing it on `value` calls the operation on
/// `(before1, value)`.
pub struct On1_0<F, A1> {
    pub f: F,
    pub before1: A1,
}

/// Build the [`On1_0`] combinator from the target operation and its
/// fixed arguments.
pub fn on1_0<F, A1>(f: F, before1: A1) -> (p: On1_0<F, A1>)
    ensures
        p.f == f && p.before1 == before1,
{
    On1_0 { f, before1 }
}

impl<F, A1, T, R> Pipe<T, PipeKind> for On1_0<F, A1> where
    F: FnOnce(A1, T) -> R,
 {
    type Output = R;

    open spec fn completes(self, value: T) -> bool {
        call_requires(self.f, (self.before1, value))
    }

    /// The output is exactly what the target operation, called directly on
    /// the fixed arguments with `value` at the designated position, may
    /// return.
    open spec fn post(self, value: T, output: R) -> bool {
        call_ensures(self.f, (self.before1, value), output)
    }

    fn complete(self, value: T) -> (output: R) {
        (self.f)(self.before1, value)
    }
}

/// Partial application with two fixed leading arguments and no fixed trailing argument:
/// completing it on `value` calls the operation on
/// `(before1, before2, value)`.
pub struct On2_0<F, A1, A2> {
    pub f: F,
    pub before1: A1,
    pub before2: A2,
}

/// Build the [`On2_0`] combinator from the target operation and its
/// fixed arguments.
pub fn on2_0<F, A1, A2>(f: F, before1: A1, before2: A2) -> (p: On2_0<F, A1, A2>)
    ensures
        p.f == f && p.before1 == before1 && p.before2 == before2,
{
    On2_0 { f, before1, before2 }
}

impl<F, A1, A2, T, R> Pipe<T, PipeKind> for On2_0<F, A1, A2> where
    F: FnOnce(A1, A2, T) -> R,
 {
    type Output = R;

    open spec fn completes(self, value: T) -> bool {
        call_requires(self.f, (self.before1, self.before2, value))
    }

    /// The output is exactly what the target operation, called directly on
    /// the fixed arguments with `value` at the designated position, may
    /// return.
    open spec fn post(self, value: T, output: R) -> bool {
        call_ensures(self.f, (self.before1, self.before2, value), output)
    }

    fn complete(self, value: T) -> (output: R) {
        (self.f)(self.before1, self.before2, value)
    }
}

/// Partial application with three fixed leading arguments and no fixed trailing argument:
/// completing it on `value` calls the operation on
/// `(before1, before2, before3, value)`.
pub struct On3_0<F, A1, A2, A3> {
    pub f: F,
    pub before1: A1,
    pub before2: A2,
    pub before3: A3,
}

/// Build the [`On3_0`] combinator from the target operation and its
/// fixed arguments.
pub fn on3_0<F, A1, A2, A3>(f: F, before1: A1, before2: A2, before3: A3) -> (p: On3_0<F, A1, A2, A3>)
    ensures
        p.f == f && p.before1 == before1 && p.before2 == before2 && p.before3 == before3,
{
    On3_0 { f, before1, before2, before3 }
}

impl<F, A1, A2, A3, T, R> Pipe<T, PipeKind> for On3_0<F, A1, A2, A3> where
    F: FnOnce(A1, A2, A3, T) -> R,
 {
    type Output = R;

    open spec fn completes(self, value: T) -> bool {
        call_requires(self.f, (self.before1, self.before2, self.before3, value))
    }

    /// The output is exactly what the target operation, called directly on
    /// the fixed arguments with `value` at the designated position, may
    /// return.
    open spec fn post(self, value: T, output: R) -> bool {
        call_ensures(self.f, (self.before1, self.before2, self.before3, value), output)
    }

    fn complete(self, value: T) -> (output: R) {
        (self.f)(self.before1, self.before2, self.before3, value)
    }
}

/// Partial application with no fixed leading argument and one fixed trailing argument:
/// completing it on `value` calls the operation on
/// `(value, after1)`.
pub struct On0_1<F, B1> {
    pub f: F,
    pub after1: B1,
}

/// Build the [`On0_1`] combinator from the target operation and its
/// fixed arguments.
pub fn on0_1<F, B1>(f: F, after1: B1) -> (p: On0_1<F, B1>)
    ensures
        p.f == f && p.after1 == after1,
{
    On0_1 { f, after1 }
}

impl<F, B1, T, R> Pipe<T, PipeKind> for On0_1<F, B1> where
    F: FnOnce(T, B1) -> R,
 {
    type Output = R;

    open spec fn completes(self, value: T) -> bool {
        call_requires(self.f, (value, self.after1))
    }

    /// The output is exactly what the target operation, called directly on
    /// the fixed arguments with `value` at the designated position, may
    /// return.
    open spec fn post(self, value: T, output: R) -> bool {
        call_ensures(self.f, (value, self.after1), output)
    }

    fn complete(self, value: T) -> (output: R) {
        (self.f)(value, self.after1)
    }
}

/// Partial application with no fixed leading argument and two fixed trailing arguments:
/// completing it on `value` calls the operation on
/// `(value, after1, after2)`.
pub struct On0_2<F, B1, B2> {
    pub f: F,
    pub after1: B1,
    pub after2: B2,
}

/// Build the [`On0_2`] combinator from the target operation and its
/// fixed arguments.
pub fn on0_2<F, B1, B2>(f: F, after1: B1, after2: B2) -> (p: On0_2<F, B1, B2>)
    ensures
        p.f == f && p.after1 == after1 && p.after2 == after2,
{
    On0_2 { f, after1, after2 }
}

impl<F, B1, B2, T, R> Pipe<T, PipeKind> for On0_2<F, B1, B2> where
    F: FnOnce(T, B1, B2) -> R,
 {
    type Output = R;

    open spec fn completes(self, value: T) -> bool {
        call_requires(self.f, (value, self.after1, self.after2))
    }

    /// The output is exactly what the target operation, called directly on
    /// the fixed arguments with `value` at the designated position, may
    /// return.
    open spec fn post(self, value: T, output: R) -> bool {
        call_ensures(self.f, (value, self.after1, self.after2), output)
    }

    fn complete(self, value: T) -> (output: R) {
        (self.f)(value, self.after1, self.after2)
    }
}

/// Partial application with no fixed leading argument and three fixed trailing arguments:
/// completing it on `value` calls the operation on
/// `(value, after1, after2, after3)`.
pub struct On0_3<F, B1, B2, B3> {
    pub f: F,
    pub after1: B1,
    pub after2: B2,
    pub after3: B3,
}

/// Build the [`On0_3`] combinator from the target operation and its
/// fixed arguments.
pub fn on0_3<F, B1, B2, B3>(f: F, after1: B1, after2: B2, after3: B3) -> (p: On0_3<F, B1, B2, B3>)
    ensures
        p.f == f && p.after1 == after1 && p.after2 == after2 && p.after3 == after3,
{
    On0_3 { f, after1, after2, after3 }
}

impl<F, B1, B2, B3, T, R> Pipe<T, PipeKind> for On0_3<F, B1, B2, B3> where
    F: FnOnce(T, B1, B2, B3) -> R,
 {
    type Output = R;

    open spec fn completes(self, value: T) -> bool {
        call_requires(self.f, (value, self.after1, self.after2, self.after3))
    }

    /// The output is exactly what the target operation, called directly on
    /// the fixed arguments with `value` at the designated position, may
    /// return.
    open spec fn post(self, value: T, output: R) -> bool {
        call_ensures(self.f, (value, self.after1, self.after2, self.after3), output)
    }

    fn complete(self, value: T) -> (output: R) {
        (self.f)(value, self.after1, self.after2, self.after3)
    }
}

/// Partial application with one fixed leading argument and one fixed trailing argument:
/// completing it on `value` calls the operation on
/// `(before1, value, after1)`.
pub struct On1_1<F, A1, B1> {
    pub f: F,
    pub before1: A1,
    pub after1: B1,
}

/// Build the [`On1_1`] combinator from the target operation and its
/// fixed arguments.
pub fn on1_1<F, A1, B1>(f: F, before1: A1, after1: B1) -> (p: On1_1<F, A1, B1>)
    ensures
        p.f == f && p.before1 == before1 && p.after1 == after1,
{
    On1_1 { f, before1, after1 }
}

impl<F, A1, B1, T, R> Pipe<T, PipeKind> for On1_1<F, A1, B1> where
    F: FnOnce(A1, T, B1) -> R,
 {
    type Output = R;

    open spec fn completes(self, value: T) -> bool {
        call_requires(self.f, (self.before1, value, self.after1))
    }

    /// The output is exactly what the target operation, called directly on
    /// the fixed arguments with `value` at the designated position, may
    /// return.
    open spec fn post(self, value: T, output: R) -> bool {
        call_ensures(self.f, (self.before1, value, self.after1), output)
    }

    fn complete(self, value: T) -> (output: R) {
        (self.f)(self.before1, value, self.after1)
    }
}

/// Partial application with two fixed leading arguments and one fixed trailing argument:
/// completing it on `value` calls the operation on
/// `(before1, before2, value, after1)`.
pub struct On2_1<F, A1, A2, B1> {
    pub f: F,
    pub before1: A1,
    pub before2: A2,
    pub after1: B1,
}

/// Build the [`On2_1`] combinator from the target operation and its
/// fixed arguments.
pub fn on2_1<F, A1, A2, B1>(f: F, before1: A1, before2: A2, after1: B1) -> (p: On2_1<F, A1, A2, B1>)
    ensures
        p.f == f && p.before1 == before1 && p.before2 == before2 && p.after1 == after1,
{
    On2_1 { f, before1, before2, after1 }
}

impl<F, A1, A2, B1, T, R> Pipe<T, PipeKind> for On2_1<F, A1, A2, B1> where
    F: FnOnce(A1, A2, T, B1) -> R,
 {
    type Output = R;

    open spec fn completes(self, value: T) -> bool {
        call_requires(self.f, (self.before1, self.before2, value, self.after1))
    }

    /// The output is exactly what the target operation, called directly on
    /// the fixed arguments with `value` at the designated position, may
    /// return.
    open spec fn post(self, value: T, output: R) -> bool {
        call_ensures(self.f, (self.before1, self.before2, value, self.after1), output)
    }

    fn complete(self, value: T) -> (output: R) {
        (self.f)(self.before1, self.before2, value, self.after1)
    }
}

/// Partial application with one fixed leading argument and two fixed trailing arguments:
/// completing it on `value` calls the operation on
/// `(before1, value, after1, after2)`.
pub struct On1_2<F, A1, B1, B2> {
    pub f: F,
    pub before1: A1,
    pub after1: B1,
    pub after2: B2,
}

/// Build the [`On1_2`] combinator from the target operation and its
/// fixed arguments.
pub fn on1_2<F, A1, B1, B2>(f: F, before1: A1, after1: B1, after2: B2) -> (p: On1_2<F, A1, B1, B2>)
    ensures
        p.f == f && p.before1 == before1 && p.after1 == after1 && p.after2 == after2,
{
    On1_2 { f, before1, after1, after2 }
}

impl<F, A1, B1, B2, T, R> Pipe<T, PipeKind> for On1_2<F, A1, B1, B2> where
    F: FnOnce(A1, T, B1, B2) -> R,
 {
    type Output = R;

    open spec fn completes(self, value: T) -> bool {
        call_requires(self.f, (self.before1, value, self.after1, self.after2))
    }

    /// The output is exactly what the target operation, called directly on
    /// the fixed arguments with `value` at the designated position, may
    /// return.
    open spec fn post(self, value: T, output: R) -> bool {
        call_ensures(self.f, (self.before1, value, self.after1, self.after2), output)
    }

    fn complete(self, value: T) -> (output: R) {
        (self.f)(self.before1, value, self.after1, self.after2)
    }
}


/// Completing `on2_1(f, a, b, c)` on `value` is the same as calling `f`
/// directly on `(a, b, value, c)`: the combinator admits exactly the outputs
/// of the direct call, and may be completed exactly where the direct call may
/// be made.
pub proof fn on2_1_is_direct_call<F, A1, A2, B1, T, R>(
    p: On2_1<F, A1, A2, B1>,
    value: T,
    output: R,
) where
    F: FnOnce(A1, A2, T, B1) -> R,

    ensures
        p.post(value, output) <==> call_ensures(p.f, (p.before1, p.before2, value, p.after1), output),
        p.completes(value) <==> call_requires(p.f, (p.before1, p.before2, value, p.after1)),
{
}

} // verus!
