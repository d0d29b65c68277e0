//! The `take_if` combinator: evaluate a predicate transformer on a shared
//! view of the item, and keep the item exactly when the predicate holds.

use vstd::prelude::*;

use crate::{Pipe, WrapKind};

verus! {

/// Keeps or drops the item according to an inner predicate transformer that
/// observes a shared view of it. The item is never changed: it is either
/// returned as it came, or dropped.
pub struct TakeIf<P, T> {
    pipe: P,
    _t: core::marker::PhantomData<T>,
}

impl<P, T> TakeIf<P, T> {
    /// The wrapped predicate transformer.
    pub closed spec fn inner(self) -> P {
        self.pipe
    }
}

/// Wrap a predicate transformer over a shared view of an item, making a
/// transformer that returns the item unchanged when the predicate yields
/// true, and nothing when it yields false.
pub fn take_if<P, T, K>(pipe: P) -> (t: TakeIf<P, T>) where
    P: for<'r> Pipe<&'r T, K, Output = bool>,

    ensures
        t.inner() == pipe,
{
    TakeIf { pipe, _t: core::marker::PhantomData }
}

impl<P, T, K> Pipe<T, WrapKind<K>> for TakeIf<P, T> where
    P: for<'r> Pipe<&'r T, K, Output = bool>,
 {
    type Output = Option<T>;

    open spec fn completes(self, value: T) -> bool {
        self.inner().completes(&value)
    }

    /// The item is kept, unchanged, exactly when the predicate yielded true.
    open spec fn post(self, value: T, output: Option<T>) -> bool {
        match output {
            Some(kept) => kept == value && self.inner().post(&value, true),
            None => self.inner().post(&value, false),
        }
    }

    fn complete(self, value: T) -> (output: Option<T>) {
        if self.pipe.complete(&value) {
            Some(value)
        } else {
            None
        }
    }
}

/// `take_if` keeps exactly when the predicate may yield true, drops exactly
/// when it may yield false, and never yields a changed value: every kept
/// output is the value the transformer was given.
pub proof fn take_if_keeps_iff<P, T, K>(t: TakeIf<P, T>, value: T, kept: T) where
    P: for<'r> Pipe<&'r T, K, Output = bool>,

    ensures
        t.post(value, Some(kept)) ==> kept == value,
        t.post(value, Some(value)) <==> t.inner().post(&value, true),
        t.post(value, None) <==> t.inner().post(&value, false),
{
}

} // verus!
