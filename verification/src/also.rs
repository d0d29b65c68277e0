//! The `also` side-effect combinators: run an inner transformer on a view of
//! the item purely for its effect, then hand the item itself on. [`also`]
//! derives a shared view, so the item is returned unchanged; [`also_mut`]
//! derives an exclusive view, so the item returned is whatever the inner
//! transformer left behind the view.

use vstd::prelude::*;

use crate::{Pipe, PipeMut, WrapKind};

verus! {

/// Runs an inner transformer on a shared view of the item purely for effect,
/// then returns the item itself unchanged.
pub struct Also<P, T> {
    pipe: P,
    _t: core::marker::PhantomData<T>,
}

impl<P, T> Also<P, T> {
    /// The wrapped inner transformer.
    pub closed spec fn inner(self) -> P {
        self.pipe
    }
}

/// Wrap a transformer that observes a shared view of an item, making a
/// transformer that feeds the view to it and returns the item unchanged.
pub fn also<P, T, K>(pipe: P) -> (a: Also<P, T>) where
    P: for<'r> Pipe<&'r T, K, Output = ()>,

    ensures
        a.inner() == pipe,
{
    Also { pipe, _t: core::marker::PhantomData }
}

impl<P, T, K> Pipe<T, WrapKind<K>> for Also<P, T> where
    P: for<'r> Pipe<&'r T, K, Output = ()>,
 {
    type Output = T;

    open spec fn completes(self, value: T) -> bool {
        self.inner().completes(&value)
    }

    open spec fn post(self, value: T, output: T) -> bool {
        output == value && self.inner().post(&value, ())
    }

    fn complete(self, value: T) -> (output: T) {
        self.pipe.complete(&value);
        value
    }
}

/// `also` never changes the pipelined value: whatever the inner transformer
/// observes through its shared view, every output that an [`Also`]
/// transformer admits is exactly the value it was given.
pub proof fn also_preserves_value<P, T, K>(a: Also<P, T>, value: T, output: T) where
    P: for<'r> Pipe<&'r T, K, Output = ()>,

    ensures
        a.post(value, output) ==> output == value,
{
}

/// Runs an inner transformer on an exclusive view of the item for effect,
/// then returns the item, with whatever the inner transformer left behind the
/// view.
pub struct AlsoMut<P, T> {
    pipe: P,
    _t: core::marker::PhantomData<T>,
}

impl<P, T> AlsoMut<P, T> {
    /// The wrapped inner transformer.
    pub closed spec fn inner(self) -> P {
        self.pipe
    }
}

/// Wrap a transformer that acts on an exclusive view of an item, making a
/// transformer that feeds the view to it and returns the item.
pub fn also_mut<P, T, K>(pipe: P) -> (a: AlsoMut<P, T>) where
    P: PipeMut<T, K, Output = ()>,

    ensures
        a.inner() == pipe,
{
    AlsoMut { pipe, _t: core::marker::PhantomData }
}

impl<P, T, K> Pipe<T, WrapKind<K>> for AlsoMut<P, T> where P: PipeMut<T, K, Output = ()> {
    type Output = T;

    open spec fn completes(self, value: T) -> bool {
        self.inner().completes(value)
    }

    open spec fn post(self, value: T, output: T) -> bool {
        self.inner().post(value, output, ())
    }

    fn complete(self, value: T) -> (output: T) {
        let mut value = value;
        self.pipe.complete_mut(&mut value);
        value
    }
}

} // verus!
