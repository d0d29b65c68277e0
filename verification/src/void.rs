//! The `void` combinators: transformers whose output is forced to the unit
//! value. [`void`] is a zero-size no-op transformer, usable for any of the
//! three item shapes (owned value, shared view, exclusive view) that its mode
//! marker selects; [`Voidable::void`] wraps an arbitrary transformer in a
//! [`VoidInner`] adapter that computes and then discards its real output.

use vstd::prelude::*;

use crate::{Pipe, PipeKind, PipeMut, WrapKind};

verus! {

/// Borrow-scope marker: the transformer acts on the owned item itself.
pub struct Owned;

/// Borrow-scope marker: the transformer acts on a shared view of the item.
pub struct Shared;

/// Borrow-scope marker: the transformer acts on an exclusive view of the
/// item.
pub struct Exclusive;

/// A reusable no-op transformer: it accepts an item of type `T` — owned, as a
/// shared view, or as an exclusive view, according to `Mode` — and discards
/// it, producing the unit value.
#[allow(non_camel_case_types)]
pub struct void<T, Mode> {
    _t: core::marker::PhantomData<(T, Mode)>,
}

impl<T, Mode> void<T, Mode> {
    /// Make the no-op transformer; it carries no data.
    pub fn new() -> Self {
        void { _t: core::marker::PhantomData }
    }
}

impl<T> Pipe<T, PipeKind> for void<T, Owned> {
    type Output = ();

    open spec fn completes(self, value: T) -> bool {
        true
    }

    open spec fn post(self, value: T, output: ()) -> bool {
        true
    }

    fn complete(self, value: T) -> (output: ()) {
    }
}

impl<'r, T> Pipe<&'r T, PipeKind> for void<T, Shared> {
    type Output = ();

    open spec fn completes(self, value: &'r T) -> bool {
        true
    }

    open spec fn post(self, value: &'r T, output: ()) -> bool {
        true
    }

    fn complete(self, value: &'r T) -> (output: ()) {
    }
}

/// The no-op on an exclusive view leaves the value behind the view unchanged.
impl<T> PipeMut<T, PipeKind> for void<T, Exclusive> {
    type Output = ();

    open spec fn completes(self, value: T) -> bool {
        true
    }

    open spec fn post(self, value: T, new_value: T, output: ()) -> bool {
        new_value == value
    }

    fn complete_mut(self, value: &mut T) -> (output: ()) {
    }
}

/// Wraps any transformer into one with output type forced to unit: the
/// wrapped transformer's real output is computed and then discarded.
pub struct VoidInner<P, T, R> {
    pipe: P,
    _t: core::marker::PhantomData<(T, R)>,
}

impl<P, T, R> VoidInner<P, T, R> {
    /// The wrapped transformer.
    pub closed spec fn inner(self) -> P {
        self.pipe
    }
}

impl<P, T, R, K> Pipe<T, WrapKind<K>> for VoidInner<P, T, R> where P: Pipe<T, K, Output = R> {
    type Output = ();

    open spec fn completes(self, value: T) -> bool {
        self.inner().completes(value)
    }

    /// The output is always the unit value; some output of the wrapped
    /// transformer was produced and discarded.
    open spec fn post(self, value: T, output: ()) -> bool {
        exists|discarded: R| self.inner().post(value, discarded)
    }

    fn complete(self, value: T) -> (output: ()) {
        let ghost this = self;
        let ghost start = value;
        let discarded = self.pipe.complete(value);
        proof {
            assert(this.inner().post(start, discarded));
        }
    }
}

/// Voiding always yields the unit result: every output a voided transformer
/// admits is the unit value, whatever the wrapped transformer's own output
/// type was.
pub proof fn void_yields_unit<P, T, R, K>(v: VoidInner<P, T, R>, value: T, output: ()) where
    P: Pipe<T, K, Output = R>,

    ensures
        v.post(value, output) ==> output == (),
{
}

/// Every transformer can be voided: `p.void()` is `p` with its output
/// discarded and replaced by the unit value.
pub trait Voidable<T, R, K>: Sized {
    /// Wrap this transformer so that its output is discarded.
    fn void(self) -> (v: VoidInner<Self, T, R>)
        ensures
            v.inner() == self,
    ;
}

impl<P, T, R, K> Voidable<T, R, K> for P where P: Pipe<T, K, Output = R> {
    fn void(self) -> (v: VoidInner<P, T, R>) {
        VoidInner { pipe: self, _t: core::marker::PhantomData }
    }
}

} // verus!
