//! A function-composition toolkit: a value is threaded through a sequence of
//! transformation steps, each step a [`Pipe`], while every intermediate value
//! keeps its static type. Tuples of transformers compose into chains, and the
//! side-effect combinators ([`also::also`], [`also::also_mut`],
//! [`take_if::take_if`], [`void::Voidable`]) and the partial-application
//! combinators ([`on`]) all construct transformers themselves, so they compose
//! transparently into larger chains.

pub mod also;
pub mod chain;
pub mod on;
pub mod take_if;
pub mod void;

use vstd::prelude::*;

verus! {

/// Marker for the callable kind of transformer: plain functions and closures.
///
/// Kind markers partition the transformer implementations into disjoint
/// families, so that a concrete type is recognized as a transformer through
/// exactly one path and automatic adaptation of callables never collides with
/// the dedicated combinator types.
pub struct FnKind;

/// Marker for the combinator kind of transformer: a self-contained pipe value
/// such as [`void::void`], one of the [`on`] combinators, or a hand-written
/// transformer.
pub struct PipeKind;

/// Marker for a chain whose head has kind `KHead` and whose tail, the rest of
/// the chain, has kind `KTail`.
pub struct ChainKind<KHead, KTail>(core::marker::PhantomData<(KHead, KTail)>);

/// Marker for a combinator that wraps one inner transformer of kind `K`.
pub struct WrapKind<K>(core::marker::PhantomData<K>);

/// A transformer: a single-use unit that consumes an item of type `T` and
/// produces an output.
///
/// The behaviour of a transformer is given by two relations: [`Pipe::completes`]
/// says on which items it may be completed, and [`Pipe::post`] says which
/// outputs it may produce from an item. [`Pipe::complete`] is the one
/// operation: it consumes the transformer and the item and returns an output
/// that the relation admits.
pub trait Pipe<T, Kind = PipeKind>: Sized {
    type Output;

    /// On which items this transformer may be completed. An implementation
    /// that leaves the default must be completable on every item.
    open spec fn completes(self, value: T) -> bool {
        true
    }

    /// Which outputs this transformer may produce from `value`. The default
    /// promises nothing of the output.
    open spec fn post(self, value: T, output: Self::Output) -> bool {
        true
    }

    /// Complete the pipe: consume the transformer and the item, produce the
    /// output.
    fn complete(self, value: T) -> (output: Self::Output)
        requires
            self.completes(value),
        ensures
            self.post(value, output),
    ;
}

/// A transformer acting on an exclusive view of an item: it may replace the
/// value behind the reference while producing its output.
///
/// [`PipeMut::post`] relates the starting value, the value left behind the
/// reference, and the output.
pub trait PipeMut<T, Kind = PipeKind>: Sized {
    type Output;

    /// On which starting values this transformer may be completed. An
    /// implementation that leaves the default must be completable on every
    /// starting value.
    open spec fn completes(self, value: T) -> bool {
        true
    }

    /// Which pairs of final value and output this transformer may produce
    /// from the starting value `value`. The default promises nothing.
    open spec fn post(self, value: T, new_value: T, output: Self::Output) -> bool {
        true
    }

    /// Complete the pipe on an exclusive view of the item.
    fn complete_mut(self, value: &mut T) -> (output: Self::Output)
        requires
            self.completes(*old(value)),
        ensures
            self.post(*old(value), *final(value), output),
    ;
}

impl<F, T, R> Pipe<T, FnKind> for F where F: FnOnce(T) -> R {
    type Output = R;

    open spec fn completes(self, value: T) -> bool {
        call_requires(self, (value,))
    }

    open spec fn post(self, value: T, output: R) -> bool {
        call_ensures(self, (value,), output)
    }

    fn complete(self, value: T) -> (output: R) {
        self(value)
    }
}

/// Piping a value through a single callable step is the same as calling the
/// callable directly: as a transformer, the callable may be completed exactly
/// where the direct call may be made, and it admits exactly the outputs that
/// the direct call admits.
pub proof fn single_step_is_direct_call<F, T, R>(f: F, value: T, output: R) where
    F: FnOnce(T) -> R,

    ensures
        f.completes(value) <==> call_requires(f, (value,)),
        f.post(value, output) <==> call_ensures(f, (value,), output),
{
}

/// Wraps a value so that it can be threaded into a transformer; the chaining
/// operation returns the transformer's output.
pub struct PartialPipeline<T> {
    inner: T,
}

/// The same as [`PartialPipeline`], except that the result of the chaining
/// operation is discarded and replaced with the unit value, so that a pipeline
/// run purely for effect raises no unused-result diagnostics.
pub struct PartialIgnoredPipeline<T> {
    inner: T,
}

impl<T> PartialPipeline<T> {
    /// The wrapped value.
    pub closed spec fn value(self) -> T {
        self.inner
    }

    /// Feed the wrapped value to a transformer and return its output.
    ///
    /// Feeding a value through one single transformer is the same as
    /// completing that transformer on the value directly: this function
    /// promises exactly `pipe.post`, the relation that [`Pipe::complete`]
    /// itself promises.
    pub fn shr<P, K>(self, pipe: P) -> (output: P::Output) where P: Pipe<T, K>
        requires
            pipe.completes(self.value()),
        ensures
            pipe.post(self.value(), output),
    {
        pipe.complete(self.inner)
    }

    /// Turn this pipeline into one whose chained result will be discarded.
    pub fn ignore(self) -> (p: PartialIgnoredPipeline<T>)
        ensures
            p.value() == self.value(),
    {
        PartialIgnoredPipeline { inner: self.inner }
    }
}

impl<T> PartialIgnoredPipeline<T> {
    /// The wrapped value.
    pub closed spec fn value(self) -> T {
        self.inner
    }

    /// Feed the wrapped value to a transformer, completing it purely for its
    /// effect: the transformer's output is discarded and the unit value is
    /// returned instead.
    pub fn shr<P, K>(self, pipe: P) where P: Pipe<T, K>
        requires
            pipe.completes(self.value()),
        ensures
            exists|output: P::Output| pipe.post(self.value(), output),
    {
        let output = pipe.complete(self.inner);
        proof {
            assert(pipe.post(self.value(), output));
        }
    }
}

/// Make a partial pipeline by wrapping a value.
pub fn pipe<T>(inner: T) -> (p: PartialPipeline<T>)
    ensures
        p.value() == inner,
{
    PartialPipeline { inner }
}

/// Make a partial ignored pipeline: whatever the chained transformer outputs,
/// the pipeline's result is the unit value.
pub fn ignore<T>(inner: T) -> (p: PartialIgnoredPipeline<T>)
    ensures
        p.value() == inner,
{
    PartialIgnoredPipeline { inner }
}

} // verus!
