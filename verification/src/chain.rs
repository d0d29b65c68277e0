//! Chain composition: a fixed-size ordered tuple of transformers is itself a
//! transformer. Its input type is the first element's input, its output type
//! is the last element's output, and completing it threads the item through
//! the elements in order. Arity 2 is the base case; each higher arity, up to
//! 16, composes its head with the chain of its tail, so nested tuples are
//! valid chains and chains nest to any depth.

use vstd::prelude::*;

use crate::{ChainKind, Pipe, PipeMut};

verus! {

impl<T, P1, P2, K1, K2> Pipe<T, ChainKind<K1, K2>> for (P1, P2) where
    P1: Pipe<T, K1>,
    P2: Pipe<P1::Output, K2>,
 {
    type Output = P2::Output;

    open spec fn completes(self, value: T) -> bool {
        self.0.completes(value) && forall|mid: P1::Output|
            self.0.post(value, mid) ==> self.1.completes(mid)
    }

    open spec fn post(self, value: T, output: P2::Output) -> bool {
        exists|mid: P1::Output| self.0.post(value, mid) && self.1.post(mid, output)
    }

    fn complete(self, value: T) -> (output: P2::Output) {
        let ghost start = value;
        let (p1, p2) = self;
        let mid = p1.complete(value);
        let ghost middle = mid;
        let output = p2.complete(mid);
        proof {
            assert(p1.post(start, middle) && p2.post(middle, output));
        }
        output
    }
}

/// A chain whose head acts on an exclusive view: the head receives the view,
/// and the rest of the chain threads the head's output as usual.
impl<T, P1, P2, K1, K2> PipeMut<T, ChainKind<K1, K2>> for (P1, P2) where
    P1: PipeMut<T, K1>,
    P2: Pipe<P1::Output, K2>,
 {
    type Output = P2::Output;

    open spec fn completes(self, value: T) -> bool {
        self.0.completes(value) && forall|new_value: T, mid: P1::Output|
            self.0.post(value, new_value, mid) ==> self.1.completes(mid)
    }

    open spec fn post(self, value: T, new_value: T, output: P2::Output) -> bool {
        exists|mid: P1::Output| self.0.post(value, new_value, mid) && self.1.post(mid, output)
    }

    fn complete_mut(self, value: &mut T) -> (output: P2::Output) {
        let (p1, p2) = self;
        let mid = p1.complete_mut(value);
        p2.complete(mid)
    }
}

impl<T, P1, P2, P3, K1, KT> Pipe<T, ChainKind<K1, KT>> for (P1, P2, P3) where
    P1: Pipe<T, K1>,
    (P2, P3): Pipe<P1::Output, KT>,
 {
    type Output = <(P2, P3) as Pipe<P1::Output, KT>>::Output;

    open spec fn completes(self, value: T) -> bool {
        (self.0, (self.1, self.2)).completes(value)
    }

    open spec fn post(self, value: T, output: Self::Output) -> bool {
        (self.0, (self.1, self.2)).post(value, output)
    }

    fn complete(self, value: T) -> (output: Self::Output) {
        let (p1, p2, p3) = self;
        (p1, (p2, p3)).complete(value)
    }
}

impl<T, P1, P2, P3, K1, KT> PipeMut<T, ChainKind<K1, KT>> for (P1, P2, P3) where
    P1: PipeMut<T, K1>,
    (P2, P3): Pipe<P1::Output, KT>,
 {
    type Output = <(P2, P3) as Pipe<P1::Output, KT>>::Output;

    open spec fn completes(self, value: T) -> bool {
        (self.0, (self.1, self.2)).completes(value)
    }

    open spec fn post(self, value: T, new_value: T, output: Self::Output) -> bool {
        (self.0, (self.1, self.2)).post(value, new_value, output)
    }

    fn complete_mut(self, value: &mut T) -> (output: Self::Output) {
        let (p1, p2, p3) = self;
        (p1, (p2, p3)).complete_mut(value)
    }
}

/// Chain composition is associative: threading a value through the chain
/// `(f, g, h)` admits exactly the same outputs, and is permitted on exactly
/// the same values, as threading it through `(f, (g, h))` or through
/// `((f, g), h)` — however a chain is regrouped by nesting, it stands for the
/// same transformer.
pub proof fn chain_associativity<T, P1, P2, P3, K1, K2, K3>(
    f: P1,
    g: P2,
    h: P3,
    value: T,
    output: P3::Output,
) where
    P1: Pipe<T, K1>,
    P2: Pipe<P1::Output, K2>,
    P3: Pipe<P2::Output, K3>,

    ensures
        (f, g, h).post(value, output) <==> (f, (g, h)).post(value, output),
        (f, g, h).post(value, output) <==> ((f, g), h).post(value, output),
        (f, g, h).completes(value) <==> (f, (g, h)).completes(value),
        (f, g, h).completes(value) <==> ((f, g), h).completes(value),
{
    if (f, (g, h)).post(value, output) {
        let m1 = choose|m1: P1::Output| f.post(value, m1) && (g, h).post(m1, output);
        let m2 = choose|m2: P2::Output| g.post(m1, m2) && h.post(m2, output);
        assert((f, g).post(value, m2)) by {
            assert(((f, g).0).post(value, m1) && ((f, g).1).post(m1, m2));
        }
        assert(((f, g), h).post(value, output)) by {
            assert((((f, g), h).0).post(value, m2) && (((f, g), h).1).post(m2, output));
        }
    }
    if ((f, g), h).post(value, output) {
        let n = choose|n: P2::Output| (f, g).post(value, n) && h.post(n, output);
        let m = choose|m: P1::Output| f.post(value, m) && g.post(m, n);
        assert((g, h).post(m, output)) by {
            assert(((g, h).0).post(m, n) && ((g, h).1).post(n, output));
        }
        assert((f, (g, h)).post(value, output)) by {
            assert(((f, (g, h)).0).post(value, m) && ((f, (g, h)).1).post(m, output));
        }
    }
    if (f, g, h).completes(value) {
        assert forall|n: P2::Output| (f, g).post(value, n) implies h.completes(n) by {
            let m = choose|m: P1::Output| f.post(value, m) && g.post(m, n);
            assert((g, h).completes(m));
        }
        assert(((f, g), h).completes(value));
    }
    if ((f, g), h).completes(value) {
        assert forall|m1: P1::Output| f.post(value, m1) implies (g, h).completes(m1) by {
            assert(g.completes(m1));
            assert forall|m2: P2::Output| g.post(m1, m2) implies h.completes(m2) by {
                assert((f, g).post(value, m2));
            }
        }
        assert((f, g, h).completes(value));
    }
}

impl<T, P1, P2, P3, P4, K1, KT> Pipe<T, ChainKind<K1, KT>> for (P1, P2, P3, P4) where
    P1: Pipe<T, K1>,
    (P2, P3, P4): Pipe<P1::Output, KT>,
 {
    type Output = <(P2, P3, P4) as Pipe<P1::Output, KT>>::Output;

    open spec fn completes(self, value: T) -> bool {
        (self.0, (self.1, self.2, self.3)).completes(value)
    }

    open spec fn post(self, value: T, output: Self::Output) -> bool {
        (self.0, (self.1, self.2, self.3)).post(value, output)
    }

    fn complete(self, value: T) -> (output: Self::Output) {
        let (p1, p2, p3, p4) = self;
        (p1, (p2, p3, p4)).complete(value)
    }
}

impl<T, P1, P2, P3, P4, K1, KT> PipeMut<T, ChainKind<K1, KT>> for (P1, P2, P3, P4) where
    P1: PipeMut<T, K1>,
    (P2, P3, P4): Pipe<P1::Output, KT>,
 {
    type Output = <(P2, P3, P4) as Pipe<P1::Output, KT>>::Output;

    open spec fn completes(self, value: T) -> bool {
        (self.0, (self.1, self.2, self.3)).completes(value)
    }

    open spec fn post(self, value: T, new_value: T, output: Self::Output) -> bool {
        (self.0, (self.1, self.2, self.3)).post(value, new_value, output)
    }

    fn complete_mut(self, value: &mut T) -> (output: Self::Output) {
        let (p1, p2, p3, p4) = self;
        (p1, (p2, p3, p4)).complete_mut(value)
    }
}

impl<T, P1, P2, P3, P4, P5, K1, KT> Pipe<T, ChainKind<K1, KT>> for (P1, P2, P3, P4, P5) where
    P1: Pipe<T, K1>,
    (P2, P3, P4, P5): Pipe<P1::Output, KT>,
 {
    type Output = <(P2, P3, P4, P5) as Pipe<P1::Output, KT>>::Output;

    open spec fn completes(self, value: T) -> bool {
        (self.0, (self.1, self.2, self.3, self.4)).completes(value)
    }

    open spec fn post(self, value: T, output: Self::Output) -> bool {
        (self.0, (self.1, self.2, self.3, self.4)).post(value, output)
    }

    fn complete(self, value: T) -> (output: Self::Output) {
        let (p1, p2, p3, p4, p5) = self;
        (p1, (p2, p3, p4, p5)).complete(value)
    }
}

impl<T, P1, P2, P3, P4, P5, K1, KT> PipeMut<T, ChainKind<K1, KT>> for (P1, P2, P3, P4, P5) where
    P1: PipeMut<T, K1>,
    (P2, P3, P4, P5): Pipe<P1::Output, KT>,
 {
    type Output = <(P2, P3, P4, P5) as Pipe<P1::Output, KT>>::Output;

    open spec fn completes(self, value: T) -> bool {
        (self.0, (self.1, self.2, self.3, self.4)).completes(value)
    }

    open spec fn post(self, value: T, new_value: T, output: Self::Output) -> bool {
        (self.0, (self.1, self.2, self.3, self.4)).post(value, new_value, output)
    }

    fn complete_mut(self, value: &mut T) -> (output: Self::Output) {
        let (p1, p2, p3, p4, p5) = self;
        (p1, (p2, p3, p4, p5)).complete_mut(value)
    }
}

impl<T, P1, P2, P3, P4, P5, P6, K1, KT> Pipe<T, ChainKind<K1, KT>> for (P1, P2, P3, P4, P5, P6) where
    P1: Pipe<T, K1>,
    (P2, P3, P4, P5, P6): Pipe<P1::Output, KT>,
 {
    type Output = <(P2, P3, P4, P5, P6) as Pipe<P1::Output, KT>>::Output;

    open spec fn completes(self, value: T) -> bool {
        (self.0, (self.1, self.2, self.3, self.4, self.5)).completes(value)
    }

    open spec fn post(self, value: T, output: Self::Output) -> bool {
        (self.0, (self.1, self.2, self.3, self.4, self.5)).post(value, output)
    }

    fn complete(self, value: T) -> (output: Self::Output) {
        let (p1, p2, p3, p4, p5, p6) = self;
        (p1, (p2, p3, p4, p5, p6)).complete(value)
    }
}

impl<T, P1, P2, P3, P4, P5, P6, K1, KT> PipeMut<T, ChainKind<K1, KT>> for (P1, P2, P3, P4, P5, P6) where
    P1: PipeMut<T, K1>,
    (P2, P3, P4, P5, P6): Pipe<P1::Output, KT>,
 {
    type Output = <(P2, P3, P4, P5, P6) as Pipe<P1::Output, KT>>::Output;

    open spec fn completes(self, value: T) -> bool {
        (self.0, (self.1, self.2, self.3, self.4, self.5)).completes(value)
    }

    open spec fn post(self, value: T, new_value: T, output: Self::Output) -> bool {
        (self.0, (self.1, self.2, self.3, self.4, self.5)).post(value, new_value, output)
    }

    fn complete_mut(self, value: &mut T) -> (output: Self::Output) {
        let (p1, p2, p3, p4, p5, p6) = self;
        (p1, (p2, p3, p4, p5, p6)).complete_mut(value)
    }
}

impl<T, P1, P2, P3, P4, P5, P6, P7, K1, KT> Pipe<T, ChainKind<K1, KT>> for (P1, P2, P3, P4, P5, P6, P7) where
    P1: Pipe<T, K1>,
    (P2, P3, P4, P5, P6, P7): Pipe<P1::Output, KT>,
 {
    type Output = <(P2, P3, P4, P5, P6, P7) as Pipe<P1::Output, KT>>::Output;

    open spec fn completes(self, value: T) -> bool {
        (self.0, (self.1, self.2, self.3, self.4, self.5, self.6)).completes(value)
    }

    open spec fn post(self, value: T, output: Self::Output) -> bool {
        (self.0, (self.1, self.2, self.3, self.4, self.5, self.6)).post(value, output)
    }

    fn complete(self, value: T) -> (output: Self::Output) {
        let (p1, p2, p3, p4, p5, p6, p7) = self;
        (p1, (p2, p3, p4, p5, p6, p7)).complete(value)
    }
}

impl<T, P1, P2, P3, P4, P5, P6, P7, K1, KT> PipeMut<T, ChainKind<K1, KT>> for (P1, P2, P3, P4, P5, P6, P7) where
    P1: PipeMut<T, K1>,
    (P2, P3, P4, P5, P6, P7): Pipe<P1::Output, KT>,
 {
    type Output = <(P2, P3, P4, P5, P6, P7) as Pipe<P1::Output, KT>>::Output;

    open spec fn completes(self, value: T) -> bool {
        (self.0, (self.1, self.2, self.3, self.4, self.5, self.6)).completes(value)
    }

    open spec fn post(self, value: T, new_value: T, output: Self::Output) -> bool {
        (self.0, (self.1, self.2, self.3, self.4, self.5, self.6)).post(value, new_value, output)
    }

    fn complete_mut(self, value: &mut T) -> (output: Self::Output) {
        let (p1, p2, p3, p4, p5, p6, p7) = self;
        (p1, (p2, p3, p4, p5, p6, p7)).complete_mut(value)
    }
}

impl<T, P1, P2, P3, P4, P5, P6, P7, P8, K1, KT> Pipe<T, ChainKind<K1, KT>> for (P1, P2, P3, P4, P5, P6, P7, P8) where
    P1: Pipe<T, K1>,
    (P2, P3, P4, P5, P6, P7, P8): Pipe<P1::Output, KT>,
 {
    type Output = <(P2, P3, P4, P5, P6, P7, P8) as Pipe<P1::Output, KT>>::Output;

    open spec fn completes(self, value: T) -> bool {
        (self.0, (self.1, self.2, self.3, self.4, self.5, self.6, self.7)).completes(value)
    }

    open spec fn post(self, value: T, output: Self::Output) -> bool {
        (self.0, (self.1, self.2, self.3, self.4, self.5, self.6, self.7)).post(value, output)
    }

    fn complete(self, value: T) -> (output: Self::Output) {
        let (p1, p2, p3, p4, p5, p6, p7, p8) = self;
        (p1, (p2, p3, p4, p5, p6, p7, p8)).complete(value)
    }
}

impl<T, P1, P2, P3, P4, P5, P6, P7, P8, K1, KT> PipeMut<T, ChainKind<K1, KT>> for (P1, P2, P3, P4, P5, P6, P7, P8) where
    P1: PipeMut<T, K1>,
    (P2, P3, P4, P5, P6, P7, P8): Pipe<P1::Output, KT>,
 {
    type Output = <(P2, P3, P4, P5, P6, P7, P8) as Pipe<P1::Output, KT>>::Output;

    open spec fn completes(self, value: T) -> bool {
        (self.0, (self.1, self.2, self.3, self.4, self.5, self.6, self.7)).completes(value)
    }

    open spec fn post(self, value: T, new_value: T, output: Self::Output) -> bool {
        (self.0, (self.1, self.2, self.3, self.4, self.5, self.6, self.7)).post(value, new_value, output)
    }

    fn complete_mut(self, value: &mut T) -> (output: Self::Output) {
        let (p1, p2, p3, p4, p5, p6, p7, p8) = self;
        (p1, (p2, p3, p4, p5, p6, p7, p8)).complete_mut(value)
    }
}

impl<T, P1, P2, P3, P4, P5, P6, P7, P8, P9, K1, KT> Pipe<T, ChainKind<K1, KT>> for (P1, P2, P3, P4, P5, P6, P7, P8, P9) where
    P1: Pipe<T, K1>,
    (P2, P3, P4, P5, P6, P7, P8, P9): Pipe<P1::Output, KT>,
 {
    type Output = <(P2, P3, P4, P5, P6, P7, P8, P9) as Pipe<P1::Output, KT>>::Output;

    open spec fn completes(self, value: T) -> bool {
        (self.0, (self.1, self.2, self.3, self.4, self.5, self.6, self.7, self.8)).completes(value)
    }

    open spec fn post(self, value: T, output: Self::Output) -> bool {
        (self.0, (self.1, self.2, self.3, self.4, self.5, self.6, self.7, self.8)).post(value, output)
    }

    fn complete(self, value: T) -> (output: Self::Output) {
        let (p1, p2, p3, p4, p5, p6, p7, p8, p9) = self;
        (p1, (p2, p3, p4, p5, p6, p7, p8, p9)).complete(value)
    }
}

impl<T, P1, P2, P3, P4, P5, P6, P7, P8, P9, K1, KT> PipeMut<T, ChainKind<K1, KT>> for (P1, P2, P3, P4, P5, P6, P7, P8, P9) where
    P1: PipeMut<T, K1>,
    (P2, P3, P4, P5, P6, P7, P8, P9): Pipe<P1::Output, KT>,
 {
    type Output = <(P2, P3, P4, P5, P6, P7, P8, P9) as Pipe<P1::Output, KT>>::Output;

    open spec fn completes(self, value: T) -> bool {
        (self.0, (self.1, self.2, self.3, self.4, self.5, self.6, self.7, self.8)).completes(value)
    }

    open spec fn post(self, value: T, new_value: T, output: Self::Output) -> bool {
        (self.0, (self.1, self.2, self.3, self.4, self.5, self.6, self.7, self.8)).post(value, new_value, output)
    }

    fn complete_mut(self, value: &mut T) -> (output: Self::Output) {
        let (p1, p2, p3, p4, p5, p6, p7, p8, p9) = self;
        (p1, (p2, p3, p4, p5, p6, p7, p8, p9)).complete_mut(value)
    }
}

impl<T, P1, P2, P3, P4, P5, P6, P7, P8, P9, P10, K1, KT> Pipe<T, ChainKind<K1, KT>> for (P1, P2, P3, P4, P5, P6, P7, P8, P9, P10) where
    P1: Pipe<T, K1>,
    (P2, P3, P4, P5, P6, P7, P8, P9, P10): Pipe<P1::Output, KT>,
 {
    type Output = <(P2, P3, P4, P5, P6, P7, P8, P9, P10) as Pipe<P1::Output, KT>>::Output;

    open spec fn completes(self, value: T) -> bool {
        (self.0, (self.1, self.2, self.3, self.4, self.5, self.6, self.7, self.8, self.9)).completes(value)
    }

    open spec fn post(self, value: T, output: Self::Output) -> bool {
        (self.0, (self.1, self.2, self.3, self.4, self.5, self.6, self.7, self.8, self.9)).post(value, output)
    }

    fn complete(self, value: T) -> (output: Self::Output) {
        let (p1, p2, p3, p4, p5, p6, p7, p8, p9, p10) = self;
        (p1, (p2, p3, p4, p5, p6, p7, p8, p9, p10)).complete(value)
    }
}

impl<T, P1, P2, P3, P4, P5, P6, P7, P8, P9, P10, K1, KT> PipeMut<T, ChainKind<K1, KT>> for (P1, P2, P3, P4, P5, P6, P7, P8, P9, P10) where
    P1: PipeMut<T, K1>,
    (P2, P3, P4, P5, P6, P7, P8, P9, P10): Pipe<P1::Output, KT>,
 {
    type Output = <(P2, P3, P4, P5, P6, P7, P8, P9, P10) as Pipe<P1::Output, KT>>::Output;

    open spec fn completes(self, value: T) -> bool {
        (self.0, (self.1, self.2, self.3, self.4, self.5, self.6, self.7, self.8, self.9)).completes(value)
    }

    open spec fn post(self, value: T, new_value: T, output: Self::Output) -> bool {
        (self.0, (self.1, self.2, self.3, self.4, self.5, self.6, self.7, self.8, self.9)).post(value, new_value, output)
    }

    fn complete_mut(self, value: &mut T) -> (output: Self::Output) {
        let (p1, p2, p3, p4, p5, p6, p7, p8, p9, p10) = self;
        (p1, (p2, p3, p4, p5, p6, p7, p8, p9, p10)).complete_mut(value)
    }
}

impl<T, P1, P2, P3, P4, P5, P6, P7, P8, P9, P10, P11, K1, KT> Pipe<T, ChainKind<K1, KT>> for (P1, P2, P3, P4, P5, P6, P7, P8, P9, P10, P11) where
    P1: Pipe<T, K1>,
    (P2, P3, P4, P5, P6, P7, P8, P9, P10, P11): Pipe<P1::Output, KT>,
 {
    type Output = <(P2, P3, P4, P5, P6, P7, P8, P9, P10, P11) as Pipe<P1::Output, KT>>::Output;

    open spec fn completes(self, value: T) -> bool {
        (self.0, (self.1, self.2, self.3, self.4, self.5, self.6, self.7, self.8, self.9, self.10)).completes(value)
    }

    open spec fn post(self, value: T, output: Self::Output) -> bool {
        (self.0, (self.1, self.2, self.3, self.4, self.5, self.6, self.7, self.8, self.9, self.10)).post(value, output)
    }

    fn complete(self, value: T) -> (output: Self::Output) {
        let (p1, p2, p3, p4, p5, p6, p7, p8, p9, p10, p11) = self;
        (p1, (p2, p3, p4, p5, p6, p7, p8, p9, p10, p11)).complete(value)
    }
}

impl<T, P1, P2, P3, P4, P5, P6, P7, P8, P9, P10, P11, K1, KT> PipeMut<T, ChainKind<K1, KT>> for (P1, P2, P3, P4, P5, P6, P7, P8, P9, P10, P11) where
    P1: PipeMut<T, K1>,
    (P2, P3, P4, P5, P6, P7, P8, P9, P10, P11): Pipe<P1::Output, KT>,
 {
    type Output = <(P2, P3, P4, P5, P6, P7, P8, P9, P10, P11) as Pipe<P1::Output, KT>>::Output;

    open spec fn completes(self, value: T) -> bool {
        (self.0, (self.1, self.2, self.3, self.4, self.5, self.6, self.7, self.8, self.9, self.10)).completes(value)
    }

    open spec fn post(self, value: T, new_value: T, output: Self::Output) -> bool {
        (self.0, (self.1, self.2, self.3, self.4, self.5, self.6, self.7, self.8, self.9, self.10)).post(value, new_value, output)
    }

    fn complete_mut(self, value: &mut T) -> (output: Self::Output) {
        let (p1, p2, p3, p4, p5, p6, p7, p8, p9, p10, p11) = self;
        (p1, (p2, p3, p4, p5, p6, p7, p8, p9, p10, p11)).complete_mut(value)
    }
}

impl<T, P1, P2, P3, P4, P5, P6, P7, P8, P9, P10, P11, P12, K1, KT> Pipe<T, ChainKind<K1, KT>> for (P1, P2, P3, P4, P5, P6, P7, P8, P9, P10, P11, P12) where
    P1: Pipe<T, K1>,
    (P2, P3, P4, P5, P6, P7, P8, P9, P10, P11, P12): Pipe<P1::Output, KT>,
 {
    type Output = <(P2, P3, P4, P5, P6, P7, P8, P9, P10, P11, P12) as Pipe<P1::Output, KT>>::Output;

    open spec fn completes(self, value: T) -> bool {
        (self.0, (self.1, self.2, self.3, self.4, self.5, self.6, self.7, self.8, self.9, self.10, self.11)).completes(value)
    }

    open spec fn post(self, value: T, output: Self::Output) -> bool {
        (self.0, (self.1, self.2, self.3, self.4, self.5, self.6, self.7, self.8, self.9, self.10, self.11)).post(value, output)
    }

    fn complete(self, value: T) -> (output: Self::Output) {
        let (p1, p2, p3, p4, p5, p6, p7, p8, p9, p10, p11, p12) = self;
        (p1, (p2, p3, p4, p5, p6, p7, p8, p9, p10, p11, p12)).complete(value)
    }
}

impl<T, P1, P2, P3, P4, P5, P6, P7, P8, P9, P10, P11, P12, K1, KT> PipeMut<T, ChainKind<K1, KT>> for (P1, P2, P3, P4, P5, P6, P7, P8, P9, P10, P11, P12) where
    P1: PipeMut<T, K1>,
    (P2, P3, P4, P5, P6, P7, P8, P9, P10, P11, P12): Pipe<P1::Output, KT>,
 {
    type Output = <(P2, P3, P4, P5, P6, P7, P8, P9, P10, P11, P12) as Pipe<P1::Output, KT>>::Output;

    open spec fn completes(self, value: T) -> bool {
        (self.0, (self.1, self.2, self.3, self.4, self.5, self.6, self.7, self.8, self.9, self.10, self.11)).completes(value)
    }

    open spec fn post(self, value: T, new_value: T, output: Self::Output) -> bool {
        (self.0, (self.1, self.2, self.3, self.4, self.5, self.6, self.7, self.8, self.9, self.10, self.11)).post(value, new_value, output)
    }

    fn complete_mut(self, value: &mut T) -> (output: Self::Output) {
        let (p1, p2, p3, p4, p5, p6, p7, p8, p9, p10, p11, p12) = self;
        (p1, (p2, p3, p4, p5, p6, p7, p8, p9, p10, p11, p12)).complete_mut(value)
    }
}

impl<T, P1, P2, P3, P4, P5, P6, P7, P8, P9, P10, P11, P12, P13, K1, KT> Pipe<T, ChainKind<K1, KT>> for (P1, P2, P3, P4, P5, P6, P7, P8, P9, P10, P11, P12, P13) where
    P1: Pipe<T, K1>,
    (P2, P3, P4, P5, P6, P7, P8, P9, P10, P11, P12, P13): Pipe<P1::Output, KT>,
 {
    type Output = <(P2, P3, P4, P5, P6, P7, P8, P9, P10, P11, P12, P13) as Pipe<P1::Output, KT>>::Output;

    open spec fn completes(self, value: T) -> bool {
        (self.0, (self.1, self.2, self.3, self.4, self.5, self.6, self.7, self.8, self.9, self.10, self.11, self.12)).completes(value)
    }

    open spec fn post(self, value: T, output: Self::Output) -> bool {
        (self.0, (self.1, self.2, self.3, self.4, self.5, self.6, self.7, self.8, self.9, self.10, self.11, self.12)).post(value, output)
    }

    fn complete(self, value: T) -> (output: Self::Output) {
        let (p1, p2, p3, p4, p5, p6, p7, p8, p9, p10, p11, p12, p13) = self;
        (p1, (p2, p3, p4, p5, p6, p7, p8, p9, p10, p11, p12, p13)).complete(value)
    }
}

impl<T, P1, P2, P3, P4, P5, P6, P7, P8, P9, P10, P11, P12, P13, K1, KT> PipeMut<T, ChainKind<K1, KT>> for (P1, P2, P3, P4, P5, P6, P7, P8, P9, P10, P11, P12, P13) where
    P1: PipeMut<T, K1>,
    (P2, P3, P4, P5, P6, P7, P8, P9, P10, P11, P12, P13): Pipe<P1::Output, KT>,
 {
    type Output = <(P2, P3, P4, P5, P6, P7, P8, P9, P10, P11, P12, P13) as Pipe<P1::Output, KT>>::Output;

    open spec fn completes(self, value: T) -> bool {
        (self.0, (self.1, self.2, self.3, self.4, self.5, self.6, self.7, self.8, self.9, self.10, self.11, self.12)).completes(value)
    }

    open spec fn post(self, value: T, new_value: T, output: Self::Output) -> bool {
        (self.0, (self.1, self.2, self.3, self.4, self.5, self.6, self.7, self.8, self.9, self.10, self.11, self.12)).post(value, new_value, output)
    }

    fn complete_mut(self, value: &mut T) -> (output: Self::Output) {
        let (p1, p2, p3, p4, p5, p6, p7, p8, p9, p10, p11, p12, p13) = self;
        (p1, (p2, p3, p4, p5, p6, p7, p8, p9, p10, p11, p12, p13)).complete_mut(value)
    }
}

impl<T, P1, P2, P3, P4, P5, P6, P7, P8, P9, P10, P11, P12, P13, P14, K1, KT> Pipe<T, ChainKind<K1, KT>> for (P1, P2, P3, P4, P5, P6, P7, P8, P9, P10, P11, P12, P13, P14) where
    P1: Pipe<T, K1>,
    (P2, P3, P4, P5, P6, P7, P8, P9, P10, P11, P12, P13, P14): Pipe<P1::Output, KT>,
 {
    type Output = <(P2, P3, P4, P5, P6, P7, P8, P9, P10, P11, P12, P13, P14) as Pipe<P1::Output, KT>>::Output;

    open spec fn completes(self, value: T) -> bool {
        (self.0, (self.1, self.2, self.3, self.4, self.5, self.6, self.7, self.8, self.9, self.10, self.11, self.12, self.13)).completes(value)
    }

    open spec fn post(self, value: T, output: Self::Output) -> bool {
        (self.0, (self.1, self.2, self.3, self.4, self.5, self.6, self.7, self.8, self.9, self.10, self.11, self.12, self.13)).post(value, output)
    }

    fn complete(self, value: T) -> (output: Self::Output) {
        let (p1, p2, p3, p4, p5, p6, p7, p8, p9, p10, p11, p12, p13, p14) = self;
        (p1, (p2, p3, p4, p5, p6, p7, p8, p9, p10, p11, p12, p13, p14)).complete(value)
    }
}

impl<T, P1, P2, P3, P4, P5, P6, P7, P8, P9, P10, P11, P12, P13, P14, K1, KT> PipeMut<T, ChainKind<K1, KT>> for (P1, P2, P3, P4, P5, P6, P7, P8, P9, P10, P11, P12, P13, P14) where
    P1: PipeMut<T, K1>,
    (P2, P3, P4, P5, P6, P7, P8, P9, P10, P11, P12, P13, P14): Pipe<P1::Output, KT>,
 {
    type Output = <(P2, P3, P4, P5, P6, P7, P8, P9, P10, P11, P12, P13, P14) as Pipe<P1::Output, KT>>::Output;

    open spec fn completes(self, value: T) -> bool {
        (self.0, (self.1, self.2, self.3, self.4, self.5, self.6, self.7, self.8, self.9, self.10, self.11, self.12, self.13)).completes(value)
    }

    open spec fn post(self, value: T, new_value: T, output: Self::Output) -> bool {
        (self.0, (self.1, self.2, self.3, self.4, self.5, self.6, self.7, self.8, self.9, self.10, self.11, self.12, self.13)).post(value, new_value, output)
    }

    fn complete_mut(self, value: &mut T) -> (output: Self::Output) {
        let (p1, p2, p3, p4, p5, p6, p7, p8, p9, p10, p11, p12, p13, p14) = self;
        (p1, (p2, p3, p4, p5, p6, p7, p8, p9, p10, p11, p12, p13, p14)).complete_mut(value)
    }
}

impl<T, P1, P2, P3, P4, P5, P6, P7, P8, P9, P10, P11, P12, P13, P14, P15, K1, KT> Pipe<T, ChainKind<K1, KT>> for (P1, P2, P3, P4, P5, P6, P7, P8, P9, P10, P11, P12, P13, P14, P15) where
    P1: Pipe<T, K1>,
    (P2, P3, P4, P5, P6, P7, P8, P9, P10, P11, P12, P13, P14, P15): Pipe<P1::Output, KT>,
 {
    type Output = <(P2, P3, P4, P5, P6, P7, P8, P9, P10, P11, P12, P13, P14, P15) as Pipe<P1::Output, KT>>::Output;

    open spec fn completes(self, value: T) -> bool {
        (self.0, (self.1, self.2, self.3, self.4, self.5, self.6, self.7, self.8, self.9, self.10, self.11, self.12, self.13, self.14)).completes(value)
    }

    open spec fn post(self, value: T, output: Self::Output) -> bool {
        (self.0, (self.1, self.2, self.3, self.4, self.5, self.6, self.7, self.8, self.9, self.10, self.11, self.12, self.13, self.14)).post(value, output)
    }

    fn complete(self, value: T) -> (output: Self::Output) {
        let (p1, p2, p3, p4, p5, p6, p7, p8, p9, p10, p11, p12, p13, p14, p15) = self;
        (p1, (p2, p3, p4, p5, p6, p7, p8, p9, p10, p11, p12, p13, p14, p15)).complete(value)
    }
}

impl<T, P1, P2, P3, P4, P5, P6, P7, P8, P9, P10, P11, P12, P13, P14, P15, K1, KT> PipeMut<T, ChainKind<K1, KT>> for (P1, P2, P3, P4, P5, P6, P7, P8, P9, P10, P11, P12, P13, P14, P15) where
    P1: PipeMut<T, K1>,
    (P2, P3, P4, P5, P6, P7, P8, P9, P10, P11, P12, P13, P14, P15): Pipe<P1::Output, KT>,
 {
    type Output = <(P2, P3, P4, P5, P6, P7, P8, P9, P10, P11, P12, P13, P14, P15) as Pipe<P1::Output, KT>>::Output;

    open spec fn completes(self, value: T) -> bool {
        (self.0, (self.1, self.2, self.3, self.4, self.5, self.6, self.7, self.8, self.9, self.10, self.11, self.12, self.13, self.14)).completes(value)
    }

    open spec fn post(self, value: T, new_value: T, output: Self::Output) -> bool {
        (self.0, (self.1, self.2, self.3, self.4, self.5, self.6, self.7, self.8, self.9, self.10, self.11, self.12, self.13, self.14)).post(value, new_value, output)
    }

    fn complete_mut(self, value: &mut T) -> (output: Self::Output) {
        let (p1, p2, p3, p4, p5, p6, p7, p8, p9, p10, p11, p12, p13, p14, p15) = self;
        (p1, (p2, p3, p4, p5, p6, p7, p8, p9, p10, p11, p12, p13, p14, p15)).complete_mut(value)
    }
}

impl<T, P1, P2, P3, P4, P5, P6, P7, P8, P9, P10, P11, P12, P13, P14, P15, P16, K1, KT> Pipe<T, ChainKind<K1, KT>> for (P1, P2, P3, P4, P5, P6, P7, P8, P9, P10, P11, P12, P13, P14, P15, P16) where
    P1: Pipe<T, K1>,
    (P2, P3, P4, P5, P6, P7, P8, P9, P10, P11, P12, P13, P14, P15, P16): Pipe<P1::Output, KT>,
 {
    type Output = <(P2, P3, P4, P5, P6, P7, P8, P9, P10, P11, P12, P13, P14, P15, P16) as Pipe<P1::Output, KT>>::Output;

    open spec fn completes(self, value: T) -> bool {
        (self.0, (self.1, self.2, self.3, self.4, self.5, self.6, self.7, self.8, self.9, self.10, self.11, self.12, self.13, self.14, self.15)).completes(value)
    }

    open spec fn post(self, value: T, output: Self::Output) -> bool {
        (self.0, (self.1, self.2, self.3, self.4, self.5, self.6, self.7, self.8, self.9, self.10, self.11, self.12, self.13, self.14, self.15)).post(value, output)
    }

    fn complete(self, value: T) -> (output: Self::Output) {
        let (p1, p2, p3, p4, p5, p6, p7, p8, p9, p10, p11, p12, p13, p14, p15, p16) = self;
        (p1, (p2, p3, p4, p5, p6, p7, p8, p9, p10, p11, p12, p13, p14, p15, p16)).complete(value)
    }
}

impl<T, P1, P2, P3, P4, P5, P6, P7, P8, P9, P10, P11, P12, P13, P14, P15, P16, K1, KT> PipeMut<T, ChainKind<K1, KT>> for (P1, P2, P3, P4, P5, P6, P7, P8, P9, P10, P11, P12, P13, P14, P15, P16) where
    P1: PipeMut<T, K1>,
    (P2, P3, P4, P5, P6, P7, P8, P9, P10, P11, P12, P13, P14, P15, P16): Pipe<P1::Output, KT>,
 {
    type Output = <(P2, P3, P4, P5, P6, P7, P8, P9, P10, P11, P12, P13, P14, P15, P16) as Pipe<P1::Output, KT>>::Output;

    open spec fn completes(self, value: T) -> bool {
        (self.0, (self.1, self.2, self.3, self.4, self.5, self.6, self.7, self.8, self.9, self.10, self.11, self.12, self.13, self.14, self.15)).completes(value)
    }

    open spec fn post(self, value: T, new_value: T, output: Self::Output) -> bool {
        (self.0, (self.1, self.2, self.3, self.4, self.5, self.6, self.7, self.8, self.9, self.10, self.11, self.12, self.13, self.14, self.15)).post(value, new_value, output)
    }

    fn complete_mut(self, value: &mut T) -> (output: Self::Output) {
        let (p1, p2, p3, p4, p5, p6, p7, p8, p9, p10, p11, p12, p13, p14, p15, p16) = self;
        (p1, (p2, p3, p4, p5, p6, p7, p8, p9, p10, p11, p12, p13, p14, p15, p16)).complete_mut(value)
    }
}

} // verus!
