use core::marker::PhantomData;
use vstd::prelude::*;

use crate::StaticFn;

verus! {

/// Which of the three representations a stored callable uses.
#[derive(Clone, Copy, Debug, PartialEq, Eq, Structural)]
pub enum Encoding {
    /// The callable's state sits directly in the container.
    Inline,
    /// The callable's state sits in one owned heap allocation.
    Heap,
    /// The callable has no state; its type alone names it.
    Static,
}

/// A callable held behind one owned heap allocation.
pub struct Boxed<T>(pub Box<T>);

/// A stateless callable, known by its type alone.
pub struct Static<T>(pub PhantomData<T>);

/// A callable held by value.
pub struct Trait<T>(pub T);

/// A callable in the encoding that the size test picked: inline or behind the heap.
pub enum Payload<F> {
    Inline(Trait<F>),
    Heap(Boxed<F>),
}

/// What every stored callable exposes: its encoding and the contract of a call on it.
pub trait Encoded<A, O> {
    /// The representation this payload uses.
    spec fn kind(&self) -> Encoding;

    /// What a call with `args` needs.
    spec fn call_pre(&self, args: A) -> bool;

    /// What a call with `args` promises of its result `out`.
    spec fn call_post(&self, args: A, out: O) -> bool;

    /// Reports the representation this payload uses.
    fn encoding(&self) -> (e: Encoding)
        ensures
            e == self.kind(),
    ;
}

/// Invocation that consumes the stored callable.
pub trait CallRawOnce<A, O>: Encoded<A, O> + Sized {
    fn call_raw_once(self, args: A) -> (out: O)
        requires
            self.call_pre(args),
        ensures
            self.call_post(args, out),
    ;
}

/// Invocation through a shared view of the stored callable.
pub trait CallRawRef<A, O>: Encoded<A, O> {
    fn call_raw_ref(&self, args: A) -> (out: O)
        requires
            self.call_pre(args),
        ensures
            self.call_post(args, out),
    ;
}

/// Invocation through an exclusive view of the stored callable; the encoding stays.
pub trait CallRawMut<A, O>: Encoded<A, O> {
    fn call_raw_mut(&mut self, args: A) -> (out: O)
        requires
            old(self).call_pre(args),
        ensures
            old(self).call_post(args, out),
            final(self).kind() == old(self).kind(),
    ;
}

/// A callable that can be invoked out of its own heap allocation, consuming it.
pub trait FnBox<A, O>: FnOnce(A) -> O + Sized {
    fn call_box(self: Box<Self>, args: A) -> (out: O)
        requires
            (*self).requires((args,)),
        ensures
            (*self).ensures((args,), out),
    ;
}

impl<A, O, F: FnOnce(A) -> O> FnBox<A, O> for F {
    fn call_box(self: Box<Self>, args: A) -> (out: O) {
        let this: F = *self;
        this(args)
    }
}

impl<A, O, F: FnOnce(A) -> O> Encoded<A, O> for Trait<F> {
    open spec fn kind(&self) -> Encoding {
        Encoding::Inline
    }

    open spec fn call_pre(&self, args: A) -> bool {
        self.0.requires((args,))
    }

    open spec fn call_post(&self, args: A, out: O) -> bool {
        self.0.ensures((args,), out)
    }

    fn encoding(&self) -> (e: Encoding) {
        Encoding::Inline
    }
}

impl<A, O, F: FnOnce(A) -> O> CallRawOnce<A, O> for Trait<F> {
    fn call_raw_once(self, args: A) -> (out: O) {
        let this = self.0;
        this(args)
    }
}

impl<A, O, F: Fn(A) -> O> CallRawRef<A, O> for Trait<F> {
    fn call_raw_ref(&self, args: A) -> (out: O) {
        let this: &F = &self.0;
        this(args)
    }
}

impl<A, O, F: FnMut(A) -> O> CallRawMut<A, O> for Trait<F> {
    fn call_raw_mut(&mut self, args: A) -> (out: O) {
        let this: &mut F = &mut self.0;
        this(args)
    }
}

impl<A, O, F: FnOnce(A) -> O> Encoded<A, O> for Boxed<F> {
    open spec fn kind(&self) -> Encoding {
        Encoding::Heap
    }

    open spec fn call_pre(&self, args: A) -> bool {
        (*self.0).requires((args,))
    }

    open spec fn call_post(&self, args: A, out: O) -> bool {
        (*self.0).ensures((args,), out)
    }

    fn encoding(&self) -> (e: Encoding) {
        Encoding::Heap
    }
}

impl<A, O, F: FnOnce(A) -> O> CallRawOnce<A, O> for Boxed<F> {
    fn call_raw_once(self, args: A) -> (out: O) {
        let this: Box<F> = self.0;
        this.call_box(args)
    }
}

impl<A, O, F: Fn(A) -> O> CallRawRef<A, O> for Boxed<F> {
    fn call_raw_ref(&self, args: A) -> (out: O) {
        let this: &F = &*self.0;
        this(args)
    }
}

impl<A, O, F: FnMut(A) -> O> CallRawMut<A, O> for Boxed<F> {
    fn call_raw_mut(&mut self, args: A) -> (out: O) {
        let this: &mut F = &mut *self.0;
        this(args)
    }
}

impl<A, O, F: StaticFn<A, O>> Encoded<A, O> for Static<F> {
    open spec fn kind(&self) -> Encoding {
        Encoding::Static
    }

    open spec fn call_pre(&self, args: A) -> bool {
        F::call_requires(args)
    }

    open spec fn call_post(&self, args: A, out: O) -> bool {
        F::call_ensures(args, out)
    }

    fn encoding(&self) -> (e: Encoding) {
        Encoding::Static
    }
}

impl<A, O, F: StaticFn<A, O>> CallRawOnce<A, O> for Static<F> {
    fn call_raw_once(self, args: A) -> (out: O) {
        F::call(args)
    }
}

impl<A, O, F: StaticFn<A, O>> CallRawRef<A, O> for Static<F> {
    fn call_raw_ref(&self, args: A) -> (out: O) {
        F::call(args)
    }
}

impl<A, O, F: StaticFn<A, O>> CallRawMut<A, O> for Static<F> {
    fn call_raw_mut(&mut self, args: A) -> (out: O) {
        F::call(args)
    }
}

impl<F> Payload<F> {
    /// The stored callable, whichever encoding holds it.
    pub open spec fn callable(&self) -> F {
        match self {
            Payload::Inline(t) => t.0,
            Payload::Heap(b) => *b.0,
        }
    }
}

impl<A, O, F: FnOnce(A) -> O> Encoded<A, O> for Payload<F> {
    open spec fn kind(&self) -> Encoding {
        match self {
            Payload::Inline(_) => Encoding::Inline,
            Payload::Heap(_) => Encoding::Heap,
        }
    }

    open spec fn call_pre(&self, args: A) -> bool {
        self.callable().requires((args,))
    }

    open spec fn call_post(&self, args: A, out: O) -> bool {
        self.callable().ensures((args,), out)
    }

    fn encoding(&self) -> (e: Encoding) {
        match self {
            Payload::Inline(_) => Encoding::Inline,
            Payload::Heap(_) => Encoding::Heap,
        }
    }
}

impl<A, O, F: FnOnce(A) -> O> CallRawOnce<A, O> for Payload<F> {
    fn call_raw_once(self, args: A) -> (out: O) {
        match self {
            Payload::Inline(t) => t.call_raw_once(args),
            Payload::Heap(b) => b.call_raw_once(args),
        }
    }
}

impl<A, O, F: Fn(A) -> O> CallRawRef<A, O> for Payload<F> {
    fn call_raw_ref(&self, args: A) -> (out: O) {
        match self {
            Payload::Inline(t) => t.call_raw_ref(args),
            Payload::Heap(b) => b.call_raw_ref(args),
        }
    }
}

impl<A, O, F: FnMut(A) -> O> CallRawMut<A, O> for Payload<F> {
    fn call_raw_mut(&mut self, args: A) -> (out: O) {
        match self {
            Payload::Inline(t) => t.call_raw_mut(args),
            Payload::Heap(b) => b.call_raw_mut(args),
        }
    }
}

} // verus!
