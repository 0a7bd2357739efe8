use core::marker::PhantomData;
use vstd::prelude::*;

use crate::raw::{Boxed, CallRawRef, Encoded, Encoding, Payload, Static, Trait};
use crate::{fits_inline, Array, StaticFn};

verus! {

/// A callable that may be invoked many times through shared access, held in the
/// encoding its size allows against a slot of type `D`.
pub struct FnStackRef<A, O, R, D = [u8; 16]> where
    D: Array,
{
    raw: R,
    marker: PhantomData<(A, O, D)>,
}

impl<A, O, R: CallRawRef<A, O>, D: Array> FnStackRef<A, O, R, D> {
    /// The stored callable, in its encoding.
    pub closed spec fn payload(&self) -> R {
        self.raw
    }

    fn from_raw(raw: R) -> (r: Self)
        ensures
            r.payload() == raw,
    {
        FnStackRef { raw, marker: PhantomData }
    }

    /// The encoding that construction chose.
    pub fn encoding(&self) -> (e: Encoding)
        ensures
            e == self.payload().kind(),
    {
        self.raw.encoding()
    }

    /// Invokes the callable through a shared view; the container is left as it was.
    pub fn call(&self, args: A) -> (out: O)
        requires
            self.payload().call_pre(args),
        ensures
            self.payload().call_post(args, out),
    {
        self.raw.call_raw_ref(args)
    }
}

impl<A, O, F: Fn(A) -> O, D: Array> FnStackRef<A, O, Payload<F>, D> {
    /// Stores `f` inline when it fits the slot, and behind the heap otherwise.
    pub fn new(f: F) -> (r: Self)
        requires
            fits_inline::<F, D>() || size_of::<Boxed<F>>() <= D::capacity(),
        ensures
            r.payload().callable() == f,
            fits_inline::<F, D>() ==> r.payload().kind() == Encoding::Inline,
            !fits_inline::<F, D>() ==> r.payload().kind() == Encoding::Heap,
    {
        if core::mem::size_of::<F>() < D::size() && core::mem::align_of::<F>() <= D::align() {
            Self::from_raw(Payload::Inline(Trait(f)))
        } else {
            Self::from_raw(Payload::Heap(Boxed(Box::new(f))))
        }
    }

    /// Adopts a callable that already sits in its own heap allocation.
    pub fn from(f: Box<F>) -> (r: Self)
        requires
            size_of::<Boxed<F>>() <= D::capacity(),
        ensures
            r.payload().callable() == *f,
            r.payload().kind() == Encoding::Heap,
    {
        Self::from_raw(Payload::Heap(Boxed(f)))
    }
}

impl<A, O, F: StaticFn<A, O>, D: Array> FnStackRef<A, O, Static<F>, D> {
    /// Stores the stateless callable `F`; no slot space is used.
    pub fn from_static() -> (r: Self)
        ensures
            r.payload().kind() == Encoding::Static,
    {
        Self::from_raw(Static(PhantomData))
    }
}

} // verus!
