pub use mutable::FnStackMut;
pub use once::FnStackOnce;
pub use raw::{Boxed, CallRawMut, CallRawOnce, CallRawRef, Encoded, Encoding, FnBox, Payload, Static, Trait};
pub use reference::FnStackRef;

use vstd::prelude::*;

mod mutable;
mod once;
mod private;
mod raw;
mod reference;

verus! {

/// A fixed-capacity storage slot, measured in bytes.
///
/// Only the byte arrays of this crate implement it: the set of capacities is closed.
pub trait Array: Sized {
    /// The number of bytes the slot holds.
    spec fn capacity() -> nat;

    /// The alignment of the slot, in bytes.
    spec fn alignment() -> nat;

    /// Reports the slot's alignment.
    fn align() -> (r: usize)
        ensures
            r == Self::alignment(),
    ;

    /// Reports the slot's capacity.
    fn size() -> (r: usize)
        ensures
            r == Self::capacity(),
    ;

    /// Only this crate may implement this trait.
    fn _private() -> private::Private;
}

/// A callable with no captured state, known entirely by its type.
pub trait StaticFn<A, O> {
    /// What `call` needs of its argument; an impl that states nothing needs nothing.
    open spec fn call_requires(args: A) -> bool {
        true
    }

    /// What `call` promises of its result; an impl that states nothing promises nothing.
    open spec fn call_ensures(args: A, out: O) -> bool {
        true
    }

    /// Runs the callable on `args`.
    fn call(args: A) -> (out: O)
        requires
            Self::call_requires(args),
        ensures
            Self::call_ensures(args, out),
    ;
}

/// The inline condition: a callable of type `F` is stored directly in a slot of type `D`
/// when it is strictly smaller than the slot and its alignment does not exceed the slot's.
pub open spec fn fits_inline<F, D: Array>() -> bool {
    size_of::<F>() < D::capacity() && align_of::<F>() <= D::alignment()
}

impl Array for [u8; 64] {
    open spec fn capacity() -> nat {
        64
    }

    open spec fn alignment() -> nat {
        1
    }

    fn align() -> (r: usize) {
        1
    }

    fn size() -> (r: usize) {
        64
    }

    fn _private() -> private::Private {
        private::Private
    }
}

impl Array for [u8; 32] {
    open spec fn capacity() -> nat {
        32
    }

    open spec fn alignment() -> nat {
        1
    }

    fn align() -> (r: usize) {
        1
    }

    fn size() -> (r: usize) {
        32
    }

    fn _private() -> private::Private {
        private::Private
    }
}

impl Array for [u8; 24] {
    open spec fn capacity() -> nat {
        24
    }

    open spec fn alignment() -> nat {
        1
    }

    fn align() -> (r: usize) {
        1
    }

    fn size() -> (r: usize) {
        24
    }

    fn _private() -> private::Private {
        private::Private
    }
}

impl Array for [u8; 16] {
    open spec fn capacity() -> nat {
        16
    }

    open spec fn alignment() -> nat {
        1
    }

    fn align() -> (r: usize) {
        1
    }

    fn size() -> (r: usize) {
        16
    }

    fn _private() -> private::Private {
        private::Private
    }
}

impl Array for [u8; 12] {
    open spec fn capacity() -> nat {
        12
    }

    open spec fn alignment() -> nat {
        1
    }

    fn align() -> (r: usize) {
        1
    }

    fn size() -> (r: usize) {
        12
    }

    fn _private() -> private::Private {
        private::Private
    }
}

impl Array for [u8; 8] {
    open spec fn capacity() -> nat {
        8
    }

    open spec fn alignment() -> nat {
        1
    }

    fn align() -> (r: usize) {
        1
    }

    fn size() -> (r: usize) {
        8
    }

    fn _private() -> private::Private {
        private::Private
    }
}

impl Array for [u8; 4] {
    open spec fn capacity() -> nat {
        4
    }

    open spec fn alignment() -> nat {
        1
    }

    fn align() -> (r: usize) {
        1
    }

    fn size() -> (r: usize) {
        4
    }

    fn _private() -> private::Private {
        private::Private
    }
}

impl Array for [u8; 0] {
    open spec fn capacity() -> nat {
        0
    }

    open spec fn alignment() -> nat {
        1
    }

    fn align() -> (r: usize) {
        1
    }

    fn size() -> (r: usize) {
        0
    }

    fn _private() -> private::Private {
        private::Private
    }
}

} // verus!
