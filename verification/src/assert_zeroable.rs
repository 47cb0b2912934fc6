//! The zero-sized marker type that the emitted obligations mention.
//!
//! Each per-field proof obligation in the generated fragment names
//! [`AssertZeroable`] for the field's type; constructing it is what asks the
//! host type system to confirm the capability.  The type itself carries no
//! data and no behavior.

use vstd::prelude::*;

use core::marker::PhantomData;

verus! {

/// A marker representing that `T` is zero-initializable.  This type is
/// zero-sized; the unsafe primitive that actually produces a zeroed `T`
/// from it is outside this crate's scope.
pub struct AssertZeroable<T: ?Sized> {
    marker: PhantomData<T>,
}

impl<T: ?Sized> AssertZeroable<T> {
    /// Constructs an `AssertZeroable<T>`.
    pub fn new() -> (r: AssertZeroable<T>) {
        AssertZeroable { marker: PhantomData }
    }
}

impl<T: ?Sized> Clone for AssertZeroable<T> {
    fn clone(&self) -> (r: Self) {
        AssertZeroable { marker: PhantomData }
    }
}

impl<T: ?Sized> Copy for AssertZeroable<T> {

}

/// Produces the marker for `Self`.  Declared, as in the emitted fragment's
/// `GetAssertZeroable` path, to give a field whose type lacks the
/// capability a pointed error message.
pub trait GetAssertZeroable: Sized {
    /// Gets an `AssertZeroable<Self>`, a marker representing that `Self`
    /// is zero-initializable.
    fn get() -> AssertZeroable<Self>;
}

} // verus!
