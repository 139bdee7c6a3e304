//! Capability traits for a verified "has a" relationship.
//!
//! A type declares that it owns a component of some type `T` by implementing
//! [`Has<T>`] (read access) or [`HasMut<T>`] (read-write access, a refinement
//! of read access). Generic code can then depend on "some value that has a
//! `T`" without knowing the concrete layout of the owning type.
//!
//! Each trait carries a specification: the spec function [`Has::component`]
//! names the mathematical value of the owned component, and the accessor
//! contracts tie every reference handed out to that value. Blanket
//! implementations forward the read capability through any immutable
//! indirection and the read-write capability through any exclusive
//! indirection, so callers never unwrap reference layers by hand.

use vstd::prelude::*;

pub mod carton;
pub mod laws;

verus! {

/// Read capability: the implementing type owns a component of type `T` and
/// can hand out an immutable reference to it.
///
/// The component always exists by construction of the owning type, so
/// [`Has::get_ref`] is infallible and side-effect-free.
pub trait Has<T> {
    /// The current value of the owned `T` component, as a specification-level
    /// value.
    spec fn component(&self) -> T;

    /// Borrow the owned component immutably.
    fn get_ref(&self) -> (r: &T)
        ensures
            *r == self.component(),
    ;
}

/// The read capability forwards through an immutable reference: a `&H` has
/// whatever component `H` itself has.
impl<'a, T, H: Has<T>> Has<T> for &'a H {
    open spec fn component(&self) -> T {
        (**self).component()
    }

    fn get_ref(&self) -> (r: &T) {
        Has::<T>::get_ref(*self)
    }
}

/// The read capability also forwards through an exclusive reference used
/// read-only: a `&mut H` has whatever component `H` itself has.
impl<'a, T, H: Has<T>> Has<T> for &'a mut H {
    open spec fn component(&self) -> T {
        (**self).component()
    }

    fn get_ref(&self) -> (r: &T) {
        Has::<T>::get_ref(&**self)
    }
}

/// Read-write capability: a refinement of [`Has`] that additionally hands out
/// an exclusive reference to the owned component.
///
/// Every implementer of `HasMut<T>` is an implementer of `Has<T>` for the
/// same component type; the two capabilities form a hierarchy, not two
/// independent contracts.
pub trait HasMut<T>: Has<T> {
    /// Borrow the owned component exclusively.
    ///
    /// The reference starts out at the component's current value, and
    /// whatever value the caller leaves behind in the reference is the
    /// component's value afterward: the exclusive access writes to exactly
    /// the owned component.
    fn get_mut(&mut self) -> (r: &mut T)
        ensures
            *r == old(self).component(),
            final(self).component() == *final(r),
    ;
}

/// The read-write capability forwards through an exclusive reference: a
/// `&mut H` can hand out exclusive access to whatever component `H` itself
/// has. An immutable reference `&H` deliberately gets no such forwarding:
/// read-only indirection never grants write access.
impl<'a, T, H: HasMut<T>> HasMut<T> for &'a mut H {
    /// The extra clause records that forwarding writes through the inner
    /// reference that was already there rather than planting a fresh one:
    /// the reference left in place settles on the same final target as the
    /// reference found, so the write really reaches the underlying `H`.
    fn get_mut(&mut self) -> (r: &mut T)
        ensures
            mut_ref_future(*old(self)) == mut_ref_future(*final(self)),
    {
        HasMut::<T>::get_mut(&mut **self)
    }
}

} // verus!
