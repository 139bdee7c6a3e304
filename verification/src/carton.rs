//! A canonical delegation binding: a one-member owning type whose capability
//! implementations delegate to that member.
//!
//! Binding a type to the capability traits is pure plumbing: `get_ref`
//! returns a reference to the named member and `get_mut` an exclusive
//! reference to the same member, with `component` naming the member's value.
//! [`Carton`] writes that boilerplate out once, generically in the component
//! type, and the verifier checks that the delegation really is correct: every
//! reference handed out is tied to the member itself. Any other owning type
//! binds a named field of its own in exactly the same shape.

use vstd::prelude::*;

use crate::Has;
use crate::HasMut;

verus! {

/// An owning type with a single member, bound to both capability traits by
/// delegation to that member.
pub struct Carton<T> {
    /// The owned component.
    pub item: T,
}

impl<T> Has<T> for Carton<T> {
    open spec fn component(&self) -> T {
        self.item
    }

    fn get_ref(&self) -> (r: &T) {
        &self.item
    }
}

impl<T> HasMut<T> for Carton<T> {
    /// The extra clause pins the whole final value: the carton afterward is
    /// exactly the old carton with the member replaced by what the caller
    /// leaves in the reference, so the exclusive access touches nothing but
    /// the named member.
    fn get_mut(&mut self) -> (r: &mut T)
        ensures
            *final(self) == (Carton { item: *final(r) }),
    {
        &mut self.item
    }
}

/// Delegation correctness, read side: on a bound type, the reference handed
/// out by the read capability is exactly a reference to the named member.
pub fn carton_read_is_member<'a, T>(c: &'a Carton<T>) -> (r: &'a T)
    ensures
        *r == c.item,
{
    c.get_ref()
}

/// Delegation correctness, write side: on a bound type, a value written
/// through the read-write capability is observable by direct access to the
/// named member afterward.
pub fn carton_write_is_member<T>(c: &mut Carton<T>, t: T)
    ensures
        final(c).item == t,
{
    let m = c.get_mut();
    *m = t;
}

} // verus!
