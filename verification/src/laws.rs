//! Laws that relate the two capability traits and their forwarding
//! implementations, each stated generically and checked by the verifier.

use vstd::prelude::*;

use crate::Has;
use crate::HasMut;

verus! {

/// Contract hierarchy: every implementer of the read-write capability also
/// offers the read capability for the same component type, so a caller that
/// only knows `HasMut<T>` can still read the component.
pub fn read_via_read_write<'a, T, H: HasMut<T>>(h: &'a H) -> (r: &'a T)
    ensures
        *r == h.component(),
{
    Has::<T>::get_ref(h)
}

/// Forwarding through immutable indirection: reading through a `&H` layer
/// yields exactly the value that reading the underlying `H` directly yields,
/// namely its component.
pub fn forwarded_read_agrees<'a, T, H: Has<T>>(indirection: &'a &'a H) -> (rs: (&'a T, &'a T))
    ensures
        *rs.0 == *rs.1,
        *rs.0 == (**indirection).component(),
{
    let through: &'a T = Has::<T>::get_ref(indirection);
    let direct: &'a T = Has::<T>::get_ref(&**indirection);
    (through, direct)
}

/// Forwarding through an exclusive indirection used read-only: reading
/// through a `&mut H` layer also yields exactly the component of the
/// underlying value.
pub fn forwarded_read_exclusive_agrees<'a, T, H: Has<T>>(
    indirection: &'a &'a mut H,
) -> (rs: (&'a T, &'a T))
    ensures
        *rs.0 == *rs.1,
        *rs.0 == mut_ref_current(*indirection).component(),
{
    let through: &'a T = Has::<T>::get_ref(indirection);
    let direct: &'a T = Has::<T>::get_ref(&**indirection);
    (through, direct)
}

/// Forwarding through exclusive indirection: a write made through a
/// `&mut H` layer is visible on the underlying value afterward.
pub fn forwarded_write_visible<T, H: HasMut<T>>(h: &mut H, t: T)
    ensures
        (*final(h)).component() == t,
{
    let mut inner: &mut H = &mut *h;
    let indirection: &mut &mut H = &mut inner;
    let m: &mut T = HasMut::<T>::get_mut(indirection);
    *m = t;
}

/// Round trip: a read that follows a completed exclusive access observes
/// exactly the state the exclusive access left behind.
pub fn write_then_read<'a, T, H: HasMut<T>>(h: &'a mut H, t: T) -> (r: &'a T)
    ensures
        *r == t,
        (*final(h)).component() == t,
{
    let m = HasMut::<T>::get_mut(h);
    *m = t;
    Has::<T>::get_ref(h)
}

} // verus!
