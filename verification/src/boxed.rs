//! The runtime shape every generated wrapper shares.
//!
//! A generated wrapper is a struct around one heap-indirected payload, with a
//! boxing constructor, a borrowing accessor, a consuming accessor, and a
//! conversion bridge. This generic form carries the laws those operations
//! obey: boxing then unboxing returns the original payload, and the borrowing
//! accessor leaves the wrapper untouched.

use vstd::prelude::*;

verus! {

/// A wrapper that exclusively owns one heap-indirected payload: one level of
/// indirection, no sharing.
pub struct Boxed<T> {
    payload: Box<T>,
}

impl<T> Boxed<T> {
    /// The owned payload.
    pub closed spec fn payload(self) -> T {
        *self.payload
    }

    /// The boxing constructor: consumes a payload by move and returns the
    /// wrapper that owns it. Total; never fails.
    pub fn into_box(value: T) -> (r: Boxed<T>)
        ensures
            r.payload() == value,
    {
        Boxed { payload: Box::new(value) }
    }

    /// The borrowing accessor: a reference to the payload, leaving the
    /// wrapper untouched and usable afterwards.
    pub fn as_kind(&self) -> (r: &T)
        ensures
            *r == self.payload(),
    {
        &self.payload
    }

    /// The consuming accessor: unboxes the wrapper, moving the payload out
    /// and discarding the indirection.
    pub fn into_kind(self) -> (r: T)
        ensures
            r == self.payload(),
    {
        *self.payload
    }
}

/// The conversion bridge: for any source type the payload converts from,
/// convert to the payload and box the result, so call sites can convert
/// straight to the wrapper.
pub fn box_convert<E, T: From<E>>(source: E) -> (r: Boxed<T>)
    ensures
        call_ensures(T::from, (source,), r.payload()),
{
    let payload = T::from(source);
    Boxed::into_box(payload)
}

/// Round trip: boxing a payload and then unboxing the wrapper returns a
/// value equal to the original payload, for any payload value.
pub proof fn lemma_box_round_trip<T>(value: T, boxed: Boxed<T>, out: T)
    requires
        call_ensures(Boxed::<T>::into_box, (value,), boxed),
        call_ensures(Boxed::<T>::into_kind, (boxed,), out),
    ensures
        out == value,
{
}

/// The borrowing accessor does not consume: the payload it exposes is the
/// very payload a later unboxing of the same wrapper still returns.
pub proof fn lemma_accessor_non_consuming<T>(boxed: Boxed<T>, seen: &T, out: T)
    requires
        call_ensures(Boxed::<T>::as_kind, (&boxed,), seen),
        call_ensures(Boxed::<T>::into_kind, (boxed,), out),
    ensures
        *seen == out,
{
}

} // verus!
