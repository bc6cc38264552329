use vstd::prelude::*;
use crate::shareable::Shareable;
use core::ops::Deref;

verus! {

/// A read-only handle to a value of `T`.
///
/// It holds the value in its shared form, a reference to it or a copy of it, and reads as
/// a `T` either way.
pub struct Share<'a, T: ?Sized + Shareable<'a>> {
    /// The shared form of the value.
    pub shared: T::Shared,
}

impl<'a, T> Share<'a, T> where T: ?Sized + Shareable<'a> {
    /// The value that the handle gives access to.
    pub open spec fn view(&self) -> &T {
        T::resolved(&self.shared)
    }

    /// Makes a handle to the referenced value: it holds the shared form that
    /// [`Shareable::share`] gives for the reference, and so stands for the referenced value.
    pub fn new(reference: &'a T) -> (handle: Self)
        ensures
            call_ensures(T::share, (reference,), handle.shared),
            handle@ == reference,
    {
        Share { shared: reference.share() }
    }
}

impl<'a, T> Deref for Share<'a, T> where T: ?Sized + Shareable<'a> {
    type Target = T;

    /// Reads the value that the handle stands for.
    fn deref(&self) -> (value: &T)
        ensures
            value == self@,
    {
        T::resolve(&self.shared)
    }
}

} // verus!
