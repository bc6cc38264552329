use vstd::prelude::*;
use crate::shareable::Shareable;

verus! {

/// A way of sharing values of `T`: what the shared form is, how it is made and how it is
/// read.
pub trait ShareMode<'a, T: ?Sized> {
    /// What stands for a value of `T` while it is shared in this mode.
    type Shared: Copy + 'a;

    /// The value that a shared form stands for.
    spec fn resolved(shared: &Self::Shared) -> &T;

    /// Puts the referenced value into its shared form.
    fn share(value: &'a T) -> (shared: Self::Shared)
        ensures
            Self::resolved(&shared) == value,
    ;

    /// Reads the value back out of its shared form.
    fn resolve<'b>(shared: &'b Self::Shared) -> (value: &'b T)
        ensures
            value == Self::resolved(shared),
    ;
}

/// Reference mode: the shared form of a value is a reference to it. Nothing is duplicated,
/// and the shared form cannot outlive the value.
pub struct ByReference;

/// Copy mode: the shared form of a value is a copy of it, which does not depend on the
/// value it was made from. Only a type that is `Copy` can be shared this way.
pub struct ByCopy;

impl<'a, T: ?Sized + 'a> ShareMode<'a, T> for ByReference {
    type Shared = &'a T;

    open spec fn resolved<'b>(shared: &'b &'a T) -> &'b T {
        *shared
    }

    fn share(value: &'a T) -> (shared: &'a T)
        ensures
            shared == value,
    {
        value
    }

    fn resolve<'b>(shared: &'b &'a T) -> (value: &'b T)
        ensures
            value == *shared,
    {
        *shared
    }
}

impl<'a, T: Copy + 'a> ShareMode<'a, T> for ByCopy {
    type Shared = T;

    open spec fn resolved(shared: &T) -> &T {
        shared
    }

    fn share(value: &'a T) -> (shared: T)
        ensures
            shared == *value,
    {
        *value
    }

    fn resolve<'b>(shared: &'b T) -> (value: &'b T)
        ensures
            value == shared,
    {
        shared
    }
}

/// Declares how the values of a type are shared.
///
/// Naming the mode is all that it takes to make a type [`Shareable`]:
/// [`ByReference`] suits any type, [`ByCopy`] one that is `Copy` and cheap to copy. Whether
/// a copy is cheap is for the one who names the mode to judge.
pub trait SharedBy {
    /// [`ByReference`] or [`ByCopy`].
    type Mode;
}

/// A type that names its mode is shared the way the mode says.
impl<'a, T> Shareable<'a> for T where T: ?Sized + SharedBy, T::Mode: ShareMode<'a, T> {
    type Shared = <T::Mode as ShareMode<'a, T>>::Shared;

    open spec fn resolved(shared: &Self::Shared) -> &T {
        <T::Mode as ShareMode<'a, T>>::resolved(shared)
    }

    fn share(&'a self) -> (shared: Self::Shared) {
        <T::Mode as ShareMode<'a, T>>::share(self)
    }

    fn resolve<'b>(shared: &'b Self::Shared) -> (value: &'b T) {
        <T::Mode as ShareMode<'a, T>>::resolve(shared)
    }
}

/// Every reference is shareable as it stands: sharing it copies the reference.
impl<'r, T: ?Sized> SharedBy for &'r T {
    type Mode = ByCopy;
}

} // verus!
