use vstd::prelude::*;

verus! {

/// A type whose values can be shared read-only.
///
/// Sharing puts a borrowed value into its shared form, which is cheap to duplicate and
/// lives no longer than `'a`. The form is either `&'a Self` or, for a type that is `Copy`,
/// `Self`. Which of the two it is for a given type is declared with
/// [`SharedBy`](crate::mode::SharedBy).
pub trait Shareable<'a> {
    /// What stands for a value while it is shared.
    type Shared: Copy + 'a;

    /// The value that a shared form stands for.
    spec fn resolved(shared: &Self::Shared) -> &Self;

    /// Puts the referenced value into its shared form, leaving the value as it is.
    fn share(&'a self) -> (shared: Self::Shared)
        ensures
            Self::resolved(&shared) == self,
    ;

    /// Reads the value back out of its shared form.
    fn resolve<'b>(shared: &'b Self::Shared) -> (value: &'b Self)
        ensures
            value == Self::resolved(shared),
    ;
}

} // verus!
