use vstd::prelude::*;
use crate::mode::{ByCopy, ByReference, SharedBy};
use crate::share::Share;
use crate::shareable::Shareable;
use core::ops::Deref;

verus! {

/// Whatever the mode, what is read through a handle made from a reference is the
/// referenced value.
pub proof fn lemma_round_trip<'a, T>(value: &'a T, handle: Share<'a, T>, read: &T) where
    T: ?Sized + Shareable<'a>,

    requires
        call_ensures(Share::<'a, T>::new, (value,), handle),
        call_ensures(<Share<'a, T> as Deref>::deref, (&handle,), read),
    ensures
        read == value,
{
}

/// In copy mode, a handle made from a reference to a value holds a copy of that value, and
/// whatever is read through the handle equals the value.
pub proof fn lemma_copy_round_trip<'a, T>(value: &'a T, handle: Share<'a, T>, read: &T) where
    T: Copy + SharedBy<Mode = ByCopy> + 'a,

    requires
        call_ensures(Share::<'a, T>::new, (value,), handle),
        call_ensures(<Share<'a, T> as Deref>::deref, (&handle,), read),
    ensures
        handle.shared == *value,
        *read == *value,
{
}

/// In reference mode, a handle made from a reference to a value holds that reference, and
/// whatever is read through the handle is the referenced value.
pub proof fn lemma_reference_round_trip<'a, T>(value: &'a T, handle: Share<'a, T>, read: &T) where
    T: ?Sized + SharedBy<Mode = ByReference> + 'a,

    requires
        call_ensures(Share::<'a, T>::new, (value,), handle),
        call_ensures(<Share<'a, T> as Deref>::deref, (&handle,), read),
    ensures
        handle.shared == value,
        read == value,
{
}

/// A reference to any type can be put behind a handle as it stands: the handle holds the
/// reference itself, and whatever is read through the handle is that reference.
pub proof fn lemma_reference_is_shareable<'a, 'r, T>(
    reference: &'a &'r T,
    handle: Share<'a, &'r T>,
    read: &&'r T,
) where T: ?Sized
    requires
        call_ensures(Share::<'a, &'r T>::new, (reference,), handle),
        call_ensures(<Share<'a, &'r T> as Deref>::deref, (&handle,), read),
    ensures
        handle.shared == *reference,
        *read == *reference,
{
    lemma_copy_round_trip::<&'r T>(reference, handle, read);
}

/// Reads through one handle agree: each gives the value that the handle stands for.
pub proof fn lemma_reads_agree<'a, T>(handle: Share<'a, T>, first: &T, second: &T) where
    T: ?Sized + Shareable<'a>,

    requires
        call_ensures(<Share<'a, T> as Deref>::deref, (&handle,), first),
        call_ensures(<Share<'a, T> as Deref>::deref, (&handle,), second),
    ensures
        first == handle@,
        second == first,
{
}

} // verus!
