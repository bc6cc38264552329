//! Read-only handles to values that are shared either by reference or by copy.
//!
//! Generic code often wants to take large values by reference and small ones by value,
//! and read both in the same way. A type says once how it is to be shared, by naming
//! [`ByReference`] or [`ByCopy`] in an impl of [`SharedBy`]; that makes it [`Shareable`].
//! A [`Share`] made from a reference to such a value then holds either the reference or
//! a copy of the value, and dereferences to the value in both cases. Which of the two
//! it holds is settled by the types alone.
//!
//! Every reference is shareable without further ado: it is shared by copying the reference.

pub mod laws;
pub mod mode;
pub mod share;
pub mod shareable;

pub use mode::{ByCopy, ByReference, ShareMode, SharedBy};
pub use share::Share;
pub use shareable::Shareable;
