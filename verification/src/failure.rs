//! The failure vocabulary shared by every assembly.
//!
//! An assembly can fail in two ways, and a caller treats them differently.
//! [`AssembleFailure::Incomplete`] asks for more parts: the caller may add
//! some and try again. [`AssembleFailure::Error`] is final for the parts at
//! hand and carries the cause, whose type the implementation chooses.

use vstd::prelude::*;
use vstd::std_specs::convert::FromSpecImpl;

verus! {

/// Describes a failure to assemble a composite from a sequence of parts.
#[derive(Debug, PartialEq)]
pub enum AssembleFailure<E> {
    /// There were not enough parts.
    Incomplete,
    /// There was an error with the parts.
    Error(E),
}

/// Converts an `E` into an `AssembleFailure`.
impl<E> From<E> for AssembleFailure<E> {
    #[inline]
    fn from(error: E) -> (failure: Self)
        ensures
            failure == AssembleFailure::Error(error),
    {
        Self::Error(error)
    }
}

/// What the conversion means in contracts: an `E` becomes the `Error` that
/// holds it, never `Incomplete`.
impl<E> FromSpecImpl<E> for AssembleFailure<E> {
    open spec fn obeys_from_spec() -> bool {
        true
    }

    open spec fn from_spec(error: E) -> Self {
        Self::Error(error)
    }
}

} // verus!
