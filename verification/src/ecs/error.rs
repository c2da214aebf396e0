//! The conditions that the store reports instead of carrying on.

use vstd::prelude::*;

verus! {

/// Why an operation on the store was refused.
#[derive(Clone, Copy, Debug, PartialEq, Eq)]
pub enum EcsError {
    /// The entity id is not that of a live entity.
    UnknownEntity,
    /// A new component type was seen after every bit of the mask was taken.
    TypeLimitExceeded,
}

} // verus!
