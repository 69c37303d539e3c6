//! Errors of name resolution.
use vstd::prelude::*;

verus! {

/// Why a pseudo-class or pseudo-element could not be produced.
#[derive(Clone, Copy, Debug, PartialEq, Eq, Hash, Structural)]
pub enum PseudoError {
    /// The text names no entry that is visible under the current trust mode.
    NoMatch,
    /// A constructed value's internal flag disagrees with the catalog's record.
    InternalConsistencyViolation,
}

} // verus!
