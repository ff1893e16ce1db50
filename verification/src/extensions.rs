//! The catalog of type and instruction families, and their specialization.

use vstd::prelude::*;

pub mod felt;
pub mod integer;
pub mod jump_not_zero;
pub mod lib_func;
pub mod pod;
pub mod registry;
pub mod types;

verus! {

/// Why a specialization failed.
#[derive(Clone, Copy, Debug, PartialEq, Eq, Structural)]
pub enum SpecializationError {
    /// The arguments have the wrong number or kind, or a constant divisor is
    /// zero.
    UnsupportedGenericArg,
    /// No family has the given name.
    UnknownId,
}

} // verus!
