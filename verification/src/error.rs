use vstd::prelude::*;

verus! {

/// Indicates that a native encoder call failed.
///
/// The native layer reports failure as a bare status with no structured
/// cause, so this is a unit-like signal: callers cannot branch on why.
#[derive(Copy, Clone, Hash, Debug, PartialEq, Eq, Structural)]
pub struct Error;

} // verus!
