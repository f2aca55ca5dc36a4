//! The error taxonomy of the backend.
//!
//! Every failure is returned as a value; no part of the pipeline panics.

use vstd::prelude::*;

verus! {

/// Everything that can go wrong while lowering an IR program.
///
/// Emission cannot fail, so rendering functions never return this type.
#[derive(Debug, Clone, Copy, PartialEq, Eq, Structural)]
pub enum CompileError {
    /// A context lookup missed: an IR variable was used that the supplied
    /// register allocation does not bind.
    UnmappedVariable,
    /// A register index outside the closed target register space was
    /// requested.
    UnsupportedRegisterIndex,
    /// The node kind has no defined selection rule yet; selection refuses it
    /// instead of silently emitting nothing.
    UnimplementedNode,
}

} // verus!
