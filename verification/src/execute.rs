//! The interface to the execution layer. The archival service consumes the
//! outputs of an executor; the execution rules themselves live outside this
//! crate, behind implementations of this trait.

use vstd::prelude::*;

verus! {

/// A general purpose executor that executes an input (e.g. a block) and
/// produces an output (e.g. state changes and receipts).
///
/// Implementations are supplied by the surrounding node; nothing is assumed
/// of them here beyond their shape.
pub trait Executor<DB> {
    /// The input type for the executor.
    type Input;

    /// The output type for the executor.
    type Output;

    /// The error type returned by the executor.
    type Error;

    /// Consumes the type and executes the input.
    fn execute(self, input: Self::Input) -> Result<Self::Output, Self::Error>;
}

} // verus!
