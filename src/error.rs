//! Errors reported by the drivers.
use vstd::prelude::*;

verus! {

/// A failed bus transaction, carrying the transport's own error.
#[derive(Debug)]
pub enum ExpanderError<ERR> {
    /// A write-only transaction failed.
    WriteError(ERR),
    /// A combined write-then-read transaction failed.
    WriteReadError(ERR),
}

} // verus!
