//! The error taxonomy shared by the readers and calculators.

use vstd::prelude::*;

verus! {

/// Why a read-and-parse operation failed.
#[derive(Debug, Clone, Copy, PartialEq, Eq, Structural)]
pub enum ReadParseError {
    /// The underlying file could not be opened or read, or its bytes were
    /// not valid text.
    Io,
    /// The text did not match the expected sentinel-or-integer grammar.
    Parse,
    /// The usage formula evaluated to zero or below, which is treated as
    /// "no usable signal" rather than as true zero usage.
    Zero,
}

} // verus!
