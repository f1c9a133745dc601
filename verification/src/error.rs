use vstd::prelude::*;

verus! {

/// Errors reported by the toolkit's fallible operations.
#[derive(Debug)]
pub enum SpectrumError {
    /// The input bytes are not a well-formed CSV table; the payload carries
    /// the reader's description of the defect.
    CsvFormat(String),
    /// A frequency axis was requested for a zero-length transform.
    InvalidLength,
}

} // verus!
