use vstd::prelude::*;

verus! {

/// The ways a scanner operation can fail.
#[derive(Clone, Copy, Debug, PartialEq, Eq, Structural)]
pub enum ScanError {
    /// The input bytes are not well-formed UTF-8.
    DecodeError,
    /// A requested window lies outside the buffer.
    OutOfRange,
    /// A regular expression could not be compiled.
    PatternError,
}

} // verus!
