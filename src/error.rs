use vstd::prelude::*;

verus! {

/// Why an operation on a target process failed.
#[derive(PartialEq, Eq, Structural, Clone, Copy, Debug)]
pub enum Error {
    /// A pattern, module or address lookup found nothing.
    NotFound,
    /// The operating system refused access.
    AccessDenied,
    /// An operating-system call failed.
    Io,
    /// Fewer bytes were transferred than requested.
    Eof,
    /// Address arithmetic left the address space or the stream's range.
    InvalidOffset,
    /// The live bytes did not match the pattern they were verified against.
    PatternMismatch,
    /// A bit set held bits that have no name.
    UnsupportedFlags,
    /// An event arrived that the current step does not expect.
    UnexpectedEvent,
}

} // verus!
