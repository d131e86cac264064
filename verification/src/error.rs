use vstd::prelude::*;

verus! {

/// Failure kinds shared by every fallible operation of the library.
#[derive(Clone, Copy, Debug, PartialEq, Eq, Structural)]
pub enum Error {
    /// An operation that dereferences, offsets into, or copies through an
    /// address found the address to be zero, either initially or as the
    /// result of its own computation.
    NullPointer,
    /// A caller-supplied name was required to already carry its terminating
    /// sentinel character and did not.
    NoSentinelCharacter,
    /// A lookup (loaded-image match, byte-pattern occurrence, export name)
    /// exhausted its search space without the required number of matches.
    CantFind,
    /// A read fell outside the supplied memory view, so the bytes at the
    /// requested range cannot be produced.
    OutOfBounds,
}

impl Error {
    /// Short description of the error kind.
    pub fn description(&self) -> (r: &'static str)
        ensures
            r@ == match self {
                Error::NullPointer => "null pointer"@,
                Error::NoSentinelCharacter => "no sentinel character"@,
                Error::CantFind => "failed a find operation"@,
                Error::OutOfBounds => "read outside the memory view"@,
            },
    {
        match self {
            Error::NullPointer => "null pointer",
            Error::NoSentinelCharacter => "no sentinel character",
            Error::CantFind => "failed a find operation",
            Error::OutOfBounds => "read outside the memory view",
        }
    }

    /// The full message of each error kind.
    pub open spec fn spec_message(&self) -> Seq<char> {
        match self {
            Error::NullPointer => "Encountered a null pointer (most often happens in dereferencing operation)"@,
            Error::NoSentinelCharacter => "Encountered a string interacting with a C API, without a sentinel character (most often null terminator)"@,
            Error::CantFind => "Failed to perform a find operation (most often memory related)"@,
            Error::OutOfBounds => "Tried to read memory the supplied view does not cover"@,
        }
    }

    /// Full message of the error, as the diagnostic stream prints it.
    pub fn message(&self) -> (r: &'static str)
        ensures
            r@ == self.spec_message(),
    {
        match self {
            Error::NullPointer => "Encountered a null pointer (most often happens in dereferencing operation)",
            Error::NoSentinelCharacter => "Encountered a string interacting with a C API, without a sentinel character (most often null terminator)",
            Error::CantFind => "Failed to perform a find operation (most often memory related)",
            Error::OutOfBounds => "Tried to read memory the supplied view does not cover",
        }
    }
}

} // verus!
