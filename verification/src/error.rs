//! Failure taxonomy for operations that cross the foreign boundary.

use vstd::prelude::*;

verus! {

/// Status code a foreign call reports for an unspecified failure.
pub const E_FAIL: u32 = 0x80004005;

/// Status code for an access-denied failure.
pub const E_ACCESSDENIED: u32 = 0x80070005;

/// Status code for an out-of-memory failure.
pub const E_OUTOFMEMORY: u32 = 0x8007000E;

/// Status code for an invalid-argument failure.
pub const E_INVALIDARG: u32 = 0x80070057;

/// Status code for a lookup that found nothing.
pub const E_NOTFOUND: u32 = 0x80070490;

/// Why an operation against the foreign object model did not succeed.
#[derive(Debug, Clone, Copy, PartialEq, Eq, Structural)]
pub enum Error {
    /// A foreign call reported a non-success status code.
    Foreign(u32),
    /// A foreign copy or duplicate primitive reported that it could not
    /// allocate.
    AllocFailed,
    /// The value has no foreign representation and cannot be encoded.
    NotEncodable,
}

impl Error {
    /// The status code carried by a foreign call failure, if any.
    pub fn foreign_code(&self) -> (r: Option<u32>)
        ensures
            r == (match *self {
                Error::Foreign(code) => Some(code),
                _ => None::<u32>,
            }),
    {
        match self {
            Error::Foreign(code) => Some(*code),
            _ => None,
        }
    }
}

} // verus!
