use vstd::prelude::*;

verus! {

/// Numeric value of a status code that reports success.
pub const GOOD: u32 = 0x0000_0000;

/// An internal error occurred as a result of a programming or configuration error.
pub const BAD_INTERNAL_ERROR: u32 = 0x8002_0000;

/// The node id refers to a node that does not exist in the server address space.
pub const BAD_NODE_ID_UNKNOWN: u32 = 0x8034_0000;

/// The requested operation is not supported.
pub const BAD_NOT_SUPPORTED: u32 = 0x803D_0000;

/// The requested node id is already used by another node.
pub const BAD_NODE_ID_EXISTS: u32 = 0x805E_0000;

/// The value is not of the same type as the attribute's value.
pub const BAD_TYPE_MISMATCH: u32 = 0x8074_0000;

/// No data exists for the requested time range or event filter.
pub const BAD_NO_DATA: u32 = 0x809B_0000;

/// Result code of a protocol operation, as the native stack reports it.
#[derive(Clone, Copy, Debug, PartialEq, Eq, Structural)]
pub struct StatusCode {
    pub code: u32,
}

impl StatusCode {
    pub open spec fn spec_is_good(self) -> bool {
        self.code == GOOD
    }

    /// Wraps a raw native status code.
    pub fn new(code: u32) -> (r: StatusCode)
        ensures
            r.code == code,
    {
        StatusCode { code }
    }

    /// Returns the raw native status code.
    pub fn code(&self) -> (r: u32)
        ensures
            r == self.code,
    {
        self.code
    }

    /// Tells whether this status reports success.
    pub fn is_good(&self) -> (r: bool)
        ensures
            r == self.spec_is_good(),
    {
        self.code == GOOD
    }

    pub fn good() -> (r: StatusCode)
        ensures
            r.code == GOOD,
    {
        StatusCode { code: GOOD }
    }

    pub fn bad_internal_error() -> (r: StatusCode)
        ensures
            r.code == BAD_INTERNAL_ERROR,
    {
        StatusCode { code: BAD_INTERNAL_ERROR }
    }

    pub fn bad_not_supported() -> (r: StatusCode)
        ensures
            r.code == BAD_NOT_SUPPORTED,
    {
        StatusCode { code: BAD_NOT_SUPPORTED }
    }

    pub fn bad_type_mismatch() -> (r: StatusCode)
        ensures
            r.code == BAD_TYPE_MISMATCH,
    {
        StatusCode { code: BAD_TYPE_MISMATCH }
    }
}

/// Failure of a protocol operation, carrying the native status code.
#[derive(Clone, Copy, Debug, PartialEq, Eq, Structural)]
pub struct Error {
    pub status: StatusCode,
}

impl Error {
    /// Wraps a native status code that reports a failure.
    pub fn new(status: StatusCode) -> (r: Error)
        ensures
            r.status == status,
    {
        Error { status }
    }

    /// Returns the native status code of this error.
    pub fn status_code(&self) -> (r: StatusCode)
        ensures
            r == self.status,
    {
        self.status
    }
}

} // verus!
