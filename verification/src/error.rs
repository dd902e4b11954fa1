//! Typed status codes threaded through every fallible operation of the
//! library, together with the stable integer code of each kind.

use vstd::prelude::*;

verus! {

/// Result type carrying a [`ZxError`] on every expected failure path.
pub type ZxResult<T> = Result<T, ZxError>;

/// The fixed, small set of status kinds.  Expected failures (missing handle,
/// type mismatch, insufficient rights, closed peer, empty queue) are reported
/// through these kinds; none of them aborts.
#[allow(non_camel_case_types)]
#[derive(Clone, Copy, PartialEq, Eq, Structural, Debug)]
pub enum ZxError {
    /// The operation succeeded.
    OK,
    /// A handle value that does not currently name a handle.
    BAD_HANDLE,
    /// The object behind the handle is not of the requested concrete type.
    WRONG_TYPE,
    /// The handle does not carry every right the operation demands.
    ACCESS_DENIED,
    /// The other endpoint of the channel can no longer be reached.
    PEER_CLOSED,
    /// Nothing to deliver yet; the caller decides how to wait or retry.
    SHOULD_WAIT,
}

impl ZxError {
    /// The stable integer code of each kind, as interoperating callers see it.
    pub open spec fn spec_code(self) -> i32 {
        match self {
            ZxError::OK => 0,
            ZxError::BAD_HANDLE => -11i32,
            ZxError::WRONG_TYPE => -12i32,
            ZxError::ACCESS_DENIED => -30i32,
            ZxError::PEER_CLOSED => -13i32,
            ZxError::SHOULD_WAIT => -14i32,
        }
    }

    /// Returns the stable integer code of this kind.
    pub fn code(&self) -> (r: i32)
        ensures
            r == self.spec_code(),
    {
        match self {
            ZxError::OK => 0,
            ZxError::BAD_HANDLE => -11i32,
            ZxError::WRONG_TYPE => -12i32,
            ZxError::ACCESS_DENIED => -30i32,
            ZxError::PEER_CLOSED => -13i32,
            ZxError::SHOULD_WAIT => -14i32,
        }
    }
}

} // verus!
