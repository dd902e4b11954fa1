//! Handle rights: a closed bitmask of operation capabilities.

use vstd::prelude::*;

verus! {

/// A bitmask over the operation capabilities a handle may carry.
///
/// `BASIC` and `DEFAULT_PROCESS` are deliberately the identical bit.
#[derive(Clone, Copy, PartialEq, Eq, Structural, Debug)]
pub struct Rights {
    pub bits: u32,
}

impl Rights {
    /// Containment: every bit of `required` is also present in `self`.
    pub open spec fn spec_contains(self, required: Rights) -> bool {
        self.bits & required.bits == required.bits
    }

    /// Returns whether every bit of `required` is present in `self`.
    pub fn contains(&self, required: Rights) -> (r: bool)
        ensures
            r == self.spec_contains(required),
    {
        (self.bits & required.bits) == required.bits
    }

    /// The mask with no right at all.
    pub fn empty() -> (r: Rights)
        ensures
            r.bits == 0u32,
    {
        Rights { bits: 0 }
    }

    /// Right to duplicate the handle.
    #[allow(non_snake_case)]
    pub fn DUPLICATE() -> (r: Rights)
        ensures
            r.bits == 1u32 << 0,
    {
        Rights { bits: 1u32 << 0 }
    }

    /// Right to transfer the handle through a channel.
    #[allow(non_snake_case)]
    pub fn TRANSFER() -> (r: Rights)
        ensures
            r.bits == 1u32 << 1,
    {
        Rights { bits: 1u32 << 1 }
    }

    /// Right to read from the object.
    #[allow(non_snake_case)]
    pub fn READ() -> (r: Rights)
        ensures
            r.bits == 1u32 << 2,
    {
        Rights { bits: 1u32 << 2 }
    }

    /// Right to write to the object.
    #[allow(non_snake_case)]
    pub fn WRITE() -> (r: Rights)
        ensures
            r.bits == 1u32 << 3,
    {
        Rights { bits: 1u32 << 3 }
    }

    /// Right to execute the object's contents.
    #[allow(non_snake_case)]
    pub fn EXECUTE() -> (r: Rights)
        ensures
            r.bits == 1u32 << 4,
    {
        Rights { bits: 1u32 << 4 }
    }

    /// The basic set of rights.
    #[allow(non_snake_case)]
    pub fn BASIC() -> (r: Rights)
        ensures
            r.bits == 1u32 << 5,
    {
        Rights { bits: 1u32 << 5 }
    }

    /// The default rights of a process handle: the identical bit as `BASIC`.
    #[allow(non_snake_case)]
    pub fn DEFAULT_PROCESS() -> (r: Rights)
        ensures
            r.bits == 1u32 << 5,
    {
        Rights { bits: 1u32 << 5 }
    }
}

} // verus!
