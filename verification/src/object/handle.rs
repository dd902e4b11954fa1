//! A handle binds a shared object reference to a rights mask.

use vstd::prelude::*;
use crate::object::KObject;
use crate::object::rights::Rights;

verus! {

/// Capability reference: a shared kernel-object reference paired with the
/// rights its holder may exercise.  Cloning a handle shares the object; it
/// never duplicates it.
#[derive(Clone, Debug)]
pub struct Handle {
    /// The shared object reference.
    pub object: KObject,
    /// The rights this handle carries; never escalated nor reduced in
    /// place.
    pub rights: Rights,
}

impl Handle {
    /// Builds the immutable pair of object reference and rights.
    pub fn new(object: KObject, rights: Rights) -> (r: Handle)
        ensures
            r.object == object,
            r.rights == rights,
    {
        Handle { object, rights }
    }
}

} // verus!
