//! The shared identity base every concrete object embeds, the allocator of
//! unique object identifiers, and the no-op placeholder object.

use vstd::prelude::*;
use std::sync::Arc;
use crate::object::{KoID, KObject, KernelObject};

verus! {

/// Hands out process-wide unique object identifiers, monotonically from a
/// fixed starting value; an identifier is never reused.
pub struct KoidAllocator {
    /// The identifier the next allocation returns.
    pub next: KoID,
}

/// The fixed identifier the allocator starts from.
pub const FIRST_KOID: u64 = 1024;

impl KoidAllocator {
    /// A fresh allocator, starting from the fixed first identifier.
    pub fn new() -> (r: KoidAllocator)
        ensures
            r.next == FIRST_KOID,
    {
        KoidAllocator { next: FIRST_KOID }
    }

    /// Allocates the next identifier.  Successive calls return strictly
    /// increasing values, so no identifier is ever handed out twice.
    pub fn new_koid(&mut self) -> (r: KoID)
        requires
            old(self).next < KoID::MAX,
        ensures
            r == old(self).next,
            final(self).next == r + 1,
    {
        let id = self.next;
        self.next = self.next + 1;
        id
    }
}

/// Shared id/name storage: the identifier is fixed at construction, the
/// name is mutable and defaults to empty.
#[derive(Clone, Debug)]
pub struct KObjectBase {
    /// Identifier, fixed for the object's whole lifetime.
    pub id: KoID,
    /// Mutable object name.
    pub name: String,
}

impl KObjectBase {
    /// A fresh identity base with a newly allocated identifier and an
    /// empty name.
    pub fn new(ids: &mut KoidAllocator) -> (r: KObjectBase)
        requires
            old(ids).next < KoID::MAX,
        ensures
            r.id == old(ids).next,
            r.name@ == Seq::<char>::empty(),
            final(ids).next == old(ids).next + 1,
    {
        KObjectBase { id: ids.new_koid(), name: String::new() }
    }

    /// The stable identifier.
    pub fn id(&self) -> (r: KoID)
        ensures
            r == self.id,
    {
        self.id
    }

    /// A copy of the current name.
    pub fn name(&self) -> (r: String)
        ensures
            r@ == self.name@,
    {
        self.name.clone()
    }

    /// Replaces the name; the identifier is untouched.
    pub fn set_name(&mut self, name: &str)
        ensures
            final(self).name@ == name@,
            final(self).id == old(self).id,
    {
        self.name = name.to_owned();
    }
}

/// The no-op placeholder object: nothing beyond an embedded identity base.
#[derive(Clone, Debug)]
pub struct DummyObject {
    /// The embedded identity base.
    pub base: KObjectBase,
}

impl DummyObject {
    /// Creates a new placeholder object with a fresh identity.
    pub fn new(ids: &mut KoidAllocator) -> (r: DummyObject)
        requires
            old(ids).next < KoID::MAX,
        ensures
            r.base.id == old(ids).next,
            r.base.name@ == Seq::<char>::empty(),
            final(ids).next == old(ids).next + 1,
    {
        DummyObject { base: KObjectBase::new(ids) }
    }
}

impl KernelObject for DummyObject {
    open spec fn spec_id(&self) -> KoID {
        self.base.id
    }

    open spec fn spec_name(&self) -> Seq<char> {
        self.base.name@
    }

    open spec fn spec_type_tag(&self) -> Seq<char> {
        "DummyObject"@
    }

    open spec fn spec_downcast(obj: KObject) -> Option<Arc<DummyObject>> {
        match obj {
            KObject::Dummy(d) => Some(d),
            KObject::Process(_) => None,
        }
    }

    open spec fn spec_set_name_frame(pre: DummyObject, post: DummyObject) -> bool {
        true
    }

    fn id(&self) -> KoID {
        self.base.id()
    }

    fn type_tag(&self) -> &'static str {
        "DummyObject"
    }

    fn name(&self) -> String {
        self.base.name()
    }

    fn set_name(&mut self, name: &str) {
        self.base.set_name(name)
    }

    fn downcast(obj: &KObject) -> Option<Arc<DummyObject>> {
        match obj {
            KObject::Dummy(d) => Some(crate::object::arc_dup(d)),
            KObject::Process(_) => None,
        }
    }
}

} // verus!
