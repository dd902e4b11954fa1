//! The process object: a capability container owning a table that maps
//! small non-negative integers to handles, with rights-checked lookup.

use vstd::prelude::*;
use std::sync::Arc;
use crate::error::{ZxError, ZxResult};
use crate::object::handle::Handle;
use crate::object::object_imp::{KObjectBase, KoidAllocator};
use crate::object::rights::Rights;
use crate::object::{KoID, KObject, KernelObject};

verus! {

/// The small integer a process uses to name one of its handles.
pub type HandleValue = u32;

/// Capability container: an identity base plus the handle table.  The
/// table assigns the smallest free non-negative integer on insertion and
/// reuses values after removal; its addressable range never shrinks.
#[derive(Clone, Debug)]
pub struct Process {
    /// The embedded identity base.
    pub base: KObjectBase,
    /// The handle table: slot `v` holds the handle named by value `v`.
    pub handles: Vec<Option<Handle>>,
}

impl Process {
    /// The handle currently named by `value`, if any.
    pub open spec fn spec_handle(&self, value: HandleValue) -> Option<Handle> {
        if (value as int) < self.handles@.len() {
            self.handles@[value as int]
        } else {
            None
        }
    }

    /// Whether `value` currently names a handle.
    pub open spec fn spec_has_handle(&self, value: HandleValue) -> bool {
        self.spec_handle(value) is Some
    }

    /// Creates a new process object with a fresh identity and an empty
    /// handle table.
    pub fn new(ids: &mut KoidAllocator) -> (r: Process)
        requires
            old(ids).next < KoID::MAX,
        ensures
            r.base.id == old(ids).next,
            r.base.name@ == Seq::<char>::empty(),
            final(ids).next == old(ids).next + 1,
            r.handles@.len() == 0,
            forall|w: HandleValue| !r.spec_has_handle(w),
    {
        Process { base: KObjectBase::new(ids), handles: Vec::new() }
    }

    /// Inserts `handle` under the smallest non-negative integer that does
    /// not currently name a handle, and returns that value: the caller's
    /// only future reference to the handle.
    pub fn add_handle(&mut self, handle: Handle) -> (r: HandleValue)
        requires
            old(self).handles@.len() <= HandleValue::MAX as int,
        ensures
            !old(self).spec_has_handle(r),
            forall|w: HandleValue| w < r ==> old(self).spec_has_handle(w),
            final(self).spec_handle(r) == Some(handle),
            forall|w: HandleValue| w != r ==> final(self).spec_handle(w) == old(self).spec_handle(w),
            final(self).handles@.len() == if (r as int) < old(self).handles@.len() {
                old(self).handles@.len() as int
            } else {
                old(self).handles@.len() as int + 1
            },
            final(self).base == old(self).base,
    {
        let n = self.handles.len();
        let mut i: usize = 0;
        while i < n
            invariant
                i <= n,
                n == self.handles@.len(),
                *self == *old(self),
                old(self).handles@.len() <= HandleValue::MAX as int,
                forall|j: int| 0 <= j < i ==> self.handles@[j] is Some,
            decreases n - i,
        {
            if self.handles[i].is_none() {
                self.handles[i] = Some(handle);
                proof {
                    assert(self.handles@ == old(self).handles@.update(i as int, Some(handle)));
                    assert(forall|w: HandleValue| w != i ==> self.spec_handle(w) == old(self).spec_handle(w));
                }
                return i as HandleValue;
            }
            i = i + 1;
        }
        self.handles.push(Some(handle));
        proof {
            assert(forall|w: HandleValue| w != n ==> self.spec_handle(w) == old(self).spec_handle(w));
        }
        n as HandleValue
    }

    /// Removes the mapping for `handle_value` if it is present; on an
    /// absent value this is a silent no-op.
    pub fn remove_handle(&mut self, handle_value: HandleValue)
        ensures
            final(self).spec_handle(handle_value) is None,
            forall|w: HandleValue| w != handle_value ==> final(self).spec_handle(w) == old(self).spec_handle(w),
            final(self).handles@.len() == old(self).handles@.len(),
            final(self).base == old(self).base,
    {
        let vi = handle_value as usize;
        if vi < self.handles.len() {
            self.handles[vi] = None;
        }
    }

    /// Looks the handle up by value and recovers the concrete object, with
    /// three ordered, short-circuiting checks: the value must name a
    /// handle (else `BAD_HANDLE`), the object must be of the requested
    /// concrete type (else `WRONG_TYPE`, checked before rights), and the
    /// handle's rights must contain `desired_rights` (else
    /// `ACCESS_DENIED`).  On success the table entry is untouched and a
    /// new shared reference to the object is returned.
    pub fn get_object_with_rights<T: KernelObject>(
        &self,
        handle_value: HandleValue,
        desired_rights: Rights,
    ) -> (r: ZxResult<Arc<T>>)
        ensures
            match r {
                Ok(obj) => self.spec_handle(handle_value) matches Some(h)
                    && T::spec_downcast(h.object) == Some(obj)
                    && h.rights.spec_contains(desired_rights),
                Err(e) => match e {
                    ZxError::BAD_HANDLE => !self.spec_has_handle(handle_value),
                    ZxError::WRONG_TYPE => self.spec_handle(handle_value) matches Some(h)
                        && T::spec_downcast(h.object) is None,
                    ZxError::ACCESS_DENIED => self.spec_handle(handle_value) matches Some(h)
                        && T::spec_downcast(h.object) is Some
                        && !h.rights.spec_contains(desired_rights),
                    _ => false,
                },
            },
    {
        let vi = handle_value as usize;
        if vi >= self.handles.len() {
            return Err(ZxError::BAD_HANDLE);
        }
        match &self.handles[vi] {
            None => Err(ZxError::BAD_HANDLE),
            Some(h) => match T::downcast(&h.object) {
                None => Err(ZxError::WRONG_TYPE),
                Some(obj) => {
                    if !h.rights.contains(desired_rights) {
                        Err(ZxError::ACCESS_DENIED)
                    } else {
                        Ok(obj)
                    }
                },
            },
        }
    }
}

impl KernelObject for Process {
    open spec fn spec_id(&self) -> KoID {
        self.base.id
    }

    open spec fn spec_name(&self) -> Seq<char> {
        self.base.name@
    }

    open spec fn spec_type_tag(&self) -> Seq<char> {
        "Process"@
    }

    open spec fn spec_downcast(obj: KObject) -> Option<Arc<Process>> {
        match obj {
            KObject::Process(p) => Some(p),
            KObject::Dummy(_) => None,
        }
    }

    open spec fn spec_set_name_frame(pre: Process, post: Process) -> bool {
        post.handles@ == pre.handles@
    }

    fn id(&self) -> KoID {
        self.base.id()
    }

    fn type_tag(&self) -> &'static str {
        "Process"
    }

    fn name(&self) -> String {
        self.base.name()
    }

    fn set_name(&mut self, name: &str) {
        self.base.set_name(name)
    }

    fn downcast(obj: &KObject) -> Option<Arc<Process>> {
        match obj {
            KObject::Process(p) => Some(crate::object::arc_dup(p)),
            KObject::Dummy(_) => None,
        }
    }
}

} // verus!
