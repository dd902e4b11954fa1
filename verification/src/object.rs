//! The uniform kernel-object capability interface: stable identity, a
//! mutable name, a static type tag, and a checked downcast back to the
//! concrete type.

pub mod handle;
pub mod object_imp;
pub mod rights;

use vstd::prelude::*;
use std::sync::Arc;
use crate::object::object_imp::DummyObject;
use crate::task::process::Process;

verus! {

/// Process-wide unique 64-bit object identifier; never reused, immutable
/// once assigned to an object.
pub type KoID = u64;

/// Relies on `alloc::sync::Arc::clone`: the returned reference counts the
/// same allocation, so it carries the very same value as the original.
#[verifier::external_body]
pub(crate) fn arc_dup<T>(a: &Arc<T>) -> (r: Arc<T>)
    ensures
        r == *a,
{
    a.clone()
}

/// A shared reference to a concrete kernel object, typed only through the
/// capability interface.  The object universe holds the two illustrated
/// kinds: the no-op placeholder object and the process.
#[derive(Clone, Debug)]
pub enum KObject {
    /// A shared placeholder object.
    Dummy(Arc<DummyObject>),
    /// A shared process object.
    Process(Arc<Process>),
}

/// The capability interface every concrete kernel object exposes by
/// composing an identity base with a static type tag.
pub trait KernelObject: Sized {
    /// Identifier of the object, fixed at construction.
    spec fn spec_id(&self) -> KoID;

    /// The object's current name.
    spec fn spec_name(&self) -> Seq<char>;

    /// Static tag of the concrete type, never of the shared base.
    spec fn spec_type_tag(&self) -> Seq<char>;

    /// Which stored reference this concrete type recovers from a
    /// capability-typed reference: `Some` exactly on its own kind.
    spec fn spec_downcast(obj: KObject) -> Option<Arc<Self>>;

    /// What `set_name` leaves untouched beside the identity: the frame of
    /// the concrete type's own state.
    spec fn spec_set_name_frame(pre: Self, post: Self) -> bool;

    /// Returns the object's stable identifier.
    fn id(&self) -> (r: KoID)
        ensures
            r == self.spec_id(),
    ;

    /// Returns the static name of the concrete type.
    fn type_tag(&self) -> (r: &'static str)
        ensures
            r@ == self.spec_type_tag(),
    ;

    /// Returns a copy of the object's current name.
    fn name(&self) -> (r: String)
        ensures
            r@ == self.spec_name(),
    ;

    /// Replaces the object's name; identity, type tag and the rest of the
    /// object's state are untouched.
    fn set_name(&mut self, name: &str)
        ensures
            final(self).spec_name() == name@,
            final(self).spec_id() == old(self).spec_id(),
            final(self).spec_type_tag() == old(self).spec_type_tag(),
            Self::spec_set_name_frame(*old(self), *final(self)),
    ;

    /// Checked downcast: recovers a shared reference to the concrete type,
    /// or `None` when the reference is of another kind.  It fails closed;
    /// it never reinterprets.
    fn downcast(obj: &KObject) -> (r: Option<Arc<Self>>)
        ensures
            r == Self::spec_downcast(*obj),
    ;
}

} // verus!
