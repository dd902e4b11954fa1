use std::sync::Arc;
use zcore::error::ZxError;
use zcore::object::handle::Handle;
use zcore::object::object_imp::{DummyObject, KoidAllocator};
use zcore::object::rights::Rights;
use zcore::object::{KObject, KernelObject};
use zcore::task::process::Process;

#[test]
fn impl_kobject() {
    let mut ids = KoidAllocator::new();
    let mut dummy = DummyObject::new(&mut ids);
    assert_eq!(dummy.type_tag(), "DummyObject");
    assert_eq!(dummy.name(), "");
    dummy.set_name("dummy");
    assert_eq!(dummy.name(), "dummy");
    // a capability-typed reference recovers the concrete type on demand
    let object = KObject::Dummy(Arc::new(dummy.clone()));
    let result: Arc<DummyObject> = DummyObject::downcast(&object).unwrap();
    assert_eq!(result.id(), dummy.id());
    assert_eq!(result.name(), "dummy");
    // the downcast fails closed on a mismatching concrete type
    assert!(Process::downcast(&object).is_none());
}

#[test]
fn new_obj_handle() {
    let mut ids = KoidAllocator::new();
    let obj = DummyObject::new(&mut ids);
    let _handle1 = Handle::new(KObject::Dummy(Arc::new(obj.clone())), Rights::BASIC());
}

#[test]
fn handle_clone_shares_object() {
    let mut ids = KoidAllocator::new();
    let obj = Arc::new(DummyObject::new(&mut ids));
    let handle = Handle::new(KObject::Dummy(obj.clone()), Rights::READ());
    let copy = handle.clone();
    let KObject::Dummy(first) = &handle.object else {
        panic!("expected a placeholder object");
    };
    let KObject::Dummy(second) = &copy.object else {
        panic!("expected a placeholder object");
    };
    assert!(Arc::ptr_eq(first, second));
    assert_eq!(copy.rights, handle.rights);
}

#[test]
fn koids_are_unique_and_monotonic() {
    let mut ids = KoidAllocator::new();
    let a = DummyObject::new(&mut ids);
    let b = DummyObject::new(&mut ids);
    let c = Process::new(&mut ids);
    assert_eq!(a.id(), 1024);
    assert_eq!(b.id(), 1025);
    assert_eq!(c.id(), 1026);
}

#[test]
fn error_codes_are_stable() {
    assert_eq!(ZxError::OK.code(), 0);
    assert_eq!(ZxError::BAD_HANDLE.code(), -11);
    assert_eq!(ZxError::WRONG_TYPE.code(), -12);
    assert_eq!(ZxError::PEER_CLOSED.code(), -13);
    assert_eq!(ZxError::SHOULD_WAIT.code(), -14);
    assert_eq!(ZxError::ACCESS_DENIED.code(), -30);
}

#[test]
fn rights_containment() {
    assert!(Rights::BASIC().contains(Rights::BASIC()));
    assert!(Rights::BASIC().contains(Rights::empty()));
    assert!(!Rights::BASIC().contains(Rights::WRITE()));
    assert!(!Rights::empty().contains(Rights::READ()));
    // the two names are deliberately the identical bit
    assert_eq!(Rights::BASIC(), Rights::DEFAULT_PROCESS());
    let transferable = Rights {
        bits: Rights::DUPLICATE().bits | Rights::TRANSFER().bits | Rights::EXECUTE().bits,
    };
    assert!(transferable.contains(Rights::TRANSFER()));
    assert!(!transferable.contains(Rights::READ()));
    assert!(!Rights::READ().contains(Rights { bits: Rights::READ().bits | Rights::WRITE().bits }));
}
