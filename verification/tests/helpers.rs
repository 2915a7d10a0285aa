use syscall2struct::helpers::{
    AsMutPtr, AsPtr, Pointer, PtrTarget, PtrTargetMut, ResultContainer, SyscallResult, UnboundedResultContainer,
    RESULT_CAPACITY,
};

#[test]
fn test_pointer_index() {
    let addr: Pointer<i32> = Pointer::Addr(0x1234);
    let data = Pointer::Data(0x1234);

    assert_eq!(addr.enum_index(), 0);
    assert_eq!(data.enum_index(), 1);
}

#[test]
fn syscall_result_index() {
    assert_eq!(SyscallResult::Ref(7).enum_index(), 0);
    assert_eq!(SyscallResult::Value(7).enum_index(), 1);
}

#[test]
fn pointer_as_ptr_targets() {
    let addr: Pointer<u64> = Pointer::Addr(0x1000);
    match addr.as_ptr() {
        PtrTarget::Address(a) => assert_eq!(a, 0x1000),
        PtrTarget::Data(_) => panic!("an address pointer points at its address"),
    }
    let data: Pointer<u64> = Pointer::Data(42);
    match data.as_ptr() {
        PtrTarget::Data(d) => assert_eq!(*d, 42),
        PtrTarget::Address(_) => panic!("a data pointer points at its data"),
    }
    let value: u64 = 5;
    let r = &value;
    match r.as_ptr() {
        PtrTarget::Data(d) => assert_eq!(*d, 5),
        PtrTarget::Address(_) => panic!("a reference points at its referent"),
    }
}

#[test]
fn pointer_as_mut_ptr_writes_data() {
    let mut data: Pointer<u64> = Pointer::Data(1);
    match data.as_mut_ptr() {
        PtrTargetMut::Data(d) => *d = 9,
        PtrTargetMut::Address(_) => panic!("a data pointer points at its data"),
    }
    match data {
        Pointer::Data(v) => assert_eq!(v, 9),
        Pointer::Addr(_) => panic!("the variant stays"),
    }
    let mut addr: Pointer<u64> = Pointer::Addr(77);
    match addr.as_mut_ptr() {
        PtrTargetMut::Address(a) => assert_eq!(a, 77),
        PtrTargetMut::Data(_) => panic!("an address pointer points at its address"),
    }
}

#[test]
fn result_container_get_after_insert() {
    let mut results = ResultContainer::new();
    assert!(!results.contains_key(&1));
    assert_eq!(results.get(&1), None);
    results.insert(1, 100);
    results.insert(2, 200);
    assert!(results.contains_key(&1));
    assert_eq!(results.get(&1), Some(100));
    assert_eq!(results.get(&2), Some(200));
    assert_eq!(results.get(&3), None);
    results.insert(1, 111);
    assert_eq!(results.get(&1), Some(111));
    assert_eq!(results.get(&2), Some(200));
}

#[test]
fn result_container_full_accepts_present_keys() {
    let mut results = ResultContainer::new();
    for k in 0..RESULT_CAPACITY as u128 {
        results.insert(k, k as usize * 2);
    }
    for k in 0..RESULT_CAPACITY as u128 {
        assert_eq!(results.get(&k), Some(k as usize * 2));
    }
    results.insert(5, 55);
    assert_eq!(results.get(&5), Some(55));
    assert!(!results.contains_key(&(RESULT_CAPACITY as u128)));
}

#[test]
fn result_container_uuid_keys() {
    let id = uuid::Uuid::from_u128(0x0123_4567_89ab_cdef_0123_4567_89ab_cdef);
    let mut results = ResultContainer::new();
    results.insert(id.as_u128(), 3);
    assert_eq!(results.get(&id.as_u128()), Some(3));
}

#[test]
fn reference_as_mut_ptr_writes_referent() {
    let mut value: u64 = 1;
    {
        let mut r = &mut value;
        match r.as_mut_ptr() {
            PtrTargetMut::Data(d) => *d = 3,
            PtrTargetMut::Address(_) => panic!("a reference points at its referent"),
        }
    }
    assert_eq!(value, 3);
}

#[test]
fn result_container_last_insert_wins() {
    let mut results = ResultContainer::new();
    results.insert(1, 10);
    results.insert(2, 20);
    results.insert(1, 11);
    results.insert(3, 30);
    results.insert(1, 12);
    assert_eq!(results.get(&1), Some(12));
    assert_eq!(results.get(&2), Some(20));
    assert_eq!(results.get(&3), Some(30));
    assert_eq!(results.get(&4), None);
}

#[test]
fn unbounded_result_container_grows_past_the_fixed_capacity() {
    let mut results = UnboundedResultContainer::new();
    let many = 4 * RESULT_CAPACITY as u128;
    for k in 0..many {
        results.insert(k, k as usize + 1);
    }
    results.insert(3, 99);
    for k in 0..many {
        assert!(results.contains_key(&k));
    }
    assert_eq!(results.get(&0), Some(1));
    assert_eq!(results.get(&3), Some(99));
    assert_eq!(results.get(&(many - 1)), Some(many as usize));
    assert_eq!(results.get(&many), None);
    assert!(!results.contains_key(&many));
}
