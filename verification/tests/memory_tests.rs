use tensor::MemorySpace;

#[test]
fn test_mem_space_new() {
    let mem_space: MemorySpace<u8> = MemorySpace::new();
    assert!(!mem_space.is_allocated());
}

#[test]
fn test_mem_space_store_access() {
    let mut mem_space: MemorySpace<u8> = MemorySpace::new_allocate_memset(3, 0);

    // Store some values.
    for i in 0..3 {
        mem_space.store(i, i as u8 + 1);
    }

    assert_eq!(*mem_space.access(0), 1);
    assert_eq!(*mem_space.access(1), 2);
    assert_eq!(*mem_space.access(2), 3);
}

#[test]
fn test_mem_space_memset() {
    let mut mem_space: MemorySpace<u8> = MemorySpace::new_allocate_memset(4, 1);
    mem_space.memset(7);
    assert_eq!(mem_space.as_slice(), &[7, 7, 7, 7]);
}

#[test]
fn test_mem_space_as_slice() {
    let mut mem_space: MemorySpace<u8> = MemorySpace::new_allocate_memset(3, 0);

    // Store some values.
    for i in 0..3 {
        mem_space.store(i, i as u8 + 1);
    }

    // Values should be accessible as a slice.
    let slice = mem_space.as_slice();
    assert_eq!(slice, &[1, 2, 3]);
}

#[test]
fn test_mem_space_make_copy() {
    let mut original: MemorySpace<u8> = MemorySpace::new_allocate_memset(3, 0);

    for i in 0..3 {
        original.store(i, i as u8 + 1);
    }

    let mut copied = original.make_copy();

    for i in 0..3 {
        assert_eq!(*copied.access(i), *original.access(i));
    }

    original.store(0, 10);
    assert_eq!(*original.access(0), 10);
    assert_eq!(*copied.access(0), 1);

    copied.store(0, 11);
    assert_eq!(*copied.access(0), 11);
    assert_eq!(*original.access(0), 10);
}

#[test]
fn test_cmp_eq() {
    let mem_space1: MemorySpace<u8> = MemorySpace::from_slice(&[1, 2, 3]);
    let mem_space2: MemorySpace<u8> = MemorySpace::from_slice(&[1, 2, 3]);
    let mem_space3: MemorySpace<u8> = MemorySpace::from_slice(&[3, 2, 1]);

    assert!(mem_space1.cmp_eq(&mem_space2));
    assert!(!mem_space1.cmp_eq(&mem_space3));
}

#[test]
fn alloc_test_from_slice() {
    let values = [1, 2, 3];
    let mem_space = MemorySpace::from_slice(&values);
    for (i, &value) in values.iter().enumerate() {
        assert_eq!(*mem_space.access(i), value);
    }
}

#[test]
fn alloc_test_from_vec() {
    let values = vec![1, 2, 3];
    let mem_space = MemorySpace::from_vec(values.clone());
    for (i, &value) in values.iter().enumerate() {
        assert_eq!(*mem_space.access(i), value);
    }
}

#[test]
fn test_mem_space_as_slice_mut() {
    let mut mem_space: MemorySpace<u8> = MemorySpace::new_allocate_memset(3, 0);

    for i in 0..3 {
        mem_space.store(i, i as u8 + 1);
    }

    let slice = mem_space.as_slice_mut();
    slice[0] = 9;

    assert_eq!(mem_space.as_slice(), &[9, 2, 3]);
}

#[test]
fn test_mem_space_access_mut() {
    let mut mem_space: MemorySpace<u8> = MemorySpace::new_allocate_memset(3, 0);

    // Store some values.
    mem_space.store(0, 1);
    mem_space.store(1, 2);

    // Mutate the value.
    *mem_space.access_mut(0) = 10;

    // Value should be updated.
    assert_eq!(*mem_space.access(0), 10);
}

#[test]
fn test_mem_space_make_clone() {
    let mut original: MemorySpace<String> = MemorySpace::from_vec(vec![
        1.to_string(),
        2.to_string(),
        3.to_string(),
    ]);

    let mut cloned = original.make_clone();

    for i in 0..3 {
        assert_eq!(cloned.access(i), original.access(i));
    }

    original.access_mut(0).push('0');
    assert_eq!(original.access(0), "10");
    assert_eq!(cloned.access(0), "1");

    cloned.access_mut(0).push('1');
    assert_eq!(cloned.access(0), "11");
    assert_eq!(original.access(0), "10");
}
