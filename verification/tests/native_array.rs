use unityrust_native::native_array::NativeArray;

#[test]
fn write_then_read_round_trips_in_range() {
    let mut arr = NativeArray::new(vec![0u64, 0, 0, 0], 4);
    for i in 0..4i64 {
        assert!(arr.set(i as isize, (i as u64) * 10));
    }
    for i in 0..4i64 {
        assert_eq!(arr.get(i as isize), Some(&((i as u64) * 10)));
    }
}

#[test]
fn out_of_range_access_is_absent_and_leaves_memory_untouched() {
    let mut arr = NativeArray::new(vec![1u32, 2, 3], 3);
    assert_eq!(arr.get(3), None);
    assert_eq!(arr.get(-1), None);
    assert_eq!(arr.get(isize::MAX), None);
    assert!(!arr.set(3, 99));
    assert!(!arr.set(-1, 99));
    assert_eq!(arr.release(), vec![1, 2, 3]);
}

#[test]
fn bounded_view_over_four_floats() {
    let mut arr = NativeArray::new(vec![0.0f32; 4], 4);
    assert!(arr.set(3, 9.0));
    assert_eq!(arr.get(3), Some(&9.0));
    assert_eq!(arr.get(4), None);
    assert!(!arr.set(-1, 1.0));
}

#[test]
fn checked_mutable_access_updates_in_place_and_rejects_out_of_range() {
    let mut arr = NativeArray::new(vec![1u64, 2, 3], 3);
    if let Some(element) = arr.get_mut(1) {
        *element = 20;
    }
    assert_eq!(arr.get(1), Some(&20));
    assert_eq!(arr.get_mut(3), None);
    assert_eq!(arr.get_mut(-1), None);
    assert_eq!(arr.release(), vec![1, 20, 3]);
}

#[test]
fn direct_index_reads_and_writes_in_place() {
    let mut arr = NativeArray::new(vec![5u8, 6], 2);
    assert_eq!(*arr.index(1), 6);
    *arr.index_mut(0) = 50;
    assert_eq!(*arr.index(0), 50);
    assert_eq!(arr.release(), vec![50, 6]);
}

#[test]
fn empty_view_rejects_every_index() {
    let mut arr: NativeArray<u16> = NativeArray::new(Vec::new(), 0);
    assert_eq!(arr.size(), 0);
    assert_eq!(arr.get(0), None);
    assert!(!arr.set(0, 1));
}

#[test]
fn size_reports_the_declared_count() {
    let arr = NativeArray::new(vec![0u8; 7], 7);
    assert_eq!(arr.size(), 7);
}
