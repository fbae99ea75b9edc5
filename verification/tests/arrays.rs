use containers::arrays::Array;

#[test]
fn arrays_test_new() {
    let arr: Array<i32, 3> = Array::new([1, 2, 3]);
    assert_eq!(arr.len(), 3);
    assert!(!arr.is_empty());
}

#[test]
fn test_empty_array() {
    let arr: Array<i32, 0> = Array::new([]);
    assert_eq!(arr.len(), 0);
    assert!(arr.is_empty());
}

#[test]
fn arrays_test_get() {
    let arr: Array<i32, 3> = Array::new([1, 2, 3]);
    assert_eq!(arr.get(0), Some(&1));
    assert_eq!(arr.get(1), Some(&2));
    assert_eq!(arr.get(2), Some(&3));
    assert_eq!(arr.get(3), None);
}

#[test]
fn arrays_test_get_mut() {
    let mut arr: Array<i32, 3> = Array::new([1, 2, 3]);
    if let Some(val) = arr.get_mut(1) {
        *val = 42;
    }
    assert_eq!(arr.get(1), Some(&42));
}

#[test]
fn arrays_test_set() {
    let mut arr: Array<i32, 3> = Array::new([1, 2, 3]);
    assert!(arr.set(1, 42).is_ok());
    assert_eq!(arr.get(1), Some(&42));
    assert!(arr.set(3, 99).is_err());
}

#[test]
fn arrays_test_iter() {
    let arr: Array<i32, 3> = Array::new([1, 2, 3]);
    let mut iter = arr.iter();
    assert_eq!(iter.next(), Some(&1));
    assert_eq!(iter.next(), Some(&2));
    assert_eq!(iter.next(), Some(&3));
    assert_eq!(iter.next(), None);
}

#[test]
fn arrays_test_iter_mut() {
    let mut arr: Array<i32, 3> = Array::new([1, 2, 3]);
    for val in arr.iter_mut() {
        *val += 10;
    }
    assert_eq!(arr.get(0), Some(&11));
    assert_eq!(arr.get(1), Some(&12));
    assert_eq!(arr.get(2), Some(&13));
}

#[test]
fn arrays_test_default() {
    let arr: Array<i32, 3> = Array::default();
    assert_eq!(arr.get(0), Some(&0));
    assert_eq!(arr.get(1), Some(&0));
    assert_eq!(arr.get(2), Some(&0));
}

#[test]
fn arrays_test_clone() {
    let arr: Array<i32, 3> = Array::new([1, 2, 3]);
    let cloned = arr.clone();
    assert_eq!(cloned.get(0), Some(&1));
    assert_eq!(cloned.get(1), Some(&2));
    assert_eq!(cloned.get(2), Some(&3));
}

#[test]
fn array_get_mut_out_of_range_is_none() {
    let mut arr: Array<i32, 3> = Array::new([1, 2, 3]);
    assert!(arr.get_mut(3).is_none());
    assert!(arr.get_mut(usize::MAX).is_none());
    assert_eq!(arr.get(0), Some(&1));
    assert_eq!(arr.get(1), Some(&2));
    assert_eq!(arr.get(2), Some(&3));
}

#[test]
fn array_set_reports_the_refusal_and_changes_nothing() {
    let mut arr: Array<i32, 3> = Array::new([1, 2, 3]);
    assert_eq!(arr.set(3, 99), Err("Index out of bounds"));
    assert_eq!(arr.set(usize::MAX, 99), Err("Index out of bounds"));
    assert_eq!(arr.get(0), Some(&1));
    assert_eq!(arr.get(1), Some(&2));
    assert_eq!(arr.get(2), Some(&3));
    assert_eq!(arr.set(0, 7), Ok(()));
    assert_eq!(arr.set(2, 9), Ok(()));
    assert_eq!(arr.get(0), Some(&7));
    assert_eq!(arr.get(1), Some(&2));
    assert_eq!(arr.get(2), Some(&9));
}

#[test]
fn empty_array_refuses_every_index() {
    let mut arr: Array<i32, 0> = Array::new([]);
    assert_eq!(arr.get(0), None);
    assert!(arr.get_mut(0).is_none());
    assert_eq!(arr.set(0, 1), Err("Index out of bounds"));
    assert_eq!(arr.iter().next(), None);
    assert!(arr.iter_mut().next().is_none());
}

#[test]
fn array_iter_mut_keeps_the_length() {
    let mut arr: Array<i32, 4> = Array::new([4, 3, 2, 1]);
    let mut visited: usize = 0;
    for val in arr.iter_mut() {
        *val *= 2;
        visited += 1;
    }
    assert_eq!(visited, 4);
    assert_eq!(arr.len(), 4);
    let seen: Vec<i32> = arr.iter().copied().collect();
    assert_eq!(seen, vec![8, 6, 4, 2]);
}

#[test]
fn array_default_fills_with_the_default_value() {
    let flags: Array<bool, 2> = Array::default();
    assert_eq!(flags.get(0), Some(&false));
    assert_eq!(flags.get(1), Some(&false));
    assert_eq!(flags.get(2), None);
    let bytes: Array<u8, 5> = Array::default();
    assert_eq!(bytes.len(), 5);
    assert!(bytes.iter().all(|b| *b == 0));
}

#[test]
fn array_clone_is_independent_of_the_source() {
    let mut arr: Array<i32, 3> = Array::new([1, 2, 3]);
    let cloned = arr.clone();
    assert_eq!(arr.set(0, 100), Ok(()));
    assert_eq!(cloned.get(0), Some(&1));
    assert_eq!(arr.get(0), Some(&100));
}

#[test]
fn array_debug_names_the_type_and_the_elements() {
    let arr: Array<i32, 3> = Array::new([1, 2, 3]);
    assert_eq!(format!("{:?}", arr), "Array { data: [1, 2, 3] }");
}
