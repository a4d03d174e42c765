use fifo_queue::extrema::find_extrema;

#[test]
fn test_find_extrema() {
    let a = [0, -3, 15, 48];
    let e = find_extrema(&a);
    assert_eq!(*e.least, -3);
    assert_eq!(*e.greatest, 48);
}

#[test]
fn extrema_of_one_element() {
    let a = [7];
    let e = find_extrema(&a);
    assert_eq!(*e.least, 7);
    assert_eq!(*e.greatest, 7);
}

#[test]
fn extrema_at_the_ends_and_among_equals() {
    let a = [i32::MAX, 5, 5, i32::MIN];
    let e = find_extrema(&a);
    assert_eq!(*e.least, i32::MIN);
    assert_eq!(*e.greatest, i32::MAX);

    let b = [4, 4, 4];
    let e = find_extrema(&b);
    assert_eq!(*e.least, 4);
    assert_eq!(*e.greatest, 4);
}

#[test]
fn extrema_point_into_the_slice() {
    let a = [3, 9, -2, 9, -2];
    let e = find_extrema(&a);
    assert!(std::ptr::eq(e.greatest, &a[1]));
    assert!(std::ptr::eq(e.least, &a[2]));
}
