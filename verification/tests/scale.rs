use termchart::scale::scale;

#[test]
fn ends_of_the_axis_map_to_the_ends_of_the_extent() {
    assert_eq!(scale(10, 0, 10, 8), Some(0));
    assert_eq!(scale(0, 0, 10, 8), Some(8));
}

#[test]
fn values_between_are_rounded_down() {
    assert_eq!(scale(5, 0, 10, 10), Some(5));
    assert_eq!(scale(3, 0, 10, 8), Some(5));
    assert_eq!(scale(7, 0, 10, 18), Some(5));
    assert_eq!(scale(-3, -5, 5, 7), Some(5));
    assert_eq!(scale(9, 0, 10, 0), Some(0));
}

#[test]
fn values_outside_the_bounds_have_no_offset() {
    assert_eq!(scale(11, 0, 10, 8), None);
    assert_eq!(scale(-1, 0, 10, 8), None);
    assert_eq!(scale(5, 10, 0, 8), None);
}

#[test]
fn equal_bounds_span_nothing() {
    assert_eq!(scale(4, 4, 4, 8), None);
    assert_eq!(scale(0, 0, 0, 0), None);
}

#[test]
fn greater_values_never_get_greater_offsets() {
    let mut previous: u16 = u16::MAX;
    for v in -20..=35 {
        let offset = scale(v, -20, 35, 17).unwrap();
        assert!(offset <= previous);
        assert!(offset <= 17);
        previous = offset;
    }
    assert_eq!(previous, 0);
}

#[test]
fn widest_bounds_do_not_overflow() {
    assert_eq!(scale(i64::MIN, i64::MIN, i64::MAX, u16::MAX), Some(u16::MAX));
    assert_eq!(scale(i64::MAX, i64::MIN, i64::MAX, u16::MAX), Some(0));
    assert_eq!(scale(0, i64::MIN, i64::MAX, 100), Some(49));
    assert_eq!(scale(-1, i64::MIN, i64::MAX, 100), Some(50));
}
