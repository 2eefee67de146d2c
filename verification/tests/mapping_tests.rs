use universim::mapping::map_range;

#[test]
fn map_range_follows_the_line() {
    assert_eq!(map_range(3, 0, 10, 0, 100), 30);
    assert_eq!(map_range(128, 0, 255, 0, 1000), 501);
    assert_eq!(map_range(15, 0, 10, 0, 100), 150);
    assert_eq!(map_range(5, 10, 20, 100, 200), 50);
    assert_eq!(map_range(12, 10, 20, -100, 100), -60);
}

#[test]
fn map_range_meets_both_ends() {
    assert_eq!(map_range(10, 10, 20, 7, 9), 7);
    assert_eq!(map_range(20, 10, 20, 7, 9), 9);
    assert_eq!(map_range(20, 20, 10, 7, 9), 7);
    assert_eq!(map_range(10, 20, 10, 7, 9), 9);
    assert_eq!(map_range(0, 0, 800, 8, 0), 8);
    assert_eq!(map_range(800, 0, 800, 8, 0), 0);
}

#[test]
fn map_range_rounds_down() {
    assert_eq!(map_range(1, 0, 3, 0, 1), 0);
    assert_eq!(map_range(2, 0, 3, 0, 1), 0);
    assert_eq!(map_range(-1, 0, 3, 0, 1), -1);
    assert_eq!(map_range(-7, 0, 2, 0, 1), -4);
    assert_eq!(map_range(7, 0, -2, 0, 1), -4);
    assert_eq!(map_range(-7, 0, -2, 0, 1), 3);
    assert_eq!(map_range(7, 0, 2, 0, -1), -4);
    assert_eq!(map_range(1, 0, 3, 10, 0), 6);
}

#[test]
fn map_range_reaches_the_ends_of_64_bits() {
    assert_eq!(map_range(i64::MAX, 0, 1, 0, 1), i64::MAX);
    assert_eq!(map_range(i64::MIN, 0, 1, 0, 1), i64::MIN);
    assert_eq!(map_range(i64::MAX, i64::MIN, i64::MAX, 5, 6), 6);
    assert_eq!(map_range(0, i64::MIN, i64::MAX, 0, 0), 0);
    assert_eq!(map_range(i64::MIN + 1, 0, 1, 0, 1), i64::MIN + 1);
}
