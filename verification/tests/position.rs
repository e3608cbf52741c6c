use colony::Position;

fn at(x: i32, y: i32, z: i32) -> Position {
    Position { x, y, z }
}

#[test]
fn distance_of_a_right_triangle() {
    assert_eq!(at(0, 0, 0).distance(&at(3, 4, 0)), 5);
    assert_eq!(at(-3, -4, 0).distance(&at(3, 4, 0)), 10);
}

#[test]
fn distance_is_cut_off_not_rounded() {
    assert_eq!(at(0, 0, 0).distance(&at(1, 1, 0)), 1);
    assert_eq!(at(0, 0, 0).distance(&at(2, 2, 0)), 2);
    assert_eq!(at(0, 0, 0).distance(&at(0, 24, 0)), 24);
    assert_eq!(at(5, 5, 0).distance(&at(9, 9, 0)), 5);
    assert_eq!(at(0, 0, 0).distance(&at(7, 7, 0)), 9);
}

#[test]
fn distance_is_the_same_both_ways() {
    let points = [at(0, 0, 0), at(3, -7, 2), at(-12, 5, 1), at(100, 100, 0), at(-1, -1, 9)];
    for a in &points {
        for b in &points {
            assert_eq!(a.distance(b), b.distance(a));
        }
    }
}

#[test]
fn distance_to_self_is_zero() {
    for p in [at(0, 0, 0), at(17, -4, 3), at(i32::MAX, i32::MIN, 0)] {
        assert_eq!(p.distance(&p), 0);
    }
}

#[test]
fn distance_ignores_the_layer() {
    assert_eq!(at(0, 0, 0).distance(&at(0, 0, 50)), 0);
    assert_eq!(at(1, 2, -7).distance(&at(4, 6, 9)), 5);
}

#[test]
fn distance_stays_exact_for_large_numbers() {
    assert_eq!(at(0, 0, 0).distance(&at(4096, 0, 0)), 4096);
    assert_eq!(at(0, 0, 0).distance(&at(1_000_000, 1, 0)), 1_000_000);
    assert_eq!(at(0, 0, 0).distance(&at(46341, 46341, 0)), 65536);
    assert_eq!(at(0, 0, 0).distance(&at(i32::MAX, 0, 0)), i32::MAX);
    assert_eq!(at(-1_073_741_823, 0, 0).distance(&at(1_073_741_824, 0, 0)), i32::MAX);
}

#[test]
fn checked_distance_tells_when_the_result_does_not_fit() {
    assert_eq!(at(0, 0, 0).checked_distance(&at(3, 4, 0)), Some(5));
    assert_eq!(at(0, 0, 0).checked_distance(&at(i32::MAX, 0, 0)), Some(i32::MAX));
    assert_eq!(at(i32::MIN, 0, 0).checked_distance(&at(i32::MAX, 0, 0)), None);
    assert_eq!(at(-1, 0, 0).checked_distance(&at(i32::MAX, 0, 0)), None);
    assert_eq!(at(i32::MIN, i32::MIN, 0).checked_distance(&at(i32::MAX, i32::MAX, 0)), None);
    assert_eq!(at(0, 0, 0).checked_distance(&at(i32::MAX, i32::MAX, 0)), None);
}

#[test]
fn a_distance_beyond_the_range_comes_out_as_the_largest() {
    assert_eq!(at(i32::MIN, 0, 0).distance(&at(i32::MAX, 0, 0)), i32::MAX);
    assert_eq!(at(-1, 0, 0).distance(&at(i32::MAX, 0, 0)), i32::MAX);
    assert_eq!(at(i32::MIN, i32::MIN, 0).distance(&at(i32::MAX, i32::MAX, 0)), i32::MAX);
    assert_eq!(at(i32::MAX, i32::MAX, 7).distance(&at(i32::MIN, i32::MIN, -7)), i32::MAX);
    assert_eq!(at(0, 0, 0).distance(&at(i32::MAX, i32::MAX, 0)), i32::MAX);
    assert_eq!(at(0, 0, 0).distance(&at(i32::MAX, 1, 0)), i32::MAX);
    assert_eq!(at(0, 0, 0).distance(&at(i32::MAX - 1, 0, 0)), i32::MAX - 1);
}
