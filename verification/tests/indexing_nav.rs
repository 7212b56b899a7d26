//! Circular list indexing used by the row-addressed views.

use outpost::indexing::circular_index;
use outpost::indexing::circular_index_in;

#[test]
fn main_calculate_circular_index() {
    let assert_index = |expected: usize, index: i32, arr: &Vec<i32>| {
        assert_eq!(
            expected,
            circular_index_in(index, arr),
            "indexing {} should create circular index {}",
            index,
            expected
        );
    };
    let arr = vec![1, 2, 3];
    assert_index(0, 0, &arr);

    // positive
    assert_index(1, 1, &arr);
    assert_index(2, 2, &arr);
    assert_index(0, 3, &arr);
    assert_index(1, 4, &arr);
    assert_index(2, 5, &arr);
    assert_index(0, 6, &arr);
    // negative
    assert_index(2, -1, &arr);
    assert_index(1, -2, &arr);
    assert_index(0, -3, &arr);
    assert_index(2, -4, &arr);
}

#[test]
fn app_calculate_circular_index() {
    let assert_index = |expected: usize, index: i32, len: usize| {
        assert_eq!(
            expected,
            circular_index(index, len),
            "indexing {} should create circular index {}",
            index,
            expected
        );
    };
    assert_index(0, 0, 3);

    // positive
    assert_index(1, 1, 3);
    assert_index(2, 2, 3);
    assert_index(0, 3, 3);
    assert_index(1, 4, 3);
    assert_index(2, 5, 3);
    assert_index(0, 6, 3);
    // negative
    assert_index(2, -1, 3);
    assert_index(1, -2, 3);
    assert_index(0, -3, 3);
    assert_index(2, -4, 3);
    // empty list
    assert_index(0, 5, 0);
}
