use prefix_sum::{SumQuery, SumQueryFixed, SumQueryVec};

#[test]
fn test_new() {
    let sum = SumQueryFixed::from([1, 3, 4, 8, 6, 1, 4, 2]);
    assert_eq!(sum.prefix_sum_array, [1, 4, 8, 16, 22, 23, 27, 29]);
}

#[test]
fn test_new_vec() {
    let sum = SumQueryVec::from([1, 3, 4, 8, 6, 1, 4, 2]);
    assert_eq!(sum.prefix_sum_array, vec![1, 4, 8, 16, 22, 23, 27, 29]);
}

#[test]
fn test_query_u32() {
    let sum = SumQueryFixed::from([1, 3, 4, 8, 6, 1, 4, 2]);

    let results = [
        (sum.query(3, 6), 19u32),
        (sum.query(0, 7), 29),
        (sum.query(0, 6), 27),
        (sum.query(1, 6), 26),
        (sum.query(2, 7), 25),
        (sum.query(5, 6), 5),
        (sum.query(6, 6), 4),
    ];

    for (l, r) in results {
        assert_eq!(l, r);
    }
}

#[test]
fn lib_test_query_u32_vec() {
    let sum = SumQueryVec::from([1, 3, 4, 8, 6, 1, 4, 2]);

    let results = [
        (sum.query(3, 6), 19u32),
        (sum.query(0, 7), 29),
        (sum.query(0, 6), 27),
        (sum.query(1, 6), 26),
        (sum.query(2, 7), 25),
        (sum.query(5, 6), 5),
    ];

    for (l, r) in results {
        assert_eq!(l, r);
    }
}

#[test]
fn lib_test_query_u64() {
    let sum = SumQueryFixed::from([1, 3, 4, 8, 6, 1, 4, 2]);

    let results = [
        (sum.query(3, 6), 19u64),
        (sum.query(0, 7), 29),
        (sum.query(0, 6), 27),
        (sum.query(1, 6), 26),
        (sum.query(2, 7), 25),
        (sum.query(5, 6), 5),
    ];

    for (l, r) in results {
        assert_eq!(l, r);
    }
}

#[test]
fn lib_test_query_i8() {
    let sum = SumQueryFixed::from([1, 3, 4, 8, 6, 1, 4, 2]);

    let results = [
        (sum.query(3, 6), 19i8),
        (sum.query(0, 7), 29),
        (sum.query(0, 6), 27),
        (sum.query(1, 6), 26),
        (sum.query(2, 7), 25),
        (sum.query(5, 6), 5),
    ];

    for (l, r) in results {
        assert_eq!(l, r);
    }
}
