use std::collections::HashMap;

use prefix_sum::sum_query::{IndexableSumQuery, SumQuery};

#[test]
fn sum_query_test() {
    let data = [123u32];
    let data2 = vec![123u32];
    let data3 = vec![123u32];
    let data3 = data3.as_slice();
    let hm = HashMap::<u32, u32>::new();
    let _ = hm;

    let _sum = SumQuery::<[_; 1]>::new(&data);
    let _sum = SumQuery::<Vec<_>>::new(&data2);
    let _sum = SumQuery::<Vec<_>>::from(data3);
}

#[test]
fn sum_query_test_query_u32_vec() {
    let data = vec![1, 3, 4, 8, 6, 1, 4, 2];
    let sum = SumQuery::<Vec<_>>::from(&data);
    let _ = data[0];

    let results = [
        (sum.query(3, 6), 19u32),
        (sum.query(0, 7), 29),
        (sum.query(0, 6), 27),
        (sum.query(1, 6), 26),
        (sum.query(2, 7), 25),
        (sum.query(5, 6), 5),
    ];

    for (l, r) in results {
        assert_eq!(l, r);
    }
}

#[test]
fn sum_query_test_query_u64() {
    let sum = SumQuery::<[_; 8]>::new(&[1, 3, 4, 8, 6, 1, 4, 2]);

    let results = [
        (sum.query(3, 6), 19u64),
        (sum.query(0, 7), 29),
        (sum.query(0, 6), 27),
        (sum.query(1, 6), 26),
        (sum.query(2, 7), 25),
        (sum.query(5, 6), 5),
    ];

    for (l, r) in results {
        assert_eq!(l, r);
    }
}

#[test]
fn sum_query_test_query_i8() {
    let sum = SumQuery::<[_; 8]>::new(&[1, 3, 4, 8, 6, 1, 4, 2]);

    let results = [
        (sum.query(3, 6), 19i8),
        (sum.query(0, 7), 29),
        (sum.query(0, 6), 27),
        (sum.query(1, 6), 26),
        (sum.query(2, 7), 25),
        (sum.query(5, 6), 5),
    ];

    for (l, r) in results {
        assert_eq!(l, r);
    }
}

#[test]
fn test_query_slice() {
    let slice = [1u32, 3, 4, 8, 6, 1, 4, 2];
    let slice = &slice;
    let sum = SumQuery::<[_; 8]>::from(slice);

    let results = [
        (sum.query(3, 6), 19u32),
        (sum.query(0, 7), 29),
        (sum.query(0, 6), 27),
        (sum.query(1, 6), 26),
        (sum.query(2, 7), 25),
        (sum.query(5, 6), 5),
    ];

    for (l, r) in results {
        assert_eq!(l, r);
    }
}

#[test]
fn test_query_slice_vec() {
    let slice = vec![1u32, 3, 4, 8, 6, 1, 4, 2];
    let sum = SumQuery::<Vec<_>>::from(&slice);

    let results = [
        (sum.query(3, 6), 19u32),
        (sum.query(0, 7), 29),
        (sum.query(0, 6), 27),
        (sum.query(1, 6), 26),
        (sum.query(2, 7), 25),
        (sum.query(5, 6), 5),
    ];

    for (l, r) in results {
        assert_eq!(l, r);
    }
}
