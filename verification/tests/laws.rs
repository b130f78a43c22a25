use prefix_sum::sum_query::{IndexableSumQuery, SumQuery as TableOnly};
use prefix_sum::{SumQuery, SumQueryFixed, SumQuerySlice, SumQueryVec};

fn naive_sum_i64(data: &[i64], start: usize, end: usize) -> i64 {
    let mut total: i64 = 0;
    for i in start..=end {
        total += data[i];
    }
    total
}

#[test]
fn test_slice_scenario_queries() {
    let data = [1u32, 3, 4, 8, 6, 1, 4, 2];
    let sum = SumQuerySlice::from(&data[..]);

    assert_eq!(sum.prefix_sum_array, vec![1, 4, 8, 16, 22, 23, 27, 29]);
    assert_eq!(sum.query(3, 6), 19);
    assert_eq!(sum.query(0, 7), 29);
    assert_eq!(sum.query(0, 6), 27);
    assert_eq!(sum.query(1, 6), 26);
    assert_eq!(sum.query(2, 7), 25);
    assert_eq!(sum.query(5, 6), 5);
    assert_eq!(sum.query(6, 6), 4);
}

#[test]
fn test_variants_agree_on_all_queries() {
    let data = [5i64, -2, 7, 0, -9, 3];
    let fixed = SumQueryFixed::from(data);
    let vec = SumQueryVec::from(data);
    let slice = SumQuerySlice::new(&data[..]);

    for start in 0..data.len() {
        for end in start..data.len() {
            let expected = naive_sum_i64(&data, start, end);
            assert_eq!(fixed.query(start, end), expected);
            assert_eq!(vec.query(start, end), expected);
            assert_eq!(slice.query(start, end), expected);
        }
    }
}

#[test]
fn test_query_matches_naive_sum() {
    let data = [-31i64, 17, 0, 4, -2, 90, -55, 7, 7, 12];
    let sum = SumQueryVec::new(data.to_vec());

    for start in 0..data.len() {
        for end in start..data.len() {
            assert_eq!(sum.query(start, end), naive_sum_i64(&data, start, end));
        }
    }
}

#[test]
fn test_zero_length_ranges() {
    let data = [9u64, 0, 3, 27, 1];
    let sum = SumQueryFixed::from(data);

    for i in 0..data.len() {
        assert_eq!(sum.query(i, i), data[i]);
    }
}

#[test]
fn test_full_range_query() {
    let data = [4i32, -1, 6, 2, -3, 5];
    let sum = SumQueryVec::new(data.to_vec());

    let total: i32 = data.iter().sum();
    assert_eq!(sum.query(0, data.len() - 1), total);
}

#[test]
fn test_empty_source() {
    let sum = SumQueryVec::<u32>::new(Vec::new());
    assert_eq!(sum.data.len(), 0);
    assert_eq!(sum.prefix_sum_array.len(), 0);

    let fixed = SumQueryFixed::<u32, 0>::new([]);
    assert_eq!(fixed.prefix_sum_array.len(), 0);

    let empty: [u32; 0] = [];
    let slice = SumQuerySlice::new(&empty[..]);
    assert_eq!(slice.prefix_sum_array.len(), 0);
}

#[test]
fn test_single_element() {
    let sum = SumQueryFixed::from([41i8]);
    assert_eq!(sum.query(0, 0), 41);
    assert_eq!(sum.prefix_sum_array, [41]);
}

#[test]
fn test_table_reaches_type_maximum() {
    let data = [100u8, 100, 55];
    let sum = SumQuerySlice::new(&data[..]);
    assert_eq!(sum.prefix_sum_array, vec![100, 200, 255]);
    assert_eq!(sum.query(0, 2), 255);
    assert_eq!(sum.query(1, 2), 155);
}

#[test]
fn test_signed_prefixes_can_fall_and_rise() {
    let data = [-7i32, -8, 20, -5];
    let sum = SumQueryVec::new(data.to_vec());
    assert_eq!(sum.prefix_sum_array, vec![-7, -15, 5, 0]);
    assert_eq!(sum.query(0, 1), -15);
    assert_eq!(sum.query(1, 2), 12);
    assert_eq!(sum.query(0, 3), 0);
}

#[test]
fn test_indexable_accessor_and_non_zero_query() {
    let data = [2u16, 4, 6, 8];
    let sum = TableOnly::<Vec<_>>::new(&data[..]);

    assert_eq!(sum.prefix_sum_array(), &vec![2u16, 6, 12, 20]);
    assert_eq!(sum.non_zero_query(1, 3), 18);
    assert_eq!(sum.non_zero_query(2, 2), 6);
    assert_eq!(sum.query(0, 3), 20);
}

#[test]
fn test_indexable_fixed_matches_vec() {
    let data = [3u64, 1, 4, 1, 5, 9, 2, 6];
    let fixed = TableOnly::<[_; 8]>::new(&data[..]);
    let vec = TableOnly::<Vec<_>>::new(&data[..]);

    for start in 0..data.len() {
        for end in start..data.len() {
            assert_eq!(fixed.query(start, end), vec.query(start, end));
        }
    }
}
