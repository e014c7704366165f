//! Tests of the swap-or-not shuffle's input gates.

use beacon_core::shuffle::get_permutated_index;

#[test]
fn returns_none_for_zero_length_list() {
    assert_eq!(None, get_permutated_index(100, 0, &[42, 42], 90));
}

#[test]
fn returns_none_for_out_of_bounds_index() {
    assert_eq!(None, get_permutated_index(100, 100, &[42, 42], 90));
}

#[test]
fn returns_none_for_too_large_list() {
    assert_eq!(
        None,
        get_permutated_index(100, usize::max_value() / 2, &[42, 42], 90)
    );
}

#[test]
fn distinct_indices_land_on_distinct_positions() {
    // One seed, list size and round count give a permutation.
    let n = 16;
    let mut seen = vec![false; n];
    for i in 0..n {
        let p = get_permutated_index(i, n, &[9, 8, 7], 10).unwrap();
        assert!(p < n);
        assert!(!seen[p], "two indices landed on position {}", p);
        seen[p] = true;
    }
}

#[test]
fn permutated_index_stays_in_bounds() {
    let r = get_permutated_index(5, 16, &[1, 2, 3], 16).unwrap();
    assert!(r < 16);
    // The same inputs permute the same way.
    assert_eq!(Some(r), get_permutated_index(5, 16, &[1, 2, 3], 16));
}
