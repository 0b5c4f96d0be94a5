use tickets::parallel_sum::{checked_sum, checked_sum_of, sum, sum_of};

#[test]
fn empty() {
    static ARRAY: [i32; 0] = [];
    assert_eq!(sum(&ARRAY), 0);
}

#[test]
fn one() {
    static ARRAY: [i32; 1] = [1];
    assert_eq!(sum(&ARRAY), 1);
}

#[test]
fn five() {
    static ARRAY: [i32; 5] = [1, 2, 3, 4, 5];
    assert_eq!(sum(&ARRAY), 15);
}

#[test]
fn nine() {
    static ARRAY: [i32; 9] = [1, 2, 3, 4, 5, 6, 7, 8, 9];
    assert_eq!(sum(&ARRAY), 45);
}

#[test]
fn ten() {
    static ARRAY: [i32; 10] = [1, 2, 3, 4, 5, 6, 7, 8, 9, 10];
    assert_eq!(sum(&ARRAY), 55);
}

#[test]
fn sum_of_one_share() {
    assert_eq!(sum_of(&[]), 0);
    assert_eq!(sum_of(&[-4, 10, -6]), 0);
    assert_eq!(sum_of(&[i32::MAX, -1, 1]), i32::MAX);
    assert_eq!(sum_of(&[i32::MIN, 1, -1]), i32::MIN);
}

#[test]
fn checked_sums_see_what_leaves_the_range() {
    assert_eq!(checked_sum_of(&[1, 2, 3]), Some(6));
    assert_eq!(checked_sum_of(&[i32::MAX, 1, -1]), None);
    assert_eq!(checked_sum_of(&[i32::MIN, -1]), None);
    assert_eq!(checked_sum(&[1, 2, 3, 4, 5]), Some(15));
    assert_eq!(checked_sum(&[]), Some(0));
    // Each half is in range, their sum is not.
    assert_eq!(checked_sum(&[i32::MAX, 1]), None);
    // In halves this is in range, though from the first to the last it is not.
    assert_eq!(checked_sum(&[i32::MAX, 1, -2]), Some(i32::MAX - 1));
    assert_eq!(checked_sum_of(&[i32::MAX, 1, -2]), None);
    // The first half leaves the range.
    assert_eq!(checked_sum(&[i32::MAX, 1, -5, -5]), None);
}
