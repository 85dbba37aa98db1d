use cycle_examples::sums::{
    equal_iter_rec, equal_rec_formula, sum_formula, sum_iterative, sum_recursive,
};

#[test]
fn sum_of_zero() {
    assert_eq!(sum_recursive(0), 0);
    assert_eq!(sum_iterative(0), 0);
    assert_eq!(sum_formula(0), 0);
}

#[test]
fn sum_of_one() {
    assert_eq!(sum_recursive(1), 1);
    assert_eq!(sum_iterative(1), 1);
    assert_eq!(sum_formula(1), 1);
}

#[test]
fn sum_of_nine() {
    // 1 + 2 + ... + 9 = 45
    assert_eq!(sum_recursive(9), 45);
    assert_eq!(sum_iterative(9), 45);
    assert_eq!(sum_formula(9), 45);
}

#[test]
fn sum_of_largest_input() {
    // 1 + 2 + ... + 255 = 255 * 256 / 2 = 32640
    assert_eq!(sum_recursive(255), 32640);
    assert_eq!(sum_iterative(255), 32640);
    assert_eq!(sum_formula(255), 32640);
}

#[test]
fn strategies_agree_everywhere() {
    for n in 0..=255u8 {
        assert!(equal_iter_rec(n));
        assert!(equal_rec_formula(n));
        assert_eq!(sum_iterative(n), sum_formula(n));
    }
}
