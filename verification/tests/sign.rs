use cycle_examples::sign::{addi, addu, get_sign};

#[test]
fn sign_of_positive() {
    assert_eq!(get_sign(1), 1);
    assert_eq!(get_sign(12345), 1);
    assert_eq!(get_sign(i32::MAX), 1);
}

#[test]
fn sign_of_zero() {
    assert_eq!(get_sign(0), 0);
}

#[test]
fn sign_of_negative() {
    assert_eq!(get_sign(-1), -1);
    assert_eq!(get_sign(-98765), -1);
    assert_eq!(get_sign(i32::MIN), -1);
}

#[test]
fn addu_doubles_small_values() {
    assert_eq!(addu(0), (0, 0));
    assert_eq!(addu(21), (21, 42));
    assert_eq!(addu(u32::MAX / 2), (u32::MAX / 2, u32::MAX - 1));
}

#[test]
fn addu_saturates_large_values() {
    assert_eq!(addu(u32::MAX / 2 + 1), (u32::MAX / 2 + 1, u32::MAX));
    assert_eq!(addu(u32::MAX), (u32::MAX, u32::MAX));
}

#[test]
fn addi_doubles_exactly() {
    assert_eq!(addi(0), (0, 0));
    assert_eq!(addi(21), (21, 42));
    assert_eq!(addi(-21), (-21, -42));
    assert_eq!(addi(i32::MAX / 2), (i32::MAX / 2, i32::MAX - 1));
    assert_eq!(addi(i32::MIN / 2), (i32::MIN / 2, i32::MIN));
}
