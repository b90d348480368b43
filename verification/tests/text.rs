use pygui::text::{push_int, push_nat};

fn natural(n: u64) -> String {
    let mut out = String::new();
    push_nat(&mut out, n);
    out
}

fn integer(n: i64) -> String {
    let mut out = String::new();
    push_int(&mut out, n);
    out
}

#[test]
fn nat_digits_of_small_numbers() {
    assert_eq!(natural(0), "0");
    assert_eq!(natural(2), "2");
    assert_eq!(natural(9), "9");
    assert_eq!(natural(10), "10");
    assert_eq!(natural(255), "255");
    assert_eq!(natural(1_000_000), "1000000");
}

#[test]
fn nat_digits_of_largest_number() {
    assert_eq!(natural(u64::MAX), "18446744073709551615");
}

#[test]
fn nat_digits_agree_with_std() {
    let mut n: u64 = 1;
    for _ in 0..500 {
        n = n.wrapping_mul(6_364_136_223_846_793_005).wrapping_add(1_442_695_040_888_963_407);
        assert_eq!(natural(n), format!("{}", n));
        assert_eq!(natural(n % 1000), format!("{}", n % 1000));
    }
}

#[test]
fn int_digits_of_negative_numbers() {
    assert_eq!(integer(-1), "-1");
    assert_eq!(integer(-10), "-10");
    assert_eq!(integer(i64::MIN), "-9223372036854775808");
    assert_eq!(integer(i32::MIN as i64), "-2147483648");
}

#[test]
fn int_digits_of_positive_numbers() {
    assert_eq!(integer(0), "0");
    assert_eq!(integer(42), "42");
    assert_eq!(integer(i64::MAX), "9223372036854775807");
}

#[test]
fn digits_are_appended_to_what_is_there() {
    let mut out = String::from("got ");
    push_int(&mut out, -7);
    push_nat(&mut out, 30);
    assert_eq!(out, "got -730");
}
