use pos_ledger::helpers::decimal::{append_decimal, append_digits, digit_text};
use pos_ledger::helpers::format_int_to_decimal;

#[test]
fn formats_twelve_fifty() {
    assert_eq!(format_int_to_decimal(1250), "R$ 12,50");
}

#[test]
fn formats_one_unit() {
    assert_eq!(format_int_to_decimal(100), "R$ 1,00");
}

#[test]
fn formats_negative_amount_with_sign_on_whole_units() {
    assert_eq!(format_int_to_decimal(-150), "R$ -1,50");
}

#[test]
fn formats_zero() {
    assert_eq!(format_int_to_decimal(0), "R$ 0,00");
}

#[test]
fn formats_single_minor_units_with_leading_zero() {
    assert_eq!(format_int_to_decimal(5), "R$ 0,05");
    assert_eq!(format_int_to_decimal(1205), "R$ 12,05");
}

#[test]
fn small_negative_amount_loses_its_sign() {
    assert_eq!(format_int_to_decimal(-50), "R$ 0,50");
    assert_eq!(format_int_to_decimal(-99), "R$ 0,99");
    assert_eq!(format_int_to_decimal(-100), "R$ -1,00");
}

#[test]
fn formats_extreme_amounts() {
    assert_eq!(format_int_to_decimal(i64::MAX), "R$ 92233720368547758,07");
    assert_eq!(format_int_to_decimal(i64::MIN), "R$ -92233720368547758,08");
}

#[test]
fn formatting_agrees_with_the_standard_formatter() {
    let amounts: [i64; 12] = [0, 1, 9, 10, 99, 100, 101, 999, 123456789, -1, -101, -123456789];
    for amount in amounts {
        let expected = format!("R$ {},{:02}", amount / 100, (amount % 100).abs());
        assert_eq!(format_int_to_decimal(amount), expected);
    }
}

#[test]
fn digit_text_gives_each_digit() {
    let expected = ["0", "1", "2", "3", "4", "5", "6", "7", "8", "9"];
    for d in 0..10u64 {
        assert_eq!(digit_text(d), expected[d as usize]);
    }
}

#[test]
fn append_digits_keeps_what_was_there() {
    let mut text = String::from("n=");
    append_digits(&mut text, 0);
    assert_eq!(text, "n=0");
    append_digits(&mut text, 907);
    assert_eq!(text, "n=0907");
    let mut big = String::new();
    append_digits(&mut big, u64::MAX);
    assert_eq!(big, "18446744073709551615");
}

#[test]
fn append_decimal_writes_the_sign() {
    let mut text = String::new();
    append_decimal(&mut text, -42);
    assert_eq!(text, "-42");
    let mut least = String::new();
    append_decimal(&mut least, i64::MIN);
    assert_eq!(least, "-9223372036854775808");
    let mut zero = String::new();
    append_decimal(&mut zero, 0);
    assert_eq!(zero, "0");
}
