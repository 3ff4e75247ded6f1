use pos_ledger::helpers::validation::{characters, digits_end};
use pos_ledger::helpers::{validate_float, validate_int};

#[test]
fn empty_text_is_a_valid_integer() {
    assert!(validate_int(""));
}

#[test]
fn plain_integers_are_valid() {
    assert!(validate_int("0"));
    assert!(validate_int("12"));
    assert!(validate_int("-5"));
    assert!(validate_int("+5"));
    assert!(validate_int("007"));
    assert!(validate_int("-0"));
}

#[test]
fn integers_must_fit_thirty_two_bits() {
    assert!(validate_int("2147483647"));
    assert!(!validate_int("2147483648"));
    assert!(validate_int("-2147483648"));
    assert!(!validate_int("-2147483649"));
    assert!(validate_int("+2147483647"));
    assert!(!validate_int("+2147483648"));
    assert!(validate_int("0000000000000000000002147483647"));
    assert!(!validate_int("99999999999999999999999999999999999999"));
}

#[test]
fn malformed_integers_are_invalid() {
    assert!(!validate_int("abc"));
    assert!(!validate_int("1.5"));
    assert!(!validate_int("1,5"));
    assert!(!validate_int(" 1"));
    assert!(!validate_int("1 "));
    assert!(!validate_int("+"));
    assert!(!validate_int("-"));
    assert!(!validate_int("--1"));
    assert!(!validate_int("1-"));
    assert!(!validate_int("١٢"));
    assert!(!validate_int("12a"));
}

#[test]
fn integer_validation_agrees_with_the_standard_parser() {
    let samples = [
        "", "0", "1", "-1", "+1", "2147483647", "2147483648", "-2147483648", "-2147483649", "12x",
        "x12", "+-1", "1_000", "0x10", " ", "٣", "00", "-00", "+", "-", "4294967296", "1e3",
    ];
    for text in samples {
        let expected = text.is_empty() || text.parse::<i32>().is_ok();
        assert_eq!(validate_int(text), expected, "{:?}", text);
    }
}

#[test]
fn empty_text_is_a_valid_decimal() {
    assert!(validate_float(""));
}

#[test]
fn decimals_take_comma_or_period() {
    assert!(validate_float("12,50"));
    assert!(validate_float("12.50"));
    assert!(validate_float("0,00"));
    assert!(validate_float("30,0"));
    assert!(validate_float("5"));
    assert!(validate_float("5,"));
    assert!(validate_float(",5"));
    assert!(validate_float("-1,5"));
    assert!(validate_float("+1,5"));
}

#[test]
fn decimals_take_exponents_and_special_names() {
    assert!(validate_float("1e5"));
    assert!(validate_float("1E5"));
    assert!(validate_float("1,5e-3"));
    assert!(validate_float("1.e+3"));
    assert!(validate_float("inf"));
    assert!(validate_float("-inf"));
    assert!(validate_float("Infinity"));
    assert!(validate_float("NaN"));
    assert!(validate_float("+nan"));
}

#[test]
fn malformed_decimals_are_invalid() {
    assert!(!validate_float(","));
    assert!(!validate_float("."));
    assert!(!validate_float("1,5,5"));
    assert!(!validate_float("1.5.5"));
    assert!(!validate_float("abc"));
    assert!(!validate_float("1e"));
    assert!(!validate_float("e5"));
    assert!(!validate_float(",e5"));
    assert!(!validate_float("1e+"));
    assert!(!validate_float("1e5,0"));
    assert!(!validate_float("+"));
    assert!(!validate_float("-"));
    assert!(!validate_float(" 1"));
    assert!(!validate_float("1 "));
    assert!(!validate_float("in"));
    assert!(!validate_float("infinit"));
    assert!(!validate_float("nanx"));
    assert!(!validate_float("1_0"));
    assert!(!validate_float("R$ 1,00"));
}

#[test]
fn decimal_validation_agrees_with_the_standard_parser() {
    let samples = [
        "", "0", "1", "-1", "+1", "1.", ".1", ".", ",", "1,", ",1", "1,2", "1.2.3", "1,2,3", "1e1",
        "1e", "e1", "1e+1", "1e-1", "1e+-1", "1E1", "1.e1", ".e1", ".5e1", "5.e", "inf", "INF",
        "iNf", "infinity", "INFINITY", "infinit", "infinityy", "nan", "NAN", "nAn", "na", "-nan",
        "+inf", "-infinity", "--1", "+-1", "1-", " 1", "1 ", "1_0", "0x1", "1f", "1e1.5", "1e1,5",
        "١", "1e١", "-", "+", "-.", "-,5", "+,", "12345678901234567890123456789", "1e999999",
        "0e0", "00,00", "ı", "İnf", "ınf", "1,e", "e", "E", "+e1", "1ee1", "1e1e1", "..", ",,",
        "1..", "..1",
    ];
    for text in samples {
        let expected = text.is_empty() || text.replace(",", ".").parse::<f64>().is_ok();
        assert_eq!(validate_float(text), expected, "{:?}", text);
    }
}

#[test]
fn characters_gives_every_character_in_order() {
    assert_eq!(characters("a,ç1"), vec!['a', ',', 'ç', '1']);
    assert_eq!(characters(""), Vec::<char>::new());
}

#[test]
fn digits_end_stops_at_the_first_other_character() {
    let chars = characters("123,45");
    assert_eq!(digits_end(&chars, 0), 3);
    assert_eq!(digits_end(&chars, 3), 3);
    assert_eq!(digits_end(&chars, 4), 6);
    assert_eq!(digits_end(&chars, 6), 6);
}
