use dirlist::text::byte_length;
use dirlist::text::count_digits;
use dirlist::text::decimal_string;
use dirlist::text::left_justify;
use dirlist::text::push_decimal;
use dirlist::text::spaces_string;

#[test]
fn decimal_numerals() {
    assert_eq!(decimal_string(0), "0");
    assert_eq!(decimal_string(7), "7");
    assert_eq!(decimal_string(10), "10");
    assert_eq!(decimal_string(1234567890), "1234567890");
    assert_eq!(decimal_string(u64::MAX as u128), "18446744073709551615");
    assert_eq!(
        decimal_string(u128::MAX),
        "340282366920938463463374607431768211455"
    );
}

#[test]
fn push_decimal_appends() {
    let mut out = String::from("n=");
    push_decimal(&mut out, 405);
    assert_eq!(out, "n=405");
}

#[test]
fn digit_counts() {
    assert_eq!(count_digits(0), 1);
    assert_eq!(count_digits(9), 1);
    assert_eq!(count_digits(10), 2);
    assert_eq!(count_digits(99), 2);
    assert_eq!(count_digits(100), 3);
    assert_eq!(count_digits(u64::MAX), 20);
}

#[test]
fn runs_of_spaces() {
    assert_eq!(spaces_string(0), "");
    assert_eq!(spaces_string(1), " ");
    assert_eq!(spaces_string(5), "     ");
}

#[test]
fn left_justify_pads_to_width() {
    assert_eq!(left_justify("ab", 5), "ab   ");
    assert_eq!(left_justify("abcde", 5), "abcde");
    assert_eq!(left_justify("abcdef", 5), "abcdef");
    assert_eq!(left_justify("", 3), "   ");
    assert_eq!(left_justify("x", 0), "x");
}

#[test]
fn left_justify_counts_characters() {
    // Two characters, four bytes.
    assert_eq!(left_justify("éé", 4), "éé  ");
    assert_eq!(left_justify("éé", 4), format!("{:<4}", "éé"));
}

#[test]
fn byte_length_counts_bytes() {
    assert_eq!(byte_length(""), 0);
    assert_eq!(byte_length("abc"), 3);
    assert_eq!(byte_length("éé"), 4);
    assert_eq!(byte_length("日本"), 6);
}
