use phc::decimal::{read_decimal, signed_value};
use phc::value::{str_eq, FromText};

#[test]
fn equal_strings_are_equal() {
    assert!(str_eq("", ""));
    assert!(str_eq("mem", "mem"));
    assert!(str_eq("sält", "sält"));
}

#[test]
fn different_strings_are_different() {
    assert!(!str_eq("mem", "men"));
    assert!(!str_eq("mem", "me"));
    assert!(!str_eq("", "m"));
    assert!(!str_eq("sält", "salt"));
    assert!(!str_eq("i", "I"));
}

#[test]
fn read_decimal_gives_sign_and_magnitude() {
    assert_eq!(read_decimal("10000", 0, 65535), Some((false, 10000)));
    assert_eq!(read_decimal("+10000", 0, 65535), Some((false, 10000)));
    assert_eq!(read_decimal("-10000", 32768, 32767), Some((true, 10000)));
    assert_eq!(read_decimal("-0", 128, 127), Some((true, 0)));
    assert_eq!(read_decimal("000123", 0, 255), Some((false, 123)));
}

#[test]
fn read_decimal_keeps_to_the_limits() {
    assert_eq!(read_decimal("255", 0, 255), Some((false, 255)));
    assert_eq!(read_decimal("256", 0, 255), None);
    assert_eq!(read_decimal("-128", 128, 127), Some((true, 128)));
    assert_eq!(read_decimal("-129", 128, 127), None);
    assert_eq!(read_decimal("128", 128, 127), None);
    assert_eq!(read_decimal("99999999999999999999999999999999999999999", 0, u128::MAX), None);
    assert_eq!(
        read_decimal("340282366920938463463374607431768211455", 0, u128::MAX),
        Some((false, u128::MAX))
    );
    assert_eq!(read_decimal("340282366920938463463374607431768211456", 0, u128::MAX), None);
    assert_eq!(read_decimal("0", 0, 0), Some((false, 0)));
    assert_eq!(read_decimal("1", 0, 0), None);
}

#[test]
fn read_decimal_refuses_what_is_not_a_number() {
    assert_eq!(read_decimal("", 0, 255), None);
    assert_eq!(read_decimal("+", 0, 255), None);
    assert_eq!(read_decimal("-", 128, 127), None);
    assert_eq!(read_decimal("-1", 0, 255), None);
    assert_eq!(read_decimal("++1", 0, 255), None);
    assert_eq!(read_decimal("+-1", 128, 127), None);
    assert_eq!(read_decimal("1a", 0, 255), None);
    assert_eq!(read_decimal("a1", 0, 255), None);
    assert_eq!(read_decimal(" 1", 0, 255), None);
    assert_eq!(read_decimal("1 ", 0, 255), None);
    assert_eq!(read_decimal("1_0", 0, 255), None);
    assert_eq!(read_decimal("١", 0, 255), None);
}

#[test]
fn signed_value_applies_the_sign() {
    assert_eq!(signed_value(false, 0), 0);
    assert_eq!(signed_value(true, 0), 0);
    assert_eq!(signed_value(false, 10000), 10000);
    assert_eq!(signed_value(true, 10000), -10000);
    assert_eq!(signed_value(false, i128::MAX as u128), i128::MAX);
    assert_eq!(signed_value(true, i128::MAX as u128), -i128::MAX);
    assert_eq!(signed_value(true, i128::MAX as u128 + 1), i128::MIN);
}

#[test]
fn integers_are_read_at_their_limits() {
    assert_eq!(u8::from_text("255"), Some(u8::MAX));
    assert_eq!(u16::from_text("65535"), Some(u16::MAX));
    assert_eq!(u32::from_text("4294967295"), Some(u32::MAX));
    assert_eq!(u64::from_text("18446744073709551615"), Some(u64::MAX));
    assert_eq!(u128::from_text("340282366920938463463374607431768211455"), Some(u128::MAX));
    assert_eq!(usize::from_text(&usize::MAX.to_string()), Some(usize::MAX));
    assert_eq!(i8::from_text("-128"), Some(i8::MIN));
    assert_eq!(i8::from_text("127"), Some(i8::MAX));
    assert_eq!(i16::from_text("-32768"), Some(i16::MIN));
    assert_eq!(i32::from_text("-2147483648"), Some(i32::MIN));
    assert_eq!(i32::from_text("2147483647"), Some(i32::MAX));
    assert_eq!(i64::from_text("-9223372036854775808"), Some(i64::MIN));
    assert_eq!(i64::from_text("9223372036854775807"), Some(i64::MAX));
    assert_eq!(
        i128::from_text("-170141183460469231731687303715884105728"),
        Some(i128::MIN)
    );
    assert_eq!(i128::from_text("170141183460469231731687303715884105727"), Some(i128::MAX));
    assert_eq!(i128::from_text("170141183460469231731687303715884105728"), None);
    assert_eq!(isize::from_text(&isize::MIN.to_string()), Some(isize::MIN));
    assert_eq!(isize::from_text(&isize::MAX.to_string()), Some(isize::MAX));
}

#[test]
fn integers_past_their_limits_are_refused() {
    assert_eq!(u8::from_text("256"), None);
    assert_eq!(u16::from_text("65536"), None);
    assert_eq!(u32::from_text("4294967296"), None);
    assert_eq!(u64::from_text("18446744073709551616"), None);
    assert_eq!(i8::from_text("128"), None);
    assert_eq!(i8::from_text("-129"), None);
    assert_eq!(i16::from_text("32768"), None);
    assert_eq!(i32::from_text("2147483648"), None);
    assert_eq!(i32::from_text("-2147483649"), None);
    assert_eq!(i64::from_text("9223372036854775808"), None);
}

#[test]
fn every_small_number_is_read_as_std_reads_it() {
    for n in -300i32..=300 {
        let text = n.to_string();
        assert_eq!(u8::from_text(&text), text.parse::<u8>().ok());
        assert_eq!(i8::from_text(&text), text.parse::<i8>().ok());
        assert_eq!(i32::from_text(&text), text.parse::<i32>().ok());
        assert_eq!(u32::from_text(&text), text.parse::<u32>().ok());
        let plus = format!("+{}", n);
        assert_eq!(u8::from_text(&plus), plus.parse::<u8>().ok());
        assert_eq!(i8::from_text(&plus), plus.parse::<i8>().ok());
    }
}

#[test]
fn booleans_characters_and_strings_are_read() {
    assert_eq!(bool::from_text("true"), Some(true));
    assert_eq!(bool::from_text("false"), Some(false));
    assert_eq!(bool::from_text("heap"), None);
    assert_eq!(bool::from_text(""), None);
    assert_eq!(char::from_text("x"), Some('x'));
    assert_eq!(char::from_text("é"), Some('é'));
    assert_eq!(char::from_text(""), None);
    assert_eq!(char::from_text("xy"), None);
    assert_eq!(String::from_text(""), Some(String::new()));
    assert_eq!(String::from_text("heap"), Some(String::from("heap")));
}
