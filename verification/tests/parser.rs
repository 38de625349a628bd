use phc::parser::{is_base_64_char, is_name_char, is_value_char, parse_phc};
use phc::raw::RawPHC;
use phc::Salt;

fn check(
    id: &str,
    params: (&str, &[(&str, &str)]),
    salt_and_hash: (&str, Option<&str>, Option<&[u8]>),
) {
    let raw = format!("${}{}{}", id, params.0, salt_and_hash.0);
    println!("{}", raw);
    let phc: RawPHC = parse_phc(&raw).unwrap();
    assert_eq!(phc.id(), id);
    assert_eq!(phc.params(), params.1);
    match phc.salt() {
        None => assert_eq!(None, salt_and_hash.1),
        Some(salt) => {
            let salt_str = salt.to_string();
            assert_eq!(Some(salt_str.as_str()), salt_and_hash.1);
        }
    }
    assert_eq!(phc.hash(), salt_and_hash.2);
}

const NONE: (&str, &[(&str, &str)]) = ("", &[]);
const ONE: (&str, &[(&str, &str)]) = ("$i=10000", &[("i", "10000")]);
const TWO: (&str, &[(&str, &str)]) = ("$i=10000,mem=heap", &[("i", "10000"), ("mem", "heap")]);

const NEITHER: (&str, Option<&str>, Option<&[u8]>) = ("", None, None);
const SALT: (&str, Option<&str>, Option<&[u8]>) = ("$abcdefg", Some("abcdefg"), None);
const BOTH: (&str, Option<&str>, Option<&[u8]>) =
    ("$abcdefg$aGVsbG8", Some("abcdefg"), Some(b"hello"));

#[test]
fn param_string_no_params() {
    check("abc-123", NONE, NEITHER);
}

#[test]
fn param_string_one_param() {
    check("abc-123", ONE, NEITHER);
}

#[test]
fn param_string_two_params() {
    check("abc-123", TWO, NEITHER);
}

#[test]
fn salt_string_no_params() {
    check("abc-123", NONE, SALT);
}

#[test]
fn salt_string_one_param() {
    check("abc-123", ONE, SALT);
}

#[test]
fn salt_string_two_params() {
    check("abc-123", TWO, SALT);
}

#[test]
fn hash_string_no_params() {
    check("abc-123", NONE, BOTH);
}

#[test]
fn hash_string_one_param() {
    check("abc-123", ONE, BOTH);
}

#[test]
fn hash_string_two_params() {
    check("abc-123", TWO, BOTH);
}

#[test]
fn parsed_salt_is_ascii_and_is_not_decoded() {
    let phc = parse_phc("$abc-123$c29tZSBzYWx0").unwrap();
    assert_eq!(phc.salt(), Some(&Salt::Ascii(String::from("c29tZSBzYWx0"))));
    assert_eq!(phc.hash(), None);
}

#[test]
fn underscore_in_id_is_rejected() {
    assert!(parse_phc("$abc_123").is_err());
}

#[test]
fn empty_input_is_rejected() {
    assert!(parse_phc("").is_err());
}

#[test]
fn missing_leading_dollar_is_rejected() {
    assert!(parse_phc("abc-123").is_err());
}

#[test]
fn empty_id_is_rejected() {
    assert!(parse_phc("$").is_err());
    assert!(parse_phc("$$i=1").is_err());
}

#[test]
fn upper_case_id_is_rejected() {
    assert!(parse_phc("$Abc").is_err());
}

#[test]
fn trailing_dollar_is_rejected() {
    assert!(parse_phc("$abc-123$").is_err());
    assert!(parse_phc("$abc-123$i=1$").is_err());
    assert!(parse_phc("$abc-123$salt$").is_err());
    assert!(parse_phc("$abc-123$salt$aGVsbG8$").is_err());
}

#[test]
fn trailing_garbage_is_rejected() {
    assert!(parse_phc("$abc-123 ").is_err());
    assert!(parse_phc("$abc-123$i=1\n").is_err());
    assert!(parse_phc("$abc-123$salt$aGVsbG8$more").is_err());
    assert!(parse_phc("$abc-123$salt$aGVsbG8=").is_err());
}

#[test]
fn malformed_params_are_rejected() {
    assert!(parse_phc("$abc-123$i=").is_err());
    assert!(parse_phc("$abc-123$=1").is_err());
    assert!(parse_phc("$abc-123$i=1,").is_err());
    assert!(parse_phc("$abc-123$i=1,mem").is_err());
    assert!(parse_phc("$abc-123$i=1,,mem=2").is_err());
    assert!(parse_phc("$abc-123$I=1").is_err());
    assert!(parse_phc("$abc-123$i=1=2").is_err());
}

#[test]
fn second_params_segment_is_rejected() {
    assert!(parse_phc("$abc-123$i=1$mem=2").is_err());
}

#[test]
fn params_after_salt_are_rejected() {
    assert!(parse_phc("$abc-123$salt$i=1").is_err());
}

#[test]
fn hash_of_impossible_length_is_rejected() {
    assert!(parse_phc("$abc-123$abcdefg$a").is_err());
    assert!(parse_phc("$abc-123$abcdefg$aGVsb").is_err());
}

#[test]
fn hash_with_characters_outside_base_64_is_rejected() {
    assert!(parse_phc("$abc-123$abcdefg$aGVs.G8").is_err());
    assert!(parse_phc("$abc-123$abcdefg$aGVs-G8").is_err());
}

#[test]
fn non_ascii_input_is_rejected() {
    assert!(parse_phc("$abc-123$sält").is_err());
    assert!(parse_phc("$äbc").is_err());
    assert!(parse_phc("$abc-123$i=1é").is_err());
}

#[test]
fn value_may_use_the_whole_value_alphabet() {
    let phc = parse_phc("$x$k=aZ09/+.-").unwrap();
    assert_eq!(phc.params(), &[("k", "aZ09/+.-")]);
}

#[test]
fn salt_may_use_the_whole_value_alphabet() {
    let phc = parse_phc("$x$aZ09/+.-").unwrap();
    assert_eq!(phc.salt(), Some(&Salt::Ascii(String::from("aZ09/+.-"))));
}

#[test]
fn name_like_salt_is_not_taken_for_a_parameter() {
    let phc = parse_phc("$argon2$abc$YWJj").unwrap();
    assert_eq!(phc.params(), Vec::<(&str, &str)>::new());
    assert_eq!(phc.salt(), Some(&Salt::Ascii(String::from("abc"))));
    assert_eq!(phc.hash(), Some(&b"abc"[..]));
}

#[test]
fn duplicate_parameter_names_are_kept_in_order() {
    let phc = parse_phc("$x$a=1,a=2").unwrap();
    assert_eq!(phc.params(), &[("a", "1"), ("a", "2")]);
}

#[test]
fn three_parameters_are_read_in_order() {
    let phc = parse_phc("$argon2i$m=120,t=5000,p=2").unwrap();
    assert_eq!(phc.id(), "argon2i");
    assert_eq!(phc.params(), &[("m", "120"), ("t", "5000"), ("p", "2")]);
}

#[test]
fn from_str_agrees_with_parse_phc() {
    let phc: RawPHC = "$abc-123$i=10000,mem=heap$abcdefg$aGVsbG8".parse().unwrap();
    assert_eq!(phc.id(), "abc-123");
    assert_eq!(phc.params(), &[("i", "10000"), ("mem", "heap")]);
    assert_eq!(phc.hash(), Some(&b"hello"[..]));
    assert_eq!("$abc_123".parse::<RawPHC>().map(|_| ()), Err(()));
    assert_eq!("$abc$é".parse::<RawPHC>().map(|_| ()), Err(()));
}

#[test]
fn name_characters() {
    for c in "abcxyz0189-".chars() {
        assert!(is_name_char(c), "{}", c);
    }
    for c in "AZ_/+.=$, `{@[:".chars() {
        assert!(!is_name_char(c), "{}", c);
    }
}

#[test]
fn value_characters() {
    for c in "abcxyzABCXYZ0189/+.-".chars() {
        assert!(is_value_char(c), "{}", c);
    }
    for c in "_=$, `{@[:é".chars() {
        assert!(!is_value_char(c), "{}", c);
    }
}

#[test]
fn base_64_characters() {
    for c in "abcxyzABCXYZ0189/+".chars() {
        assert!(is_base_64_char(c), "{}", c);
    }
    for c in "_=$, .-`{@[:".chars() {
        assert!(!is_base_64_char(c), "{}", c);
    }
}
