use phc::params::{extract_param_set, serialize_single};
use phc::value::FromText;
use phc::raw::{RawPHC, SaltAndHash};
use phc::{GenParam, Param};

#[test]
fn param_set_variants() {
    let _params = (
        GenParam::<u8>::new("a"),
        GenParam::<u32>::new("b"),
        GenParam::with_default("c", true),
        GenParam::<&str>::with_default("y", "Hello!"),
    );
}

#[test]
fn two_param_set_two_parses() {
    let params = (GenParam::<u32>::new("i"), GenParam::with_default("mem", true));
    assert_eq!(
        extract_param_set(&params, &[("i", "10000")]),
        Some((10000, true))
    );
}

#[test]
fn present_value_overrides_the_default() {
    let params = (GenParam::<u32>::new("i"), GenParam::with_default("mem", true));
    assert_eq!(
        extract_param_set(&params, &[("i", "10000"), ("mem", "false")]),
        Some((10000, false))
    );
}

#[test]
fn malformed_value_fails_the_whole_set() {
    let params = (GenParam::<u32>::new("i"), GenParam::with_default("mem", true));
    assert_eq!(extract_param_set(&params, &[("i", "10000"), ("mem", "heap")]), None);
}

#[test]
fn malformed_first_value_fails_the_whole_set() {
    let params = (GenParam::<u32>::new("i"), GenParam::with_default("mem", true));
    assert_eq!(extract_param_set(&params, &[("i", "ten"), ("mem", "true")]), None);
}

#[test]
fn missing_required_parameter_fails_the_whole_set() {
    let params = (GenParam::<u32>::new("i"), GenParam::with_default("mem", true));
    assert_eq!(extract_param_set(&params, &[]), None);
    assert_eq!(extract_param_set(&params, &[("mem", "false")]), None);
}

#[test]
fn reordered_parameters_are_not_found() {
    let params = (GenParam::<u32>::new("i"), GenParam::<u32>::new("t"));
    assert_eq!(extract_param_set(&params, &[("i", "1"), ("t", "2")]), Some((1, 2)));
    assert_eq!(extract_param_set(&params, &[("t", "2"), ("i", "1")]), None);
}

#[test]
fn reordered_parameter_with_default_takes_the_default() {
    let params = (GenParam::with_default("i", 7u32), GenParam::<u32>::new("t"));
    assert_eq!(extract_param_set(&params, &[("t", "2"), ("i", "1")]), Some((7, 2)));
}

#[test]
fn first_of_two_equal_names_is_taken() {
    let params = (GenParam::<u32>::new("a"),);
    assert_eq!(extract_param_set(&params, &[("a", "1"), ("a", "2")]), Some((1,)));
}

#[test]
fn pairs_that_no_parameter_asks_for_are_ignored() {
    let params = (GenParam::<u32>::new("i"),);
    assert_eq!(extract_param_set(&params, &[("i", "3"), ("zzz", "9")]), Some((3,)));
}

#[test]
fn single_parameter_is_a_parameter_set() {
    let param = GenParam::<u32>::new("i");
    assert_eq!(extract_param_set(&param, &[("i", "10000")]), Some(10000));
    assert_eq!(extract_param_set(&param, &[("j", "10000")]), None);
    let param = GenParam::with_default("i", 5u32);
    assert_eq!(extract_param_set(&param, &[]), Some(5));
}

#[test]
fn sets_of_every_arity_are_extracted() {
    let raw = [
        ("a", "1"),
        ("b", "2"),
        ("c", "3"),
        ("d", "4"),
        ("e", "5"),
        ("f", "6"),
        ("g", "7"),
        ("h", "8"),
    ];
    let p = |name| GenParam::<u8>::new(name);
    assert_eq!(extract_param_set(&(p("a"),), &raw), Some((1,)));
    assert_eq!(extract_param_set(&(p("a"), p("b")), &raw), Some((1, 2)));
    assert_eq!(extract_param_set(&(p("a"), p("b"), p("c")), &raw), Some((1, 2, 3)));
    assert_eq!(
        extract_param_set(&(p("a"), p("b"), p("c"), p("d")), &raw),
        Some((1, 2, 3, 4))
    );
    assert_eq!(
        extract_param_set(&(p("a"), p("b"), p("c"), p("d"), p("e")), &raw),
        Some((1, 2, 3, 4, 5))
    );
    assert_eq!(
        extract_param_set(&(p("a"), p("b"), p("c"), p("d"), p("e"), p("f")), &raw),
        Some((1, 2, 3, 4, 5, 6))
    );
    assert_eq!(
        extract_param_set(&(p("a"), p("b"), p("c"), p("d"), p("e"), p("f"), p("g")), &raw),
        Some((1, 2, 3, 4, 5, 6, 7))
    );
    assert_eq!(
        extract_param_set(
            &(p("a"), p("b"), p("c"), p("d"), p("e"), p("f"), p("g"), p("h")),
            &raw
        ),
        Some((1, 2, 3, 4, 5, 6, 7, 8))
    );
}

#[test]
fn failure_at_any_position_fails_the_set() {
    let p = |name| GenParam::<u8>::new(name);
    let set = (p("a"), p("b"), p("c"), p("d"), p("e"), p("f"), p("g"), p("h"));
    let names = ["a", "b", "c", "d", "e", "f", "g", "h"];
    for bad in 0..8 {
        let raw: Vec<(&str, &str)> = names
            .iter()
            .enumerate()
            .map(|(i, name)| (*name, if i == bad { "x" } else { "1" }))
            .collect();
        assert_eq!(extract_param_set(&set, &raw), None);
    }
}

#[test]
fn mixed_types_are_extracted() {
    let set = (
        GenParam::<u64>::new("m"),
        GenParam::<i32>::with_default("t", -3),
        GenParam::<String>::new("v"),
        GenParam::<char>::with_default("k", 'x'),
    );
    assert_eq!(
        extract_param_set(&set, &[("m", "65536"), ("v", "heap")]),
        Some((65536, -3, String::from("heap"), 'x'))
    );
    assert_eq!(
        extract_param_set(&set, &[("m", "65536"), ("t", "-7"), ("v", "13"), ("k", "q")]),
        Some((65536, -7, String::from("13"), 'q'))
    );
}

#[test]
fn gen_param_reports_its_name_and_default() {
    let param = GenParam::<u32>::new("i");
    assert_eq!(param.name(), "i");
    assert_eq!(param.default(), None);
    let param = GenParam::with_default("mem", true);
    assert_eq!(param.name(), "mem");
    assert_eq!(param.default(), Some(true));
}

#[test]
fn gen_param_extracts_by_type() {
    assert_eq!(GenParam::<u32>::new("i").extract("10000"), Some(10000));
    assert_eq!(GenParam::<u32>::new("i").extract("-1"), None);
    assert_eq!(GenParam::<u32>::new("i").extract(""), None);
    assert_eq!(GenParam::<u8>::new("i").extract("256"), None);
    assert_eq!(GenParam::<i8>::new("i").extract("-128"), Some(-128));
    assert_eq!(GenParam::<bool>::new("b").extract("true"), Some(true));
    assert_eq!(GenParam::<bool>::new("b").extract("false"), Some(false));
    assert_eq!(GenParam::<bool>::new("b").extract("heap"), None);
    assert_eq!(GenParam::<bool>::new("b").extract("True"), None);
    assert_eq!(GenParam::<char>::new("c").extract("x"), Some('x'));
    assert_eq!(GenParam::<char>::new("c").extract("xy"), None);
    assert_eq!(GenParam::<char>::new("c").extract(""), None);
    assert_eq!(GenParam::<String>::new("s").extract("heap"), Some(String::from("heap")));
}

#[test]
fn from_text_agrees_with_from_str() {
    let inputs = [
        "", "0", "1", "+1", "-1", "-0", "007", "255", "256", "65535", "65536", "4294967295",
        "4294967296", "18446744073709551615", "18446744073709551616", "-128", "-129", "127",
        "128", "-32768", "-2147483648", "-9223372036854775808", "9223372036854775807",
        "340282366920938463463374607431768211455", "340282366920938463463374607431768211456",
        "-170141183460469231731687303715884105728", " 1", "1 ", "1_0", "0x10", "+", "-", "a",
        "1.0", "true", "false", "TRUE", "t", "é", "xy",
    ];
    for raw in inputs {
        assert_eq!(u8::from_text(raw), raw.parse::<u8>().ok(), "{:?}", raw);
        assert_eq!(u16::from_text(raw), raw.parse::<u16>().ok(), "{:?}", raw);
        assert_eq!(u32::from_text(raw), raw.parse::<u32>().ok(), "{:?}", raw);
        assert_eq!(u64::from_text(raw), raw.parse::<u64>().ok(), "{:?}", raw);
        assert_eq!(u128::from_text(raw), raw.parse::<u128>().ok(), "{:?}", raw);
        assert_eq!(usize::from_text(raw), raw.parse::<usize>().ok(), "{:?}", raw);
        assert_eq!(i8::from_text(raw), raw.parse::<i8>().ok(), "{:?}", raw);
        assert_eq!(i16::from_text(raw), raw.parse::<i16>().ok(), "{:?}", raw);
        assert_eq!(i32::from_text(raw), raw.parse::<i32>().ok(), "{:?}", raw);
        assert_eq!(i64::from_text(raw), raw.parse::<i64>().ok(), "{:?}", raw);
        assert_eq!(i128::from_text(raw), raw.parse::<i128>().ok(), "{:?}", raw);
        assert_eq!(isize::from_text(raw), raw.parse::<isize>().ok(), "{:?}", raw);
        assert_eq!(bool::from_text(raw), raw.parse::<bool>().ok(), "{:?}", raw);
        assert_eq!(char::from_text(raw), raw.parse::<char>().ok(), "{:?}", raw);
        assert_eq!(String::from_text(raw), raw.parse::<String>().ok(), "{:?}", raw);
    }
}

#[test]
fn value_equal_to_the_default_is_left_out() {
    let param = GenParam::with_default("mem", true);
    assert_eq!(param.serialize(true), None);
    assert_eq!(param.serialize(false), Some(String::from("false")));
}

#[test]
fn value_without_a_default_is_always_written() {
    let param = GenParam::<u32>::new("i");
    assert_eq!(param.serialize(10000), Some(String::from("10000")));
    assert_eq!(param.serialize(0), Some(String::from("0")));
}

#[test]
fn serialize_single_appends_name_and_text() {
    let mem = GenParam::with_default("mem", true);
    let mut pairs = Vec::new();
    assert!(!serialize_single(&mut pairs, &mem, true));
    assert!(pairs.is_empty());
    assert!(serialize_single(&mut pairs, &mem, false));
    assert_eq!(pairs, vec![(String::from("mem"), String::from("false"))]);
    let phc = RawPHC::from_parts(String::from("x"), pairs, SaltAndHash::Neither);
    assert_eq!(phc.to_string(), "$x$mem=false");
}

#[test]
fn serialized_set_keeps_the_order_and_drops_defaults() {
    let i = GenParam::<u32>::new("i");
    let mem = GenParam::with_default("mem", true);
    let t = GenParam::with_default("t", 3u8);
    let mut pairs = Vec::new();
    serialize_single(&mut pairs, &i, 10000);
    serialize_single(&mut pairs, &mem, true);
    serialize_single(&mut pairs, &t, 4);
    assert_eq!(
        pairs,
        vec![
            (String::from("i"), String::from("10000")),
            (String::from("t"), String::from("4")),
        ]
    );
    let phc = RawPHC::from_parts(String::from("x"), pairs, SaltAndHash::Neither);
    assert_eq!(phc.to_string(), "$x$i=10000,t=4");
}

#[test]
fn extraction_from_a_parsed_string() {
    let phc: RawPHC = "$abc-123$i=10000$abcdefg".parse().unwrap();
    let params = (GenParam::<u32>::new("i"), GenParam::with_default("mem", true));
    assert_eq!(extract_param_set(&params, &phc.params()), Some((10000, true)));
}
