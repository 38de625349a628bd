use phc::codec::decode;

#[test]
fn decode_gives_the_bytes() {
    assert_eq!(decode(b"aGVsbG8"), Some(b"hello".to_vec()));
    assert_eq!(decode(b"c29tZSBzYWx0"), Some(b"some salt".to_vec()));
    assert_eq!(decode(b"AP8Q"), Some(vec![0, 255, 16]));
    assert_eq!(decode(b"YQ"), Some(b"a".to_vec()));
    assert_eq!(decode(b"YWI"), Some(b"ab".to_vec()));
}

#[test]
fn decode_of_nothing_is_nothing_decoded() {
    assert_eq!(decode(b""), Some(Vec::new()));
}

#[test]
fn decode_refuses_what_is_not_base_64() {
    assert_eq!(decode(b"a"), None);
    assert_eq!(decode(b"aGVsb"), None);
    assert_eq!(decode(b"aGVs.G8"), None);
    assert_eq!(decode(b"aGVs bG8"), None);
    assert_eq!(decode(b"Not base64!!!"), None);
    assert_eq!(decode("sält".as_bytes()), None);
}

#[test]
fn decode_refuses_nonzero_trailing_bits() {
    assert_eq!(decode(b"YR"), None);
    assert_eq!(decode(b"YWJ"), None);
}

#[test]
fn decode_refuses_the_other_alphabet() {
    assert_eq!(decode(b"-_-_"), None);
    assert_eq!(decode(b"+/+/"), Some(vec![0xfb, 0xff, 0xbf]));
}
