use phc::Salt;

#[test]
fn ascii_salt_serializes() {
    let salt = Salt::from("abcdefg");
    assert_eq!(salt.to_string(), "abcdefg");
}

#[test]
fn binary_salt_serializes_to_base_64() {
    let salt = Salt::from(b"some salt");
    assert_eq!(salt.to_string(), "c29tZSBzYWx0");
}

#[test]
fn base_64_ascii_salt_converts_to_binary() {
    let salt = Salt::from("c29tZSBzYWx0");
    assert_eq!(salt.as_binary(), Salt::from(b"some salt"));
}

#[test]
fn binary_ascii_salt_to_binary_is_same() {
    let salt = Salt::from(b"some salt");
    assert_eq!(salt.clone().as_binary(), salt);
}

#[test]
fn non_base_64_ascii_doesnt_convert_to_binary() {
    let salt = Salt::from("Not base64!!!");
    assert_eq!(salt.clone().as_binary(), salt);
}

#[test]
fn salt_from_owned_string_is_ascii() {
    assert_eq!(Salt::from(String::from("abc")), Salt::Ascii(String::from("abc")));
}

#[test]
fn salt_from_str_is_ascii() {
    assert_eq!(Salt::from("a.b-c/d+e"), Salt::Ascii(String::from("a.b-c/d+e")));
}

#[test]
fn salt_from_vec_is_binary() {
    assert_eq!(Salt::from(vec![1u8, 2, 3]), Salt::Binary(vec![1, 2, 3]));
}

#[test]
fn salt_from_slice_is_binary() {
    let bytes: &[u8] = &[9, 8, 7];
    assert_eq!(Salt::from(bytes), Salt::Binary(vec![9, 8, 7]));
}

#[test]
fn salt_from_array_is_binary() {
    assert_eq!(Salt::from([0u8; 0]), Salt::Binary(vec![]));
    assert_eq!(Salt::from([5u8, 6]), Salt::Binary(vec![5, 6]));
    assert_eq!(Salt::from(&[7u8; 16]), Salt::Binary(vec![7; 16]));
}

#[test]
fn ascii_salt_is_rendered_verbatim_even_when_it_is_base_64() {
    assert_eq!(Salt::from("c29tZSBzYWx0").to_string(), "c29tZSBzYWx0");
}

#[test]
fn binary_salt_is_rendered_without_padding() {
    assert_eq!(Salt::from(b"a").to_string(), "YQ");
    assert_eq!(Salt::from(b"ab").to_string(), "YWI");
    assert_eq!(Salt::from(b"abc").to_string(), "YWJj");
    assert_eq!(Salt::from(b"hello").to_string(), "aGVsbG8");
}

#[test]
fn empty_binary_salt_is_rendered_as_nothing() {
    assert_eq!(Salt::from(Vec::<u8>::new()).to_string(), "");
}

#[test]
fn as_binary_decodes_the_text_not_the_text_itself() {
    let salt = Salt::from("aGVsbG8");
    assert_eq!(salt.as_binary(), Salt::Binary(b"hello".to_vec()));
}

#[test]
fn as_binary_keeps_a_salt_with_characters_outside_base_64() {
    let salt = Salt::from("abc.def");
    assert_eq!(salt.clone().as_binary(), salt);
}

#[test]
fn as_binary_keeps_a_salt_of_impossible_length() {
    let salt = Salt::from("abcde");
    assert_eq!(salt.clone().as_binary(), salt);
}

#[test]
fn as_binary_then_to_string_gives_back_canonical_text() {
    let salt = Salt::from("c29tZSBzYWx0").as_binary();
    assert_eq!(salt.to_string(), "c29tZSBzYWx0");
}

#[test]
fn reinterpret_replaces_the_text_of_an_ascii_salt() {
    let salt = Salt::from("anything at all");
    assert_eq!(salt.reinterpret(Some(vec![1, 2, 3])), Salt::Binary(vec![1, 2, 3]));
}

#[test]
fn reinterpret_without_decoded_bytes_changes_nothing() {
    let salt = Salt::from("abc");
    assert_eq!(salt.clone().reinterpret(None), salt);
    let salt = Salt::from(b"abc");
    assert_eq!(salt.clone().reinterpret(None), salt);
}

#[test]
fn reinterpret_leaves_a_binary_salt_alone() {
    let salt = Salt::from(b"abc");
    assert_eq!(salt.clone().reinterpret(Some(vec![9])), salt);
}
