use tiered_kv::hex::{decode, encode, nibble};

#[test]
fn bytes_are_written_in_lower_case() {
    assert_eq!(encode(&Vec::new()), "");
    assert_eq!(encode(&vec![0x00, 0x0a, 0xff, 0x10, 0xbe, 0xef]), "000aff10beef");
}

#[test]
fn text_is_read_in_lower_case() {
    assert_eq!(decode(""), Some(Vec::new()));
    assert_eq!(decode("000aff10beef"), Some(vec![0x00, 0x0a, 0xff, 0x10, 0xbe, 0xef]));
    assert_eq!(decode("ab"), Some(vec![0xab]));
}

#[test]
fn capitals_are_refused() {
    assert_eq!(decode("000AFF10BEEF"), None);
    assert_eq!(decode("aB"), None);
    assert_eq!(decode("Ab"), None);
}

#[test]
fn text_of_odd_length_is_refused() {
    assert_eq!(decode("a"), None);
    assert_eq!(decode("abc"), None);
}

#[test]
fn text_with_other_characters_is_refused() {
    assert_eq!(decode("0x12"), None);
    assert_eq!(decode("zz"), None);
    assert_eq!(decode("a "), None);
    assert_eq!(decode(" a"), None);
    assert_eq!(decode("0g"), None);
    assert_eq!(decode("é0"), None);
    assert_eq!(decode("00é"), None);
    assert_eq!(decode("０0"), None);
}

#[test]
fn every_byte_is_read_back() {
    let bytes: Vec<u8> = (0..=255u8).collect();
    let text = encode(&bytes);
    assert_eq!(text.len(), 512);
    assert_eq!(decode(&text), Some(bytes));
}

#[test]
fn digits_have_their_values() {
    assert_eq!(nibble(b'0'), Some(0));
    assert_eq!(nibble(b'9'), Some(9));
    assert_eq!(nibble(b'a'), Some(10));
    assert_eq!(nibble(b'f'), Some(15));
    assert_eq!(nibble(b'A'), None);
    assert_eq!(nibble(b'F'), None);
    assert_eq!(nibble(b'g'), None);
    assert_eq!(nibble(b'G'), None);
    assert_eq!(nibble(b'/'), None);
    assert_eq!(nibble(b':'), None);
    assert_eq!(nibble(b'@'), None);
    assert_eq!(nibble(b'`'), None);
}
