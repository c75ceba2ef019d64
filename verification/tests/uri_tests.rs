use soulbook::endpoints::urlencoding;
use soulbook::uri::encode_uri_component;

#[test]
fn unreserved_characters_stay() {
    let s = "ABCxyz019-_.!~*'()";
    assert_eq!(encode_uri_component(s), s);
}

#[test]
fn separators_are_escaped() {
    assert_eq!(encode_uri_component("a b&c=d/e?f#g+h"), "a%20b%26c%3Dd%2Fe%3Ff%23g%2Bh");
    assert_eq!(encode_uri_component("%"), "%25");
}

#[test]
fn multibyte_characters_are_escaped_per_byte() {
    assert_eq!(encode_uri_component("é"), "%C3%A9");
    assert_eq!(encode_uri_component("中文"), "%E4%B8%AD%E6%96%87");
    assert_eq!(encode_uri_component("😀"), "%F0%9F%98%80");
    assert_eq!(encode_uri_component("\u{7f}"), "%7F");
}

#[test]
fn encoding_concatenation_is_concatenation_of_encodings() {
    let a = "知识 库";
    let b = "a&b";
    let whole = format!("{}{}", a, b);
    assert_eq!(
        encode_uri_component(&whole),
        format!("{}{}", encode_uri_component(a), encode_uri_component(b))
    );
}

#[test]
fn encoded_text_holds_only_safe_characters() {
    let out = encode_uri_component("a b/c?d&e=f#g 中\u{0}\n");
    assert!(out.chars().all(|c| c.is_ascii_alphanumeric() || "-_.!~*'()%".contains(c)));
}

#[test]
fn urlencoding_is_encode_uri_component() {
    assert_eq!(urlencoding("rust 教程"), "rust%20%E6%95%99%E7%A8%8B");
}
