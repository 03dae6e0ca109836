use loopback_oauth::percent::{percent_decode_bytes, percent_encode_bytes, urldecode, urlencode};

#[test]
fn urlencode_keeps_letters_and_digits() {
    assert_eq!(urlencode("abcXYZ019"), "abcXYZ019");
}

#[test]
fn urlencode_escapes_space_and_punctuation() {
    assert_eq!(urlencode("openid profile email"), "openid%20profile%20email");
    assert_eq!(urlencode("http://localhost:15000"), "http%3A%2F%2Flocalhost%3A15000");
    assert_eq!(urlencode("-_.~+"), "%2D%5F%2E%7E%2B");
}

#[test]
fn urldecode_reads_either_case() {
    assert_eq!(urldecode("a%2fb%2Fc"), "a/b/c");
}

#[test]
fn urldecode_leaves_broken_escapes() {
    assert_eq!(urldecode("100%"), "100%");
    assert_eq!(urldecode("%4"), "%4");
    assert_eq!(urldecode("%zz%41"), "%zzA");
    assert_eq!(urldecode("a+b"), "a+b");
}

#[test]
fn urldecode_reads_utf8() {
    assert_eq!(urldecode("%E3%81%82"), "\u{3042}");
    assert_eq!(urlencode("\u{3042}"), "%E3%81%82");
}

#[test]
fn percent_round_trip_on_every_byte() {
    let all: Vec<u8> = (0u8..=255).collect();
    let encoded = percent_encode_bytes(&all);
    assert!(encoded.iter().all(|b| *b < 128));
    assert_eq!(percent_decode_bytes(&encoded), all);
}

#[test]
fn url_round_trip_on_punctuation() {
    let s = "Az09 !\"#$%&'()*+,-./:;<=>?@[\\]^_`{|}~";
    assert_eq!(urldecode(&urlencode(s)), s);
}
