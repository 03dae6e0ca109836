use loopback_oauth::request::{parse_request_line, MapHelper};
use loopback_oauth::text::{ascii_string, string_from_bytes};

#[test]
fn ascii_bytes_become_their_characters() {
    assert_eq!(ascii_string(b""), "");
    assert_eq!(ascii_string(b"%2Fa-z"), "%2Fa-z");
    assert_eq!(ascii_string(&[0x41, 0xe9]), "A\u{e9}");
}

#[test]
fn bytes_are_read_as_utf8() {
    assert_eq!(string_from_bytes(b"plain"), "plain");
    assert_eq!(string_from_bytes(&[0xe3, 0x81, 0x82]), "\u{3042}");
    assert_eq!(string_from_bytes(&[0x61, 0xff]), "a\u{fffd}");
}

#[test]
fn request_line_is_parsed_alone() {
    let query = parse_request_line("GET /cb?code=4%2F0&state=s HTTP/1.1");
    assert_eq!(query.get_string("code"), "4/0");
    assert_eq!(query.get_string("state"), "s");
    assert!(parse_request_line("Host: localhost").is_empty());
}
