use loopback_oauth::request::{
    bytes_equal, diagnose_http_request, find_byte, get_request_path, split_querystring, MapHelper,
    QueryParams,
};

fn lines(items: &[&str]) -> Vec<String> {
    items.iter().map(|s| s.to_string()).collect()
}

#[test]
fn request_line_with_code_and_state() {
    let query = diagnose_http_request(&lines(&["GET /?code=ABC123&state=XYZ789 HTTP/1.1"]));
    assert_eq!(query.get_string("code"), "ABC123");
    assert_eq!(query.get_string("state"), "XYZ789");
    assert!(!query.contains_key("error"));
    assert_eq!(query.get_string("error"), "");
}

#[test]
fn request_line_with_error() {
    let query = diagnose_http_request(&lines(&["GET /?error=access_denied HTTP/1.1"]));
    assert_eq!(query.get_string("error"), "access_denied");
    assert!(!query.contains_key("code"));
    assert!(!query.contains_key("state"));
}

#[test]
fn only_the_request_line_is_read() {
    let query = diagnose_http_request(&lines(&[
        "POST / HTTP/1.1",
        "GET /?code=hidden HTTP/1.1",
        "Host: localhost",
    ]));
    assert!(query.is_empty());
    let query = diagnose_http_request(&lines(&[
        "GET /?code=first HTTP/1.1",
        "GET /?code=second HTTP/1.1",
    ]));
    assert_eq!(query.get_string("code"), "first");
}

#[test]
fn request_without_lines_has_no_parameters() {
    let query = diagnose_http_request(&Vec::new());
    assert!(query.is_empty());
    assert_eq!(query.get_string("code"), "");
}

#[test]
fn request_that_is_no_get_has_no_parameters() {
    for line in ["", "GET", "GET/?a=1", "get /?a=1 HTTP/1.1", "POST /?a=1 HTTP/1.1", "  GET /?a=1"] {
        let query = diagnose_http_request(&lines(&[line]));
        assert!(query.is_empty(), "{:?}", line);
    }
}

#[test]
fn request_path_is_the_second_word() {
    assert_eq!(get_request_path(b"GET /?state=s HTTP/1.1"), b"/?state=s".to_vec());
    assert_eq!(get_request_path(b"GET / HTTP/1.1"), b"/".to_vec());
    assert_eq!(get_request_path(b"GET /callback"), b"/callback".to_vec());
    assert_eq!(get_request_path(b"GET /"), b"/".to_vec());
    assert_eq!(get_request_path(b"HEAD / HTTP/1.1"), Vec::<u8>::new());
    assert_eq!(get_request_path(b"GET"), Vec::<u8>::new());
}

#[test]
fn path_without_query_has_no_parameters() {
    assert!(split_querystring(b"/").is_empty());
    assert!(split_querystring(b"/callback").is_empty());
    assert!(split_querystring(b"/?").is_empty());
    assert!(split_querystring(b"").is_empty());
}

#[test]
fn value_is_split_at_the_first_equals_sign() {
    let query = split_querystring(b"/?a=b=c&d==");
    assert_eq!(query.get_string("a"), "b=c");
    assert_eq!(query.get_string("d"), "=");
}

#[test]
fn query_starts_after_the_first_question_mark() {
    let query = split_querystring(b"/?a=1?2&b=3");
    assert_eq!(query.get_string("a"), "1?2");
    assert_eq!(query.get_string("b"), "3");
}

#[test]
fn values_are_decoded_and_keys_are_not() {
    let query = split_querystring(b"/?k%41=v%41&scope=openid%20email");
    assert_eq!(query.get_string("k%41"), "vA");
    assert!(!query.contains_key("kA"));
    assert_eq!(query.get_string("scope"), "openid email");
}

#[test]
fn last_of_two_equal_keys_counts() {
    let query = split_querystring(b"/?code=one&x=y&code=two");
    assert_eq!(query.get_string("code"), "two");
    assert_eq!(query.get_string("x"), "y");
}

#[test]
fn piece_without_equals_sign_is_a_key_with_empty_value() {
    let query = split_querystring(b"/?flag&code=1");
    assert!(query.contains_key("flag"));
    assert_eq!(query.get_string("flag"), "");
    assert_eq!(query.get_string("code"), "1");
}

#[test]
fn empty_pieces_give_no_parameter() {
    let query = split_querystring(b"/?&&a=1&&b=2&");
    assert_eq!(query.get_string("a"), "1");
    assert_eq!(query.get_string("b"), "2");
    assert!(!query.contains_key(""));
    let query = split_querystring(b"/?=v");
    assert!(query.contains_key(""));
    assert_eq!(query.get_string(""), "v");
}

#[test]
fn value_with_utf8_escapes_is_read_as_text() {
    let query = split_querystring(b"/?name=%E3%81%82%20b");
    assert_eq!(query.get_string("name"), "\u{3042} b");
}

#[test]
fn value_with_broken_utf8_is_not_fatal() {
    let query = split_querystring(b"/?name=a%FFb");
    assert_eq!(query.get_string("name"), "a\u{FFFD}b");
}

#[test]
fn query_params_insert_and_get() {
    let mut params = QueryParams::new();
    assert!(params.is_empty());
    assert_eq!(params.get(b"a"), None);
    params.insert(b"a".to_vec(), b"1".to_vec());
    params.insert(b"b".to_vec(), b"2".to_vec());
    params.insert(b"a".to_vec(), b"3".to_vec());
    assert!(!params.is_empty());
    assert_eq!(params.get(b"a"), Some(&b"3".to_vec()));
    assert_eq!(params.get(b"b"), Some(&b"2".to_vec()));
    assert_eq!(params.get(b"c"), None);
    assert_eq!(params.get_string("a"), "3");
    assert_eq!(params.get_string("c"), "");
}

#[test]
fn find_byte_gives_first_index_or_length() {
    assert_eq!(find_byte(b"a&b&c", b'&'), 1);
    assert_eq!(find_byte(b"&", b'&'), 0);
    assert_eq!(find_byte(b"abc", b'&'), 3);
    assert_eq!(find_byte(b"", b'&'), 0);
}

#[test]
fn bytes_equal_compares_length_and_content() {
    assert!(bytes_equal(b"", b""));
    assert!(bytes_equal(b"abc", b"abc"));
    assert!(!bytes_equal(b"abc", b"abd"));
    assert!(!bytes_equal(b"abc", b"ab"));
}
