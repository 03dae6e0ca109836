use loopback_oauth::url::{build_query_string, push_decimal, redirect_uri};

fn pairs(items: &[(&str, &str)]) -> Vec<(String, String)> {
    items.iter().map(|(k, v)| (k.to_string(), v.to_string())).collect()
}

#[test]
fn query_string_of_no_parameters_is_empty() {
    assert_eq!(build_query_string(&Vec::new()), "");
}

#[test]
fn query_string_encodes_values_and_keeps_keys() {
    assert_eq!(build_query_string(&pairs(&[("a", "1")])), "?a=1");
    assert_eq!(
        build_query_string(&pairs(&[("scope", "openid profile email"), ("k-1", "a&b=c"), ("e", "")])),
        "?scope=openid%20profile%20email&k-1=a%26b%3Dc&e="
    );
}

#[test]
fn redirect_uri_of_ports() {
    assert_eq!(redirect_uri(15000), "http://localhost:15000");
    assert_eq!(redirect_uri(28999), "http://localhost:28999");
    assert_eq!(redirect_uri(0), "http://localhost:0");
    assert_eq!(redirect_uri(7), "http://localhost:7");
    assert_eq!(redirect_uri(80), "http://localhost:80");
    assert_eq!(redirect_uri(65535), "http://localhost:65535");
}

#[test]
fn push_decimal_appends() {
    let mut s = String::from("n=");
    push_decimal(&mut s, 1024);
    push_decimal(&mut s, 9);
    assert_eq!(s, "n=10249");
}
