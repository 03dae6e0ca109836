use loopback_oauth::pkce::{
    create_sha256b_hash, encode_base64, encode_base64_url, fix_base64_string,
    generate_code_challenge, generate_random_string, generate_random_u8_array,
};

fn is_url_safe(s: &str) -> bool {
    s.chars().all(|c| c.is_ascii_alphanumeric() || c == '-' || c == '_')
}

#[test]
fn random_string_has_only_url_safe_characters() {
    for size in 0..200u32 {
        let s = generate_random_string(size);
        assert!(is_url_safe(&s), "{:?}", s);
        assert!(!s.contains('=') && !s.contains('+') && !s.contains('/'));
        assert_eq!(s.len() as u32, (4 * size + 2) / 3);
    }
}

#[test]
fn verifier_of_32_bytes_has_43_characters() {
    let verifier = generate_random_string(32);
    assert_eq!(verifier.len(), 43);
    assert!(is_url_safe(&verifier));
}

#[test]
fn random_strings_differ() {
    assert_ne!(generate_random_string(32), generate_random_string(32));
}

#[test]
fn random_array_has_the_length_asked_for() {
    assert_eq!(generate_random_u8_array(0).len(), 0);
    assert_eq!(generate_random_u8_array(1).len(), 1);
    assert_eq!(generate_random_u8_array(32).len(), 32);
    assert_eq!(generate_random_u8_array(1000).len(), 1000);
}

#[test]
fn base64_of_known_values() {
    assert_eq!(encode_base64(b""), "");
    assert_eq!(encode_base64(b"f"), "Zg==");
    assert_eq!(encode_base64(b"fo"), "Zm8=");
    assert_eq!(encode_base64(b"foo"), "Zm9v");
    assert_eq!(encode_base64(b"hello"), "aGVsbG8=");
    assert_eq!(encode_base64(&[0xfb, 0xff, 0xfe]), "+//+");
}

#[test]
fn base64_url_of_known_values() {
    assert_eq!(encode_base64_url(b""), "");
    assert_eq!(encode_base64_url(b"f"), "Zg");
    assert_eq!(encode_base64_url(b"fo"), "Zm8");
    assert_eq!(encode_base64_url(&[0xfb, 0xff, 0xfe]), "-__-");
}

#[test]
fn fix_base64_string_drops_padding_and_swaps_symbols() {
    assert_eq!(fix_base64_string("a+b/c=="), "a-b_c");
    assert_eq!(fix_base64_string("=+=/="), "-_");
    assert_eq!(fix_base64_string(""), "");
    assert_eq!(fix_base64_string("abcXYZ019-_"), "abcXYZ019-_");
    assert_eq!(fix_base64_string("\u{3042}=\u{e9}"), "\u{3042}\u{e9}");
}

#[test]
fn fix_base64_string_twice_is_once() {
    let once = fix_base64_string("a+b/c==d+/=");
    assert_eq!(fix_base64_string(&once), once);
}

#[test]
fn sha256_of_known_values() {
    assert_eq!(
        create_sha256b_hash("abc"),
        vec![
            0xba, 0x78, 0x16, 0xbf, 0x8f, 0x01, 0xcf, 0xea, 0x41, 0x41, 0x40, 0xde, 0x5d, 0xae,
            0x22, 0x23, 0xb0, 0x03, 0x61, 0xa3, 0x96, 0x17, 0x7a, 0x9c, 0xb4, 0x10, 0xff, 0x61,
            0xf2, 0x00, 0x15, 0xad
        ]
    );
    assert_eq!(create_sha256b_hash("").len(), 32);
    assert_eq!(create_sha256b_hash("")[0], 0xe3);
}

#[test]
fn code_challenge_of_the_reference_verifier() {
    assert_eq!(
        generate_code_challenge("dBjftJeZ4CVP-mB92K27uhbUJU1p1r_wW1gFWFOEjXk"),
        "E9Melhoa2OwvFrEMTJguCHaoeK1t8URWbuGJSstw-cM"
    );
}

#[test]
fn code_challenge_is_the_same_each_time() {
    let verifier = generate_random_string(32);
    let first = generate_code_challenge(&verifier);
    let second = generate_code_challenge(&verifier);
    assert_eq!(first, second);
    assert_eq!(first.len(), 43);
    assert!(is_url_safe(&first));
}

#[test]
fn code_challenges_of_two_verifiers_differ() {
    assert_ne!(generate_code_challenge("verifier-one"), generate_code_challenge("verifier-two"));
}
