//! Proof Key for Code Exchange: the code verifier, and the challenge that
//! is derived from it with SHA-256.
//!
//! Both are written in base64 with the URL-safe alphabet and without
//! padding, so that they can stand in a query value as they are.

use vstd::prelude::*;
use vstd::string::*;
use vstd::utf8::encode_utf8;

verus! {

/// The standard base64 encoding of a byte sequence, with padding, as the
/// `base64` crate's `STANDARD` engine writes it.
pub uninterp spec fn base64_standard(bytes: Seq<u8>) -> Seq<char>;

/// The SHA-256 digest of a byte sequence, as the `sha2` crate computes it.
pub uninterp spec fn sha256(bytes: Seq<u8>) -> Seq<u8>;

/// A symbol of the standard base64 alphabet: a letter, a digit, `+` or `/`.
pub open spec fn is_base64_symbol(c: char) -> bool {
    ('A' <= c <= 'Z') || ('a' <= c <= 'z') || ('0' <= c <= '9') || c == '+' || c == '/'
}

/// A character of the URL-safe base64 alphabet: a letter, a digit, `-` or
/// `_`.
pub open spec fn is_url_safe_char(c: char) -> bool {
    ('A' <= c <= 'Z') || ('a' <= c <= 'z') || ('0' <= c <= '9') || c == '-' || c == '_'
}

/// Every character is of the URL-safe base64 alphabet.
pub open spec fn is_url_safe(s: Seq<char>) -> bool {
    forall|i: int| 0 <= i < s.len() ==> is_url_safe_char(#[trigger] s[i])
}

/// The number of symbols that the base64 encoding of `n` bytes has before
/// its padding.
pub open spec fn unpadded_len(n: nat) -> nat {
    ((4 * n + 2) / 3) as nat
}

/// The number of characters that the padded base64 encoding of `n` bytes
/// has.
pub open spec fn padded_len(n: nat) -> nat {
    (4 * ((n + 2) / 3)) as nat
}

/// The shape of the padded base64 encoding of `n` bytes: symbols of the
/// alphabet first, then `=` up to a multiple of four characters.
pub open spec fn is_padded_base64(text: Seq<char>, n: nat) -> bool {
    &&& text.len() == padded_len(n)
    &&& forall|i: int| 0 <= i < unpadded_len(n) ==> is_base64_symbol(#[trigger] text[i])
    &&& forall|i: int| unpadded_len(n) <= i < text.len() ==> #[trigger] text[i] == '='
}

/// What one character becomes on the way to the URL-safe form: `=` is
/// dropped, `+` becomes `-`, `/` becomes `_`, any other stays.
pub open spec fn url_safe_char(c: char) -> Seq<char> {
    if c == '=' {
        Seq::empty()
    } else if c == '+' {
        seq!['-']
    } else if c == '/' {
        seq!['_']
    } else {
        seq![c]
    }
}

/// The URL-safe form of a base64 text.
pub open spec fn url_safe(s: Seq<char>) -> Seq<char>
    decreases s.len(),
{
    if s.len() == 0 {
        Seq::empty()
    } else {
        url_safe(s.drop_last()) + url_safe_char(s.last())
    }
}

/// The URL-safe base64 encoding of a byte sequence, without padding.
pub open spec fn base64_url(bytes: Seq<u8>) -> Seq<char> {
    url_safe(base64_standard(bytes))
}

/// The code challenge of a code verifier: the URL-safe base64 encoding of
/// the SHA-256 digest of the verifier's bytes.
pub open spec fn code_challenge(verifier: Seq<char>) -> Seq<char> {
    base64_url(sha256(encode_utf8(verifier)))
}

/// Calls `Engine::encode` of the `base64` crate on its `STANDARD` engine.
/// The result is the standard encoding of the bytes: four characters for
/// every three bytes begun, symbols of the alphabet first and `=` as
/// padding behind them. The call panics where that length is more than a
/// buffer can hold, so such inputs are left out.
#[verifier::external_body]
fn base64_encode(buffer: &[u8]) -> (r: String)
    requires
        padded_len(buffer@.len()) <= isize::MAX,
    ensures
        r@ == base64_standard(buffer@),
        is_padded_base64(r@, buffer@.len()),
{
    base64::Engine::encode(&base64::engine::general_purpose::STANDARD, buffer)
}

/// Calls `Digest::digest` of the `sha2` crate for `Sha256`. The result is
/// the digest of the bytes, which has 32 bytes.
#[verifier::external_body]
fn sha256_digest(data: &[u8]) -> (r: Vec<u8>)
    ensures
        r@ == sha256(data@),
        r@.len() == 32,
{
    <sha2::Sha256 as sha2::Digest>::digest(data).to_vec()
}

/// Calls `Rng::gen` of the `rand` crate on the thread's generator, which
/// the operating system seeds. Any byte may come back. The call panics
/// only where the operating system gives no entropy.
#[verifier::external_body]
fn random_byte() -> u8 {
    rand::Rng::gen(&mut rand::thread_rng())
}

/// The code challenge depends on nothing but the code verifier: equal
/// verifiers have equal challenges.
pub proof fn lemma_code_challenge_is_a_function(first: Seq<char>, second: Seq<char>)
    requires
        first == second,
    ensures
        code_challenge(first) == code_challenge(second),
{
}

/// None of the characters is `=`, `+` or `/`.
pub open spec fn is_fixed(s: Seq<char>) -> bool {
    forall|i: int| 0 <= i < s.len() ==> url_safe_char(#[trigger] s[i]) == seq![s[i]]
}

/// A text without `=`, `+` and `/` is its own URL-safe form.
pub proof fn lemma_url_safe_of_fixed(s: Seq<char>)
    requires
        is_fixed(s),
    ensures
        url_safe(s) == s,
    decreases s.len(),
{
    if s.len() > 0 {
        let before = s.drop_last();
        assert forall|i: int| 0 <= i < before.len() implies url_safe_char(#[trigger] before[i])
            == seq![before[i]] by {}
        lemma_url_safe_of_fixed(before);
    }
}

/// The URL-safe form has no `=`, `+` or `/`, so that the transformation
/// changes nothing the second time.
pub proof fn lemma_url_safe_is_idempotent(s: Seq<char>)
    ensures
        is_fixed(url_safe(s)),
        url_safe(url_safe(s)) == url_safe(s),
    decreases s.len(),
{
    if s.len() > 0 {
        lemma_url_safe_is_idempotent(s.drop_last());
        let head = url_safe(s.drop_last());
        let tail = url_safe_char(s.last());
        assert forall|i: int| 0 <= i < (head + tail).len() implies url_safe_char(
            #[trigger] (head + tail)[i],
        ) == seq![(head + tail)[i]] by {}
    }
    lemma_url_safe_of_fixed(url_safe(s));
}

/// The URL-safe form of a prefix that is longer by one character.
proof fn lemma_url_safe_push(s: Seq<char>, c: char)
    ensures
        url_safe(s.push(c)) == url_safe(s) + url_safe_char(c),
{
    assert(s.push(c).drop_last() == s);
}

/// The URL-safe form of a padded base64 text is the text without its
/// padding, in the URL-safe alphabet.
proof fn lemma_url_safe_of_padded(text: Seq<char>, n: nat, k: int)
    requires
        is_padded_base64(text, n),
        0 <= k <= text.len(),
    ensures
        is_url_safe(url_safe(text.take(k))),
        k <= unpadded_len(n) ==> url_safe(text.take(k)).len() == k,
        k > unpadded_len(n) ==> url_safe(text.take(k)).len() == unpadded_len(n),
    decreases k,
{
    if k > 0 {
        lemma_url_safe_of_padded(text, n, k - 1);
        let before = text.take(k - 1);
        let c = text[k - 1];
        assert(text.take(k) == before.push(c));
        lemma_url_safe_push(before, c);
    }
}

/// A buffer of `length` random bytes.
pub fn generate_random_u8_array(length: u32) -> (r: Vec<u8>)
    ensures
        r@.len() == length,
{
    let mut result: Vec<u8> = Vec::new();
    let mut i: u32 = 0;
    while i < length
        invariant
            i <= length,
            result@.len() == i,
        decreases length - i,
    {
        result.push(random_byte());
        i += 1;
    }
    result
}

/// The standard base64 encoding of a buffer, with padding.
pub fn encode_base64(buffer: &[u8]) -> (r: String)
    requires
        padded_len(buffer@.len()) <= isize::MAX,
    ensures
        r@ == base64_standard(buffer@),
        is_padded_base64(r@, buffer@.len()),
{
    base64_encode(buffer)
}

/// The SHA-256 digest of the bytes of a text.
pub fn create_sha256b_hash(s: &str) -> (r: Vec<u8>)
    ensures
        r@ == sha256(encode_utf8(s@)),
        r@.len() == 32,
{
    sha256_digest(s.as_bytes())
}

/// Turns a base64 text into its URL-safe form without padding: drops
/// every `=`, and writes `-` for `+` and `_` for `/`.
pub fn fix_base64_string(s: &str) -> (r: String)
    ensures
        r@ == url_safe(s@),
{
    let mut out = String::new();
    for c in it: s.chars()
        invariant
            it.seq() == s@,
            out@ == url_safe(s@.take(it.index() as int)),
    {
        proof {
            let k = it.index() as int;
            assert(s@.take(k + 1) == s@.take(k).push(c));
            lemma_url_safe_push(s@.take(k), c);
        }
        if c == '+' {
            out.push('-');
        } else if c == '/' {
            out.push('_');
        } else if c != '=' {
            out.push(c);
        }
    }
    assert(s@.take(s@.len() as int) == s@);
    out
}

/// The URL-safe base64 encoding of a buffer, without padding.
pub fn encode_base64_url(buffer: &[u8]) -> (r: String)
    requires
        padded_len(buffer@.len()) <= isize::MAX,
    ensures
        r@ == base64_url(buffer@),
        r@.len() == unpadded_len(buffer@.len()),
        is_url_safe(r@),
{
    let padded = encode_base64(buffer);
    proof {
        assert(padded@.take(padded@.len() as int) == padded@);
        lemma_url_safe_of_padded(padded@, buffer@.len(), padded@.len() as int);
    }
    fix_base64_string(padded.as_str())
}

/// A random text for use as a code verifier or as a state: the URL-safe
/// base64 encoding of `size` random bytes.
pub fn generate_random_string(size: u32) -> (r: String)
    requires
        padded_len(size as nat) <= isize::MAX,
    ensures
        exists|bytes: Seq<u8>| bytes.len() == size && r@ == #[trigger] base64_url(bytes),
        r@.len() == unpadded_len(size as nat),
        is_url_safe(r@),
{
    let buffer = generate_random_u8_array(size);
    encode_base64_url(buffer.as_slice())
}

/// The code challenge for a code verifier.
pub fn generate_code_challenge(s: &str) -> (r: String)
    ensures
        r@ == code_challenge(s@),
        r@.len() == 43,
        is_url_safe(r@),
{
    let digest = create_sha256b_hash(s);
    encode_base64_url(digest.as_slice())
}

} // verus!
