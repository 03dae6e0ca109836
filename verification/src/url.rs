//! Putting URLs together: query strings, and the redirect URI of the
//! loopback listener.

use crate::percent::{url_encoded, urlencode};
use vstd::prelude::*;
use vstd::string::*;

verus! {

/// A list of parameters as text: each a key and a value.
pub open spec fn pairs_text(params: Seq<(String, String)>) -> Seq<(Seq<char>, Seq<char>)> {
    params.map_values(|p: (String, String)| (p.0@, p.1@))
}

/// One parameter as it stands in a query string: `?` before the first and
/// `&` before any other, the key as it is, `=`, and the value
/// percent-encoded.
pub open spec fn query_piece(index: int, key: Seq<char>, value: Seq<char>) -> Seq<char> {
    seq![if index == 0 { '?' } else { '&' }] + key + seq!['='] + url_encoded(value)
}

/// The query string of a list of parameters, in their order. It is empty
/// where there is no parameter.
pub open spec fn query_string(params: Seq<(Seq<char>, Seq<char>)>) -> Seq<char>
    decreases params.len(),
{
    if params.len() == 0 {
        Seq::empty()
    } else {
        query_string(params.drop_last()) + query_piece(
            params.len() - 1,
            params.last().0,
            params.last().1,
        )
    }
}

/// The decimal digit for a value below ten.
pub open spec fn decimal_digit(n: nat) -> char
    recommends
        n < 10,
{
    (48 + n) as u8 as char
}

/// A number in decimal digits, without leading zeros.
pub open spec fn decimal_text(n: nat) -> Seq<char>
    decreases n,
{
    if n < 10 {
        seq![decimal_digit(n)]
    } else {
        decimal_text(n / 10).push(decimal_digit(n % 10))
    }
}

/// The redirect URI of the loopback listener on a port.
pub open spec fn redirect_uri_text(port: u16) -> Seq<char> {
    "http://localhost:"@ + decimal_text(port as nat)
}

/// Makes the query string of a list of parameters.
pub fn build_query_string(params: &Vec<(String, String)>) -> (r: String)
    ensures
        r@ == query_string(pairs_text(params@)),
{
    let mut query = String::new();
    let mut i: usize = 0;
    while i < params.len()
        invariant
            i <= params.len(),
            query@ == query_string(pairs_text(params@).take(i as int)),
        decreases params.len() - i,
    {
        let ghost all = pairs_text(params@);
        if i == 0 {
            query.push('?');
        } else {
            query.push('&');
        }
        query.append(params[i].0.as_str());
        query.push('=');
        let value = urlencode(params[i].1.as_str());
        query.append(value.as_str());
        assert(all.take(i + 1).drop_last() == all.take(i as int));
        i += 1;
    }
    assert(pairs_text(params@).take(i as int) == pairs_text(params@));
    query
}

/// Appends a number in decimal digits.
pub fn push_decimal(out: &mut String, n: u16)
    ensures
        final(out)@ == old(out)@ + decimal_text(n as nat),
    decreases n,
{
    if n >= 10 {
        push_decimal(out, n / 10);
    }
    let digit: u8 = 48 + (n % 10) as u8;
    out.push(digit as char);
}

/// The redirect URI of the loopback listener on a port.
pub fn redirect_uri(port: u16) -> (r: String)
    ensures
        r@ == redirect_uri_text(port),
{
    let mut uri = String::from_str("http://localhost:");
    push_decimal(&mut uri, port);
    uri
}

} // verus!
