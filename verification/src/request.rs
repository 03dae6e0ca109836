//! Reading the redirect that the provider sends to the loopback listener:
//! the request line, its path, and the parameters of its query string.

use crate::percent::{percent_decode, percent_decode_bytes};
use crate::text::{string_from_bytes, text_of};
use vstd::prelude::*;
use vstd::slice::{slice_subrange, slice_to_vec};
use vstd::string::*;
use vstd::utf8::encode_utf8;

verus! {

/// The byte of a space.
pub const SPACE: u8 = 32;

/// The byte `&`.
pub const AMPERSAND: u8 = 38;

/// The byte `=`.
pub const EQUALS: u8 = 61;

/// The byte `?`.
pub const QUESTION: u8 = 63;

/// One parameter of a query string: its key, and its value.
pub type Entry = (Seq<u8>, Seq<u8>);

/// The index of the first `b` in `s`, or the length of `s` where it has
/// none.
pub open spec fn first_index(s: Seq<u8>, b: u8) -> int
    decreases s.len(),
{
    if s.len() == 0 {
        0
    } else if s[0] == b {
        0
    } else {
        1 + first_index(s.skip(1), b)
    }
}

/// The bytes of `GET /`, with which the request line of a callback starts.
pub open spec fn get_prefix() -> Seq<u8> {
    seq![71u8, 69u8, 84u8, SPACE, 47u8]
}

/// The line is that of a `GET` request for a path that starts with `/`.
pub open spec fn is_get_request(line: Seq<u8>) -> bool {
    line.len() >= 5 && line.take(5) == get_prefix()
}

/// The path of a request line: what stands between the method and the
/// next space. A line that is no `GET` request has the empty path.
pub open spec fn request_path(line: Seq<u8>) -> Seq<u8> {
    if is_get_request(line) {
        line.skip(4).take(first_index(line.skip(4), SPACE))
    } else {
        Seq::empty()
    }
}

/// The query string of a path: what follows its first `?`, and nothing
/// where it has none.
pub open spec fn query_of(path: Seq<u8>) -> Seq<u8> {
    if first_index(path, QUESTION) < path.len() {
        path.skip(first_index(path, QUESTION) + 1)
    } else {
        Seq::empty()
    }
}

/// The parameter that one `key=value` piece of a query string gives. The
/// piece is split at its first `=`; the key stays as written, the value is
/// percent-decoded. A piece without `=` is a key with an empty value.
pub open spec fn parse_pair(pair: Seq<u8>) -> Entry {
    let eq = first_index(pair, EQUALS);
    if eq < pair.len() {
        (pair.take(eq), percent_decode(pair.skip(eq + 1)))
    } else {
        (pair, Seq::empty())
    }
}

/// The parameters of a query string, in the order in which they stand.
/// Pieces are separated by `&`; an empty piece gives no parameter.
pub open spec fn query_entries(query: Seq<u8>) -> Seq<Entry>
    decreases query.len(),
{
    if query.len() == 0 {
        Seq::empty()
    } else {
        let end = first_index(query, AMPERSAND);
        let first = if end == 0 {
            Seq::<Entry>::empty()
        } else {
            seq![parse_pair(query.take(end))]
        };
        if 0 <= end < query.len() {
            first + query_entries(query.skip(end + 1))
        } else {
            first
        }
    }
}

/// The mapping that a list of parameters stands for: of two parameters
/// with one key the later one counts.
pub open spec fn entries_map(entries: Seq<Entry>) -> Map<Seq<u8>, Seq<u8>>
    decreases entries.len(),
{
    if entries.len() == 0 {
        Map::empty()
    } else {
        entries_map(entries.drop_last()).insert(entries.last().0, entries.last().1)
    }
}

/// The parameters that the query string of a request line carries.
pub open spec fn line_query(line: Seq<u8>) -> Map<Seq<u8>, Seq<u8>> {
    entries_map(query_entries(query_of(request_path(line))))
}

/// The text of the lines of a request.
pub open spec fn lines_text(lines: Seq<String>) -> Seq<Seq<char>> {
    lines.map_values(|line: String| line@)
}

/// The parameters that a request carries: those of the query string of its
/// request line, which is the first line. A request without lines carries
/// none.
pub open spec fn request_query(lines: Seq<Seq<char>>) -> Map<Seq<u8>, Seq<u8>> {
    if lines.len() == 0 {
        Map::empty()
    } else {
        line_query(encode_utf8(lines[0]))
    }
}

/// The value of a key as text, and the empty text where the key is absent.
pub open spec fn param_text(params: Map<Seq<u8>, Seq<u8>>, key: Seq<char>) -> Seq<char> {
    if params.contains_key(encode_utf8(key)) {
        text_of(params[encode_utf8(key)])
    } else {
        Seq::empty()
    }
}

/// Where `first_index` points.
pub proof fn lemma_first_index(s: Seq<u8>, b: u8)
    ensures
        0 <= first_index(s, b) <= s.len(),
        first_index(s, b) < s.len() ==> s[first_index(s, b)] == b,
        forall|j: int| 0 <= j < first_index(s, b) ==> s[j] != b,
    decreases s.len(),
{
    if s.len() > 0 && s[0] != b {
        lemma_first_index(s.skip(1), b);
        let k = first_index(s.skip(1), b);
        assert forall|j: int| 0 <= j < 1 + k implies s[j] != b by {
            if j > 0 {
                assert(s.skip(1)[j - 1] == s[j]);
            }
        }
    }
}

/// Finds the first `target` in `bytes`.
pub fn find_byte(bytes: &[u8], target: u8) -> (r: usize)
    ensures
        r == first_index(bytes@, target),
        r <= bytes@.len(),
{
    let mut i: usize = 0;
    assert(bytes@.skip(0) == bytes@);
    while i < bytes.len()
        invariant
            i <= bytes.len(),
            first_index(bytes@, target) == i + first_index(bytes@.skip(i as int), target),
        decreases bytes.len() - i,
    {
        if bytes[i] == target {
            return i;
        }
        assert(bytes@.skip(i as int).skip(1) == bytes@.skip(i + 1));
        i += 1;
    }
    i
}

/// The parameters of a query string.
pub struct QueryParams {
    entries: Vec<(Vec<u8>, Vec<u8>)>,
}

impl View for QueryParams {
    type V = Map<Seq<u8>, Seq<u8>>;

    open spec fn view(&self) -> Map<Seq<u8>, Seq<u8>> {
        entries_map(self.entries())
    }
}

/// Looks a key up from the end of a list of parameters.
pub open spec fn last_value(entries: Seq<Entry>, key: Seq<u8>) -> Option<Seq<u8>>
    decreases entries.len(),
{
    if entries.len() == 0 {
        None
    } else if entries.last().0 == key {
        Some(entries.last().1)
    } else {
        last_value(entries.drop_last(), key)
    }
}

/// The mapping holds for each key the value of its last parameter.
pub proof fn lemma_entries_map_last_value(entries: Seq<Entry>, key: Seq<u8>)
    ensures
        entries_map(entries).contains_key(key) <==> last_value(entries, key) is Some,
        entries_map(entries).contains_key(key) ==> entries_map(entries)[key] == last_value(
            entries,
            key,
        )->0,
    decreases entries.len(),
{
    if entries.len() > 0 {
        lemma_entries_map_last_value(entries.drop_last(), key);
    }
}

/// Whether two byte sequences are the same.
pub fn bytes_equal(a: &[u8], b: &[u8]) -> (r: bool)
    ensures
        r == (a@ == b@),
{
    if a.len() != b.len() {
        return false;
    }
    let mut i: usize = 0;
    while i < a.len()
        invariant
            i <= a.len(),
            a.len() == b.len(),
            forall|j: int| 0 <= j < i ==> a@[j] == b@[j],
        decreases a.len() - i,
    {
        if a[i] != b[i] {
            return false;
        }
        i += 1;
    }
    assert(a@ =~= b@);
    true
}

impl QueryParams {
    /// The parameters in the order in which they were added.
    pub closed spec fn entries(&self) -> Seq<Entry> {
        Seq::new(self.entries@.len(), |i: int| (self.entries@[i].0@, self.entries@[i].1@))
    }

    /// No parameters.
    pub fn new() -> (r: Self)
        ensures
            r.entries() == Seq::<Entry>::empty(),
            r@ == Map::<Seq<u8>, Seq<u8>>::empty(),
    {
        QueryParams { entries: Vec::new() }
    }

    /// Adds a parameter. It replaces an earlier one with the same key.
    pub fn insert(&mut self, key: Vec<u8>, value: Vec<u8>)
        ensures
            final(self).entries() == old(self).entries().push((key@, value@)),
            final(self)@ == old(self)@.insert(key@, value@),
    {
        let ghost before = self.entries();
        self.entries.push((key, value));
        assert(self.entries().drop_last() =~= before);
    }

    /// The value of a key, if the key is there.
    pub fn get(&self, key: &[u8]) -> (r: Option<&Vec<u8>>)
        ensures
            r is Some <==> self@.contains_key(key@),
            r matches Some(v) ==> v@ == self@[key@],
    {
        let mut i: usize = self.entries.len();
        assert(self.entries().take(i as int) == self.entries());
        while i > 0
            invariant
                i <= self.entries.len(),
                last_value(self.entries(), key@) == last_value(
                    self.entries().take(i as int),
                    key@,
                ),
            decreases i,
        {
            let ghost prefix = self.entries().take(i as int);
            i -= 1;
            assert(prefix.drop_last() == self.entries().take(i as int));
            if bytes_equal(self.entries[i].0.as_slice(), key) {
                proof {
                    lemma_entries_map_last_value(self.entries(), key@);
                }
                return Some(&self.entries[i].1);
            }
        }
        proof {
            lemma_entries_map_last_value(self.entries(), key@);
        }
        None
    }

    /// Whether a key is there.
    pub fn contains_key(&self, key: &str) -> (r: bool)
        ensures
            r == self@.contains_key(encode_utf8(key@)),
    {
        self.get(key.as_bytes()).is_some()
    }

    /// Whether there is no key at all.
    pub fn is_empty(&self) -> (r: bool)
        ensures
            r == (self@ == Map::<Seq<u8>, Seq<u8>>::empty()),
    {
        let r = self.entries.len() == 0;
        proof {
            if !r {
                let last = self.entries().last();
                assert(!Map::<Seq<u8>, Seq<u8>>::empty().contains_key(last.0));
            }
        }
        r
    }
}

/// Reading the value of a key as text.
pub trait MapHelper {
    /// The text that `get_string` gives for a key.
    spec fn string_of(&self, key: Seq<char>) -> Seq<char>;

    /// The value of `key` as text; the empty text where the key is absent.
    fn get_string(&self, key: &str) -> (r: String)
        ensures
            r@ == self.string_of(key@),
    ;
}

impl MapHelper for QueryParams {
    open spec fn string_of(&self, key: Seq<char>) -> Seq<char> {
        param_text(self@, key)
    }

    fn get_string(&self, key: &str) -> (r: String) {
        match self.get(key.as_bytes()) {
            Some(value) => string_from_bytes(value.as_slice()),
            None => String::new(),
        }
    }
}

fn starts_with_get(line: &[u8]) -> (r: bool)
    ensures
        r == is_get_request(line@),
{
    if line.len() < 5 {
        return false;
    }
    let r = line[0] == 71 && line[1] == 69 && line[2] == 84 && line[3] == SPACE && line[4] == 47;
    proof {
        if r {
            assert(line@.take(5) =~= get_prefix());
        }
    }
    r
}

/// The path of a request line such as `GET /?state=... HTTP/1.1`.
pub fn get_request_path(line: &[u8]) -> (r: Vec<u8>)
    ensures
        r@ == request_path(line@),
{
    if !starts_with_get(line) {
        return Vec::new();
    }
    let rest = slice_subrange(line, 4, line.len());
    let end = find_byte(rest, SPACE);
    slice_to_vec(slice_subrange(rest, 0, end))
}

/// The parameters of the query string of a URL.
pub fn split_querystring(url: &[u8]) -> (r: QueryParams)
    ensures
        r.entries() == query_entries(query_of(url@)),
        r@ == entries_map(query_entries(query_of(url@))),
{
    let mut params = QueryParams::new();
    let mark = find_byte(url, QUESTION);
    if mark >= url.len() {
        return params;
    }
    let query = slice_subrange(url, mark + 1, url.len());
    let mut pos: usize = 0;
    assert(query@.skip(0) == query@);
    while pos < query.len()
        invariant
            pos <= query.len(),
            params.entries() + query_entries(query@.skip(pos as int)) == query_entries(query@),
        decreases query.len() - pos,
    {
        let rest = slice_subrange(query, pos, query.len());
        let end = find_byte(rest, AMPERSAND);
        if end > 0 {
            let pair = slice_subrange(rest, 0, end);
            let eq = find_byte(pair, EQUALS);
            if eq < pair.len() {
                let key = slice_to_vec(slice_subrange(pair, 0, eq));
                let value = percent_decode_bytes(slice_subrange(pair, eq + 1, pair.len()));
                params.insert(key, value);
            } else {
                params.insert(slice_to_vec(pair), Vec::new());
            }
        }
        if end < rest.len() {
            assert(rest@.skip(end + 1) == query@.skip(pos + end + 1));
            pos = pos + end + 1;
        } else {
            pos = query.len();
        }
    }
    params
}

/// The parameters that the query string of a request line carries.
pub fn parse_request_line(line: &str) -> (r: QueryParams)
    ensures
        r@ == line_query(encode_utf8(line@)),
{
    let path = get_request_path(line.as_bytes());
    split_querystring(path.as_slice())
}

/// The parameters that the redirect carries: those of the query string of
/// the request line, which is the first line. Header lines are not read.
pub fn diagnose_http_request(http_request: &Vec<String>) -> (r: QueryParams)
    ensures
        r@ == request_query(lines_text(http_request@)),
{
    if http_request.len() == 0 {
        return QueryParams::new();
    }
    parse_request_line(http_request[0].as_str())
}

} // verus!
