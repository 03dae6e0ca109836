//! The client's credentials, as the provider hands them out in a file
//! named `client_secret*.json`.
//!
//! Finding and reading the files is the caller's part. Here is what is
//! decided on them: which file names count, which credentials are usable,
//! and which of several candidates is taken.

use crate::error::{AuthError, AuthErrorView};
use crate::request::bytes_equal;
use vstd::prelude::*;
use vstd::slice::slice_subrange;
use vstd::string::*;
use vstd::utf8::encode_utf8;

verus! {

/// The credentials of an installed application.
#[derive(Debug, Clone, PartialEq, Eq)]
pub struct Installed {
    pub client_id: String,
    pub client_secret: String,
    pub redirect_uris: Vec<String>,
    pub auth_uri: String,
    pub token_uri: String,
}

/// What a credentials file holds.
#[derive(Debug, Clone, PartialEq, Eq)]
pub struct ClientSecret {
    pub installed: Installed,
}

/// Credentials are usable where neither the client id nor the client
/// secret is empty.
pub open spec fn is_valid_client_secret(client_secret: ClientSecret) -> bool {
    client_secret.installed.client_id@.len() > 0 && client_secret.installed.client_secret@.len()
        > 0
}

/// A candidate is usable where its file could be read and its credentials
/// are usable.
pub open spec fn is_usable(candidate: Option<ClientSecret>) -> bool {
    candidate is Some && is_valid_client_secret(candidate->0)
}

/// The index of the first usable candidate, or the number of candidates
/// where none is usable.
pub open spec fn first_usable(candidates: Seq<Option<ClientSecret>>) -> int
    decreases candidates.len(),
{
    if candidates.len() == 0 {
        0
    } else if is_usable(candidates[0]) {
        0
    } else {
        1 + first_usable(candidates.skip(1))
    }
}

/// `s` begins with `prefix`.
pub open spec fn starts_with(s: Seq<u8>, prefix: Seq<u8>) -> bool {
    prefix.len() <= s.len() && s.take(prefix.len() as int) == prefix
}

/// `s` ends with `suffix`.
pub open spec fn ends_with(s: Seq<u8>, suffix: Seq<u8>) -> bool {
    suffix.len() <= s.len() && s.skip(s.len() - suffix.len()) == suffix
}

/// The name is that of a credentials file: it begins with `client_secret`
/// and ends with `.json`.
pub open spec fn is_client_secret_name(file_name: Seq<char>) -> bool {
    starts_with(encode_utf8(file_name), encode_utf8("client_secret"@)) && ends_with(
        encode_utf8(file_name),
        encode_utf8(".json"@),
    )
}

/// Whether a file name is that of a credentials file.
pub fn is_client_secret_file_name(file_name: &str) -> (r: bool)
    ensures
        r == is_client_secret_name(file_name@),
{
    let name = file_name.as_bytes();
    let prefix = "client_secret".as_bytes();
    let suffix = ".json".as_bytes();
    if name.len() < prefix.len() || name.len() < suffix.len() {
        return false;
    }
    let head = slice_subrange(name, 0, prefix.len());
    let tail = slice_subrange(name, name.len() - suffix.len(), name.len());
    bytes_equal(head, prefix) && bytes_equal(tail, suffix)
}

/// Checks credentials that were read from a file.
pub fn validate_client_secret(client_secret: ClientSecret) -> (r: Result<ClientSecret, AuthError>)
    ensures
        r is Ok <==> is_valid_client_secret(client_secret),
        r matches Ok(checked) ==> checked == client_secret,
        r matches Err(e) ==> e@ == AuthErrorView::InvalidConfiguration,
{
    if client_secret.installed.client_id.as_str().is_empty() {
        return Err(AuthError::InvalidConfiguration);
    }
    if client_secret.installed.client_secret.as_str().is_empty() {
        return Err(AuthError::InvalidConfiguration);
    }
    Ok(client_secret)
}

fn is_usable_candidate(candidate: &Option<ClientSecret>) -> (r: bool)
    ensures
        r == is_usable(*candidate),
{
    match candidate {
        Some(client_secret) => !client_secret.installed.client_id.as_str().is_empty()
            && !client_secret.installed.client_secret.as_str().is_empty(),
        None => false,
    }
}

/// Picks the credentials of a run.
///
/// There is one candidate for each credentials file that was found, in the
/// order in which the files were found: what the file holds, or `None`
/// where it could not be read. The first usable candidate is taken. With no
/// file at all, and with none that is usable, the configuration is invalid.
pub fn configure(candidates: Vec<Option<ClientSecret>>) -> (r: Result<ClientSecret, AuthError>)
    ensures
        r is Ok <==> first_usable(candidates@) < candidates@.len(),
        r matches Ok(client_secret) ==> candidates@[first_usable(candidates@)] == Some(
            client_secret,
        ),
        r matches Err(e) ==> e@ == AuthErrorView::InvalidConfiguration,
{
    let mut list = candidates;
    let mut i: usize = 0;
    assert(list@.skip(0) == list@);
    while i < list.len()
        invariant
            i <= list.len(),
            list@ == candidates@,
            first_usable(candidates@) == i + first_usable(candidates@.skip(i as int)),
        decreases list.len() - i,
    {
        if is_usable_candidate(&list[i]) {
            let taken = list.swap_remove(i);
            return Ok(taken.unwrap());
        }
        assert(candidates@.skip(i as int).skip(1) == candidates@.skip(i + 1));
        i += 1;
    }
    Err(AuthError::InvalidConfiguration)
}

} // verus!
