//! The records that the provider's endpoints answer with.

use crate::callback::option_text;
use vstd::prelude::*;
use vstd::string::*;

verus! {

/// The token set that the token endpoint answers with.
#[derive(Debug, Clone, PartialEq, Eq)]
pub struct TokenData {
    /// The access token.
    pub access_token: String,
    /// For how many seconds the access token is still good.
    pub expires_in: u32,
    /// Present only where an identity scope was asked for.
    pub id_token: Option<String>,
    /// The refresh token.
    pub refresh_token: String,
    /// The scopes that the access token grants.
    pub scope: String,
    /// Always `Bearer`.
    pub token_type: String,
}

/// A `TokenData` with its texts as sequences of characters.
pub struct TokenDataView {
    pub access_token: Seq<char>,
    pub expires_in: u32,
    pub id_token: Option<Seq<char>>,
    pub refresh_token: Seq<char>,
    pub scope: Seq<char>,
    pub token_type: Seq<char>,
}

impl View for TokenData {
    type V = TokenDataView;

    open spec fn view(&self) -> TokenDataView {
        TokenDataView {
            access_token: self.access_token@,
            expires_in: self.expires_in,
            id_token: option_text(self.id_token),
            refresh_token: self.refresh_token@,
            scope: self.scope@,
            token_type: self.token_type@,
        }
    }
}

/// The token set of a run that has no token yet.
pub open spec fn no_token() -> TokenDataView {
    TokenDataView {
        access_token: Seq::empty(),
        expires_in: 0,
        id_token: None,
        refresh_token: Seq::empty(),
        scope: Seq::empty(),
        token_type: Seq::empty(),
    }
}

impl TokenData {
    /// The token set of a run that has no token yet: every text empty.
    pub fn empty() -> (r: Self)
        ensures
            r@ == no_token(),
    {
        TokenData {
            access_token: String::new(),
            expires_in: 0,
            id_token: None,
            refresh_token: String::new(),
            scope: String::new(),
            token_type: String::new(),
        }
    }
}

/// What the token information endpoint tells of an access token.
#[derive(Debug, Clone, PartialEq, Eq)]
pub struct TokenVerificationResult {
    pub access_type: String,
    pub aud: String,
    pub azp: String,
    /// The mail address of the user.
    pub email: String,
    /// `true` where the mail address was verified.
    pub email_verified: String,
    pub exp: String,
    /// For how many seconds the access token is still good.
    pub expires_in: String,
    /// The scopes that the access token grants.
    pub scope: String,
    /// The id of the user, unique among all accounts and never used again.
    pub sub: String,
}

/// The profile of the user.
#[derive(Debug, Clone, PartialEq, Eq)]
pub struct UserProfile {
    /// The mail address of the user.
    pub email: String,
    /// Whether the mail address was verified.
    pub email_verified: bool,
    /// The family name.
    pub family_name: String,
    /// The given name.
    pub given_name: String,
    /// Language and region.
    pub locale: String,
    /// The full name, fit for display.
    pub name: String,
    /// The URL of the user's picture.
    pub picture: String,
    /// The id of the user, unique among all accounts and never used again.
    pub sub: String,
}

/// The endpoints that the provider publishes.
#[derive(Debug, Clone, PartialEq, Eq)]
pub struct WellKnownEndpoints {
    pub issuer: String,
    pub authorization_endpoint: String,
    pub token_endpoint: String,
    pub userinfo_endpoint: String,
    pub revocation_endpoint: String,
    pub jwks_uri: String,
    pub response_types_supported: Vec<String>,
    pub subject_types_supported: Vec<String>,
    pub id_token_signing_alg_values_supported: Vec<String>,
    pub scopes_supported: Vec<String>,
    pub token_endpoint_auth_methods_supported: Vec<String>,
    pub claims_supported: Vec<String>,
    pub code_challenge_methods_supported: Vec<String>,
}

/// Where the provider publishes its endpoints.
pub open spec fn wellknown_schema_url() -> Seq<char> {
    "https://accounts.google.com/.well-known/openid-configuration"@
}

/// Where the provider publishes its endpoints.
pub fn get_wellknown_schema_url() -> (r: String)
    ensures
        r@ == wellknown_schema_url(),
{
    String::from_str("https://accounts.google.com/.well-known/openid-configuration")
}

} // verus!
