//! The ways in which an authorization run can end without a token.

use vstd::prelude::*;
use vstd::string::*;

verus! {

/// Why a run was abandoned. No step is tried again: after any of these the
/// flow has to start anew.
#[derive(Debug, Clone, PartialEq, Eq)]
pub enum AuthError {
    /// The client id or the client secret is empty.
    InvalidConfiguration,
    /// No port of the loopback range could be bound.
    NoPortAvailable,
    /// The browser could not be started.
    BrowserLaunchFailed,
    /// No callback arrived within the time allowed.
    Timeout,
    /// Binding, accepting or reading failed.
    TransportFailed,
    /// The provider reported an error; the text is the provider's own and
    /// is not to be trusted.
    AuthorizationDenied(String),
    /// The callback did not carry the state that was sent out.
    StateMismatch,
    /// The callback carried no authorization code.
    MissingAuthorizationCode,
    /// The token endpoint could not be reached, refused, or answered with
    /// something that is no token set.
    TokenExchangeFailed,
    /// A provider endpoint answered with malformed JSON.
    DecodeFailed,
}

/// An `AuthError` with its text as a sequence of characters.
pub enum AuthErrorView {
    InvalidConfiguration,
    NoPortAvailable,
    BrowserLaunchFailed,
    Timeout,
    TransportFailed,
    AuthorizationDenied(Seq<char>),
    StateMismatch,
    MissingAuthorizationCode,
    TokenExchangeFailed,
    DecodeFailed,
}

impl View for AuthError {
    type V = AuthErrorView;

    open spec fn view(&self) -> AuthErrorView {
        match self {
            AuthError::InvalidConfiguration => AuthErrorView::InvalidConfiguration,
            AuthError::NoPortAvailable => AuthErrorView::NoPortAvailable,
            AuthError::BrowserLaunchFailed => AuthErrorView::BrowserLaunchFailed,
            AuthError::Timeout => AuthErrorView::Timeout,
            AuthError::TransportFailed => AuthErrorView::TransportFailed,
            AuthError::AuthorizationDenied(reason) => AuthErrorView::AuthorizationDenied(reason@),
            AuthError::StateMismatch => AuthErrorView::StateMismatch,
            AuthError::MissingAuthorizationCode => AuthErrorView::MissingAuthorizationCode,
            AuthError::TokenExchangeFailed => AuthErrorView::TokenExchangeFailed,
            AuthError::DecodeFailed => AuthErrorView::DecodeFailed,
        }
    }
}

/// The words that stand for each kind of error in a message.
pub open spec fn error_label(e: AuthErrorView) -> Seq<char> {
    match e {
        AuthErrorView::InvalidConfiguration => "invalid configuration"@,
        AuthErrorView::NoPortAvailable => "no port available"@,
        AuthErrorView::BrowserLaunchFailed => "browser launch failed"@,
        AuthErrorView::Timeout => "timed out waiting for the callback"@,
        AuthErrorView::TransportFailed => "transport failed"@,
        AuthErrorView::AuthorizationDenied(_) => "authorization denied: "@,
        AuthErrorView::StateMismatch => "state mismatch"@,
        AuthErrorView::MissingAuthorizationCode => "missing authorization code"@,
        AuthErrorView::TokenExchangeFailed => "token exchange failed"@,
        AuthErrorView::DecodeFailed => "decode failed"@,
    }
}

/// The message of an error: its label, and behind it the provider's reason
/// where there is one.
pub open spec fn error_message(e: AuthErrorView) -> Seq<char> {
    match e {
        AuthErrorView::AuthorizationDenied(reason) => error_label(e) + reason,
        _ => error_label(e),
    }
}

impl AuthError {
    /// A line of text for the operator.
    pub fn message(&self) -> (r: String)
        ensures
            r@ == error_message(self@),
    {
        match self {
            AuthError::InvalidConfiguration => String::from_str("invalid configuration"),
            AuthError::NoPortAvailable => String::from_str("no port available"),
            AuthError::BrowserLaunchFailed => String::from_str("browser launch failed"),
            AuthError::Timeout => String::from_str("timed out waiting for the callback"),
            AuthError::TransportFailed => String::from_str("transport failed"),
            AuthError::AuthorizationDenied(reason) => {
                let mut text = String::from_str("authorization denied: ");
                text.append(reason.as_str());
                text
            },
            AuthError::StateMismatch => String::from_str("state mismatch"),
            AuthError::MissingAuthorizationCode => String::from_str("missing authorization code"),
            AuthError::TokenExchangeFailed => String::from_str("token exchange failed"),
            AuthError::DecodeFailed => String::from_str("decode failed"),
        }
    }
}

} // verus!
