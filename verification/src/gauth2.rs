//! The authorization run from its start to the token set.
//!
//! The run alternates between work in the outside world (reserving a port,
//! opening the browser, waiting for the callback, asking for the tokens)
//! and decisions. The outside work is the caller's. `GoogleOAuth2` holds
//! the decisions: it takes what happened as an event, and answers with the
//! action that the caller has to perform next.

use crate::callback::{CallbackResult, CallbackResultView};
use crate::error::{AuthError, AuthErrorView};
use crate::listener::CALLBACK_TIMEOUT_MS;
use crate::pkce::{
    code_challenge, generate_code_challenge, generate_random_string, is_url_safe, padded_len,
};
use crate::token::{no_token, TokenData, TokenDataView, WellKnownEndpoints};
use crate::url::{
    build_query_string, pairs_text, query_string, redirect_uri, redirect_uri_text,
};
use vstd::prelude::*;
use vstd::string::*;

verus! {

/// How many random bytes go into the state and into the code verifier.
pub const RANDOM_BYTES: u32 = 32;

/// How far a run has come.
#[derive(Debug, Clone, Copy, PartialEq, Eq, Structural)]
pub enum FlowPhase {
    /// Nothing was begun.
    Idle,
    /// A port for the loopback listener is being looked for.
    ReservingPort,
    /// The browser is being opened on the authorization URL.
    OpeningBrowser,
    /// The loopback listener waits for the redirect.
    AwaitingCallback,
    /// The token endpoint is being asked.
    ExchangingCode,
    /// The run has its token set.
    Completed,
    /// The run was abandoned.
    Failed,
}

/// What happened since the last action.
#[derive(Debug, Clone, PartialEq, Eq)]
pub enum FlowEvent {
    /// This port is free.
    PortReserved(u16),
    /// No port of the range is free.
    NoPortAvailable,
    /// The browser was started.
    BrowserOpened,
    /// The browser could not be started.
    BrowserLaunchFailed,
    /// The loopback listener took a request.
    CallbackReceived(CallbackResult),
    /// The loopback listener gave up waiting.
    CallbackTimedOut,
    /// The loopback listener failed.
    TransportFailed,
    /// The token endpoint answered with this token set.
    TokenReceived(TokenData),
    /// The token endpoint could not be reached, refused, or answered with
    /// something else.
    TokenExchangeFailed,
}

/// What the caller has to do next.
#[derive(Debug, Clone, PartialEq, Eq)]
pub enum FlowAction {
    /// Look for a free port.
    ReservePort,
    /// Open the browser on this URL.
    OpenBrowser { url: String },
    /// Listen on this port for the redirect, for so many milliseconds at
    /// most.
    AwaitCallback { port: u16, timeout_ms: u64 },
    /// Post this form to this endpoint, once.
    ExchangeCode { endpoint: String, form: Vec<(String, String)> },
    /// The run is done: the token set is there.
    Finish,
    /// The run is abandoned with this error.
    Fail(AuthError),
    /// The event is not one that the run waits for: do nothing.
    Nothing,
}

/// A `FlowEvent` with its texts as sequences of characters.
pub enum FlowEventView {
    PortReserved(u16),
    NoPortAvailable,
    BrowserOpened,
    BrowserLaunchFailed,
    CallbackReceived(CallbackResultView),
    CallbackTimedOut,
    TransportFailed,
    TokenReceived(TokenDataView),
    TokenExchangeFailed,
}

/// A `FlowAction` with its texts as sequences of characters.
pub enum FlowActionView {
    ReservePort,
    OpenBrowser { url: Seq<char> },
    AwaitCallback { port: u16, timeout_ms: u64 },
    ExchangeCode { endpoint: Seq<char>, form: Seq<(Seq<char>, Seq<char>)> },
    Finish,
    Fail(AuthErrorView),
    Nothing,
}

impl View for FlowEvent {
    type V = FlowEventView;

    open spec fn view(&self) -> FlowEventView {
        match self {
            FlowEvent::PortReserved(port) => FlowEventView::PortReserved(*port),
            FlowEvent::NoPortAvailable => FlowEventView::NoPortAvailable,
            FlowEvent::BrowserOpened => FlowEventView::BrowserOpened,
            FlowEvent::BrowserLaunchFailed => FlowEventView::BrowserLaunchFailed,
            FlowEvent::CallbackReceived(callback) => FlowEventView::CallbackReceived(callback@),
            FlowEvent::CallbackTimedOut => FlowEventView::CallbackTimedOut,
            FlowEvent::TransportFailed => FlowEventView::TransportFailed,
            FlowEvent::TokenReceived(token) => FlowEventView::TokenReceived(token@),
            FlowEvent::TokenExchangeFailed => FlowEventView::TokenExchangeFailed,
        }
    }
}

impl View for FlowAction {
    type V = FlowActionView;

    open spec fn view(&self) -> FlowActionView {
        match self {
            FlowAction::ReservePort => FlowActionView::ReservePort,
            FlowAction::OpenBrowser { url } => FlowActionView::OpenBrowser { url: url@ },
            FlowAction::AwaitCallback { port, timeout_ms } => FlowActionView::AwaitCallback {
                port: *port,
                timeout_ms: *timeout_ms,
            },
            FlowAction::ExchangeCode { endpoint, form } => FlowActionView::ExchangeCode {
                endpoint: endpoint@,
                form: pairs_text(form@),
            },
            FlowAction::Finish => FlowActionView::Finish,
            FlowAction::Fail(error) => FlowActionView::Fail(error@),
            FlowAction::Nothing => FlowActionView::Nothing,
        }
    }
}

/// A run as a value.
pub struct FlowModel {
    pub phase: FlowPhase,
    /// Where the browser is sent.
    pub authorization_endpoint: Seq<char>,
    /// Where the code is exchanged.
    pub token_endpoint: Seq<char>,
    /// Where the user's profile is asked for.
    pub userinfo_endpoint: Seq<char>,
    pub client_id: Seq<char>,
    pub client_secret: Seq<char>,
    /// The state that has to come back on the callback.
    pub state: Seq<char>,
    pub code_verifier: Seq<char>,
    pub code_challenge: Seq<char>,
    /// The port of the loopback listener.
    pub port: u16,
    pub redirect_uri: Seq<char>,
    /// The token set; that of `no_token` until the run is completed.
    pub token: TokenDataView,
}

/// The run that `new` makes.
pub open spec fn new_run(
    client_id: Seq<char>,
    client_secret: Seq<char>,
    endpoints: WellKnownEndpoints,
) -> FlowModel {
    FlowModel {
        phase: FlowPhase::Idle,
        authorization_endpoint: endpoints.authorization_endpoint@,
        token_endpoint: endpoints.token_endpoint@,
        userinfo_endpoint: endpoints.userinfo_endpoint@,
        client_id: client_id,
        client_secret: client_secret,
        state: Seq::empty(),
        code_verifier: Seq::empty(),
        code_challenge: Seq::empty(),
        port: 0,
        redirect_uri: Seq::empty(),
        token: no_token(),
    }
}

/// The parameters of the authorization URL, in their order.
pub open spec fn authorization_params(m: FlowModel) -> Seq<(Seq<char>, Seq<char>)> {
    seq![
        ("response_type"@, "code"@),
        ("scope"@, "openid profile email"@),
        ("redirect_uri"@, m.redirect_uri),
        ("client_id"@, m.client_id),
        ("state"@, m.state),
        ("code_challenge"@, m.code_challenge),
        ("code_challenge_method"@, "S256"@),
    ]
}

/// The URL on which the browser is opened: the authorization endpoint with
/// the parameters as its query string, each value percent-encoded.
pub open spec fn authorization_url(m: FlowModel) -> Seq<char> {
    m.authorization_endpoint + query_string(authorization_params(m))
}

/// The fields of the form that is posted to the token endpoint, in their
/// order.
pub open spec fn token_form(m: FlowModel, code: Seq<char>) -> Seq<(Seq<char>, Seq<char>)> {
    seq![
        ("grant_type"@, "authorization_code"@),
        ("code"@, code),
        ("client_id"@, m.client_id),
        ("client_secret"@, m.client_secret),
        ("redirect_uri"@, m.redirect_uri),
        ("code_verifier"@, m.code_verifier),
        ("state"@, m.state),
        ("scope"@, ""@),
    ]
}

/// Where an access token is verified.
pub open spec fn token_info_endpoint() -> Seq<char> {
    "https://oauth2.googleapis.com/tokeninfo"@
}

/// The URL that asks what an access token is good for.
pub open spec fn token_info_url_text(access_token: Seq<char>) -> Seq<char> {
    token_info_endpoint() + query_string(seq![("access_token"@, access_token)])
}

/// The value of the `Authorization` header for an access token.
pub open spec fn bearer_text(access_token: Seq<char>) -> Seq<char> {
    "Bearer "@ + access_token
}

/// The provider's reason, where the callback is a refusal.
pub open spec fn is_denied(callback: CallbackResultView) -> bool {
    callback.error is Some && callback.error->0.len() > 0
}

/// What a callback is worth to a run: the authorization code, or the
/// reason for which the run ends. A refusal by the provider comes first,
/// then a state that is not the one sent out, then a code that is absent
/// or empty.
pub open spec fn callback_verdict(m: FlowModel, callback: CallbackResultView) -> Result<
    Seq<char>,
    AuthErrorView,
> {
    if is_denied(callback) {
        Err(AuthErrorView::AuthorizationDenied(callback.error->0))
    } else if callback.state != Some(m.state) {
        Err(AuthErrorView::StateMismatch)
    } else if callback.code is None || callback.code->0.len() == 0 {
        Err(AuthErrorView::MissingAuthorizationCode)
    } else {
        Ok(callback.code->0)
    }
}

/// The run as it is after it was abandoned, with the action that says so.
pub open spec fn flow_fails(m: FlowModel, error: AuthErrorView) -> (FlowModel, FlowActionView) {
    (FlowModel { phase: FlowPhase::Failed, ..m }, FlowActionView::Fail(error))
}

/// A run that has not begun takes its state and its code verifier, derives
/// the code challenge, and asks for a port. A run that has begun is not
/// begun again.
pub open spec fn flow_begin(m: FlowModel, state: Seq<char>, code_verifier: Seq<char>) -> (
    FlowModel,
    FlowActionView,
) {
    if m.phase == FlowPhase::Idle {
        (
            FlowModel {
                phase: FlowPhase::ReservingPort,
                state: state,
                code_verifier: code_verifier,
                code_challenge: code_challenge(code_verifier),
                ..m
            },
            FlowActionView::ReservePort,
        )
    } else {
        (m, FlowActionView::Nothing)
    }
}

/// The run with its port and its redirect URI.
pub open spec fn with_port(m: FlowModel, port: u16) -> FlowModel {
    FlowModel {
        phase: FlowPhase::OpeningBrowser,
        port: port,
        redirect_uri: redirect_uri_text(port),
        ..m
    }
}

/// What a run does on an event: the run as it is afterwards, and the action
/// it asks for. An event that the phase does not wait for changes nothing.
pub open spec fn flow_step(m: FlowModel, e: FlowEventView) -> (FlowModel, FlowActionView) {
    match (m.phase, e) {
        (FlowPhase::ReservingPort, FlowEventView::PortReserved(port)) => (
            with_port(m, port),
            FlowActionView::OpenBrowser { url: authorization_url(with_port(m, port)) },
        ),
        (FlowPhase::ReservingPort, FlowEventView::NoPortAvailable) => flow_fails(
            m,
            AuthErrorView::NoPortAvailable,
        ),
        (FlowPhase::OpeningBrowser, FlowEventView::BrowserOpened) => (
            FlowModel { phase: FlowPhase::AwaitingCallback, ..m },
            FlowActionView::AwaitCallback { port: m.port, timeout_ms: CALLBACK_TIMEOUT_MS },
        ),
        (FlowPhase::OpeningBrowser, FlowEventView::BrowserLaunchFailed) => flow_fails(
            m,
            AuthErrorView::BrowserLaunchFailed,
        ),
        (FlowPhase::AwaitingCallback, FlowEventView::CallbackReceived(callback)) => {
            match callback_verdict(m, callback) {
                Ok(code) => (
                    FlowModel { phase: FlowPhase::ExchangingCode, ..m },
                    FlowActionView::ExchangeCode {
                        endpoint: m.token_endpoint,
                        form: token_form(m, code),
                    },
                ),
                Err(error) => flow_fails(m, error),
            }
        },
        (FlowPhase::AwaitingCallback, FlowEventView::CallbackTimedOut) => flow_fails(
            m,
            AuthErrorView::Timeout,
        ),
        (FlowPhase::AwaitingCallback, FlowEventView::TransportFailed) => flow_fails(
            m,
            AuthErrorView::TransportFailed,
        ),
        (FlowPhase::ExchangingCode, FlowEventView::TokenReceived(token)) => (
            FlowModel { phase: FlowPhase::Completed, token: token, ..m },
            FlowActionView::Finish,
        ),
        (FlowPhase::ExchangingCode, FlowEventView::TokenExchangeFailed) => flow_fails(
            m,
            AuthErrorView::TokenExchangeFailed,
        ),
        _ => (m, FlowActionView::Nothing),
    }
}

/// Once a run is completed or abandoned, nothing more happens.
pub proof fn lemma_flow_ends(m: FlowModel, e: FlowEventView)
    requires
        m.phase == FlowPhase::Completed || m.phase == FlowPhase::Failed,
    ensures
        flow_step(m, e) == (m, FlowActionView::Nothing),
{
}

/// The token endpoint is asked only on a callback that the provider did not
/// refuse, that carries the state of the run, and that carries a code; and
/// then with that code.
pub proof fn lemma_exchange_needs_valid_callback(m: FlowModel, e: FlowEventView)
    requires
        flow_step(m, e).1 is ExchangeCode,
    ensures
        m.phase == FlowPhase::AwaitingCallback,
        e is CallbackReceived,
        !is_denied(e->CallbackReceived_0),
        e->CallbackReceived_0.state == Some(m.state),
        e->CallbackReceived_0.code is Some,
        e->CallbackReceived_0.code->0.len() > 0,
        flow_step(m, e).1 == (FlowActionView::ExchangeCode {
            endpoint: m.token_endpoint,
            form: token_form(m, e->CallbackReceived_0.code->0),
        }),
{
}

/// A callback that reports a refusal ends the run with the provider's
/// reason, in whatever phase it comes, and the token endpoint is not asked.
pub proof fn lemma_denied_callback_fails(m: FlowModel, callback: CallbackResultView)
    requires
        is_denied(callback),
    ensures
        !(flow_step(m, FlowEventView::CallbackReceived(callback)).1 is ExchangeCode),
        m.phase == FlowPhase::AwaitingCallback ==> flow_step(
            m,
            FlowEventView::CallbackReceived(callback),
        ) == flow_fails(m, AuthErrorView::AuthorizationDenied(callback.error->0)),
{
}

/// A callback with another state than the run's ends the run with
/// `StateMismatch`, and the token endpoint is not asked. Left out are the
/// callbacks that report a refusal: those end the run with the refusal.
pub proof fn lemma_state_mismatch_fails(m: FlowModel, callback: CallbackResultView)
    requires
        callback.state != Some(m.state),
        !is_denied(callback),
    ensures
        !(flow_step(m, FlowEventView::CallbackReceived(callback)).1 is ExchangeCode),
        m.phase == FlowPhase::AwaitingCallback ==> flow_step(
            m,
            FlowEventView::CallbackReceived(callback),
        ) == flow_fails(m, AuthErrorView::StateMismatch),
{
}

/// What holds of a run at every time: its credentials are not empty; once
/// it has begun, its code challenge is that of its code verifier; once it
/// has a port, its redirect URI is that of the port; and it has no token
/// set before it is completed.
pub open spec fn is_consistent(m: FlowModel) -> bool {
    &&& m.client_id.len() > 0
    &&& m.client_secret.len() > 0
    &&& m.phase != FlowPhase::Idle ==> m.code_challenge == code_challenge(m.code_verifier)
    &&& (m.phase == FlowPhase::OpeningBrowser || m.phase == FlowPhase::AwaitingCallback || m.phase
        == FlowPhase::ExchangingCode || m.phase == FlowPhase::Completed) ==> m.redirect_uri
        == redirect_uri_text(m.port)
    &&& m.phase != FlowPhase::Completed ==> m.token == no_token()
}

/// A new run is consistent, and stays so whatever happens.
pub proof fn lemma_flow_stays_consistent(
    m: FlowModel,
    state: Seq<char>,
    code_verifier: Seq<char>,
    e: FlowEventView,
)
    requires
        is_consistent(m),
    ensures
        is_consistent(flow_begin(m, state, code_verifier).0),
        is_consistent(flow_step(m, e).0),
{
}

/// The run that `new` makes of credentials that are not empty is
/// consistent.
pub proof fn lemma_new_run_is_consistent(
    client_id: Seq<char>,
    client_secret: Seq<char>,
    endpoints: WellKnownEndpoints,
)
    requires
        client_id.len() > 0,
        client_secret.len() > 0,
    ensures
        is_consistent(new_run(client_id, client_secret, endpoints)),
{
}

/// A run has one state and one code verifier: no event changes them, nor
/// the credentials and the endpoints, and a run that has begun is not given
/// others by beginning again.
pub proof fn lemma_flow_keeps_its_parameters(
    m: FlowModel,
    state: Seq<char>,
    code_verifier: Seq<char>,
    e: FlowEventView,
)
    ensures
        flow_step(m, e).0.state == m.state,
        flow_step(m, e).0.code_verifier == m.code_verifier,
        flow_step(m, e).0.code_challenge == m.code_challenge,
        flow_step(m, e).0.client_id == m.client_id,
        flow_step(m, e).0.client_secret == m.client_secret,
        flow_step(m, e).0.authorization_endpoint == m.authorization_endpoint,
        flow_step(m, e).0.token_endpoint == m.token_endpoint,
        flow_step(m, e).0.userinfo_endpoint == m.userinfo_endpoint,
        m.phase != FlowPhase::Idle ==> flow_begin(m, state, code_verifier) == (
            m,
            FlowActionView::Nothing,
        ),
{
}

/// A token set that the token endpoint answers with becomes the run's
/// token set as it is.
pub proof fn lemma_token_is_kept(m: FlowModel, token: TokenDataView)
    requires
        m.phase == FlowPhase::ExchangingCode,
    ensures
        flow_step(m, FlowEventView::TokenReceived(token)).0.token == token,
        flow_step(m, FlowEventView::TokenReceived(token)).0.phase == FlowPhase::Completed,
        flow_step(m, FlowEventView::TokenReceived(token)).1 == FlowActionView::Finish,
{
}

/// The code verifier and the code challenge of one run. The challenge
/// method is always `S256`.
#[derive(Debug, Clone, PartialEq, Eq)]
pub struct PkceParameters {
    pub code_verifier: String,
    pub code_challenge: String,
}

/// What one run sends out and expects back.
#[derive(Debug, Clone, PartialEq, Eq)]
pub struct FlowState {
    /// The state that has to come back on the callback.
    pub state: String,
    /// Where the provider redirects the browser.
    pub redirect_uri: String,
    /// The port of the loopback listener.
    pub port: u16,
}

/// One authorization run against the provider.
pub struct GoogleOAuth2 {
    wellknown_endpoints: WellKnownEndpoints,
    client_id: String,
    client_secret: String,
    token_data: TokenData,
    phase: FlowPhase,
    pkce: PkceParameters,
    flow: FlowState,
}

impl View for GoogleOAuth2 {
    type V = FlowModel;

    closed spec fn view(&self) -> FlowModel {
        FlowModel {
            phase: self.phase,
            authorization_endpoint: self.wellknown_endpoints.authorization_endpoint@,
            token_endpoint: self.wellknown_endpoints.token_endpoint@,
            userinfo_endpoint: self.wellknown_endpoints.userinfo_endpoint@,
            client_id: self.client_id@,
            client_secret: self.client_secret@,
            state: self.flow.state@,
            code_verifier: self.pkce.code_verifier@,
            code_challenge: self.pkce.code_challenge@,
            port: self.flow.port,
            redirect_uri: self.flow.redirect_uri@,
            token: self.token_data@,
        }
    }
}

/// A key and a value as owned texts.
fn pair(key: &str, value: &str) -> (r: (String, String))
    ensures
        r.0@ == key@,
        r.1@ == value@,
{
    (String::from_str(key), String::from_str(value))
}

impl GoogleOAuth2 {
    /// A run for these credentials against these endpoints. Credentials of
    /// which one is empty are refused.
    pub fn new(client_id: &str, client_secret: &str, wellknown_endpoints: WellKnownEndpoints) -> (r:
        Result<Self, AuthError>)
        ensures
            r is Ok <==> client_id@.len() > 0 && client_secret@.len() > 0,
            r matches Ok(run) ==> run@ == new_run(client_id@, client_secret@, wellknown_endpoints),
            r matches Err(e) ==> e@ == AuthErrorView::InvalidConfiguration,
    {
        if client_id.is_empty() || client_secret.is_empty() {
            return Err(AuthError::InvalidConfiguration);
        }
        Ok(
            GoogleOAuth2 {
                wellknown_endpoints,
                client_id: String::from_str(client_id),
                client_secret: String::from_str(client_secret),
                token_data: TokenData::empty(),
                phase: FlowPhase::Idle,
                pkce: PkceParameters {
                    code_verifier: String::new(),
                    code_challenge: String::new(),
                },
                flow: FlowState { state: String::new(), redirect_uri: String::new(), port: 0 },
            },
        )
    }

    /// How far the run has come.
    pub fn phase(&self) -> (r: FlowPhase)
        ensures
            r == self@.phase,
    {
        self.phase
    }

    /// The state that has to come back on the callback.
    pub fn state(&self) -> (r: &String)
        ensures
            r@ == self@.state,
    {
        &self.flow.state
    }

    /// The code verifier of the run.
    pub fn code_verifier(&self) -> (r: &String)
        ensures
            r@ == self@.code_verifier,
    {
        &self.pkce.code_verifier
    }

    /// The code challenge of the run.
    pub fn code_challenge(&self) -> (r: &String)
        ensures
            r@ == self@.code_challenge,
    {
        &self.pkce.code_challenge
    }

    /// The redirect URI of the run.
    pub fn redirect_uri(&self) -> (r: &String)
        ensures
            r@ == self@.redirect_uri,
    {
        &self.flow.redirect_uri
    }

    /// The port of the loopback listener.
    pub fn port(&self) -> (r: u16)
        ensures
            r == self@.port,
    {
        self.flow.port
    }

    /// The token set of the run.
    pub fn token_data(&self) -> (r: &TokenData)
        ensures
            r@ == self@.token,
    {
        &self.token_data
    }

    /// Begins the run with a fresh random state and a fresh random code
    /// verifier, each of 43 characters of the URL-safe alphabet.
    pub fn begin(&mut self) -> (action: FlowAction)
        ensures
            exists|state: Seq<char>, code_verifier: Seq<char>|
                {
                    &&& state.len() == 43
                    &&& is_url_safe(state)
                    &&& code_verifier.len() == 43
                    &&& is_url_safe(code_verifier)
                    &&& (final(self)@, action@) == #[trigger] flow_begin(
                        old(self)@,
                        state,
                        code_verifier,
                    )
                },
    {
        let state = generate_random_string(RANDOM_BYTES);
        let code_verifier = generate_random_string(RANDOM_BYTES);
        self.begin_with(state, code_verifier)
    }

    /// Begins the run with this state and this code verifier.
    pub fn begin_with(&mut self, state: String, code_verifier: String) -> (action: FlowAction)
        ensures
            (final(self)@, action@) == flow_begin(old(self)@, state@, code_verifier@),
    {
        match self.phase {
            FlowPhase::Idle => {
                self.pkce.code_challenge = generate_code_challenge(code_verifier.as_str());
                self.pkce.code_verifier = code_verifier;
                self.flow.state = state;
                self.phase = FlowPhase::ReservingPort;
                FlowAction::ReservePort
            },
            _ => FlowAction::Nothing,
        }
    }

    /// The URL on which the browser is opened.
    pub fn authorization_url(&self) -> (r: String)
        ensures
            r@ == authorization_url(self@),
    {
        let mut params: Vec<(String, String)> = Vec::new();
        params.push(pair("response_type", "code"));
        params.push(pair("scope", "openid profile email"));
        params.push(pair("redirect_uri", self.flow.redirect_uri.as_str()));
        params.push(pair("client_id", self.client_id.as_str()));
        params.push(pair("state", self.flow.state.as_str()));
        params.push(pair("code_challenge", self.pkce.code_challenge.as_str()));
        params.push(pair("code_challenge_method", "S256"));
        assert(pairs_text(params@) =~= authorization_params(self@));
        let query = build_query_string(&params);
        let mut url = self.wellknown_endpoints.authorization_endpoint.clone();
        url.append(query.as_str());
        url
    }

    /// The fields of the form that exchanges `code` for the token set.
    pub fn token_request_form(&self, code: &str) -> (r: Vec<(String, String)>)
        ensures
            pairs_text(r@) == token_form(self@, code@),
    {
        let mut form: Vec<(String, String)> = Vec::new();
        form.push(pair("grant_type", "authorization_code"));
        form.push(pair("code", code));
        form.push(pair("client_id", self.client_id.as_str()));
        form.push(pair("client_secret", self.client_secret.as_str()));
        form.push(pair("redirect_uri", self.flow.redirect_uri.as_str()));
        form.push(pair("code_verifier", self.pkce.code_verifier.as_str()));
        form.push(pair("state", self.flow.state.as_str()));
        form.push(pair("scope", ""));
        form
    }

    /// What a callback is worth to the run: the authorization code, or the
    /// error with which the run ends.
    pub fn check_callback(&self, callback: &CallbackResult) -> (r: Result<String, AuthError>)
        ensures
            match r {
                Ok(code) => callback_verdict(self@, callback@) == Ok::<Seq<char>, AuthErrorView>(
                    code@,
                ),
                Err(error) => callback_verdict(self@, callback@) == Err::<
                    Seq<char>,
                    AuthErrorView,
                >(error@),
            },
    {
        match &callback.error {
            Some(reason) => {
                if !reason.as_str().is_empty() {
                    return Err(AuthError::AuthorizationDenied(reason.clone()));
                }
            },
            None => {},
        }
        let same_state = match &callback.state {
            Some(state) => *state == self.flow.state,
            None => false,
        };
        if !same_state {
            return Err(AuthError::StateMismatch);
        }
        match &callback.code {
            Some(code) => {
                if code.as_str().is_empty() {
                    Err(AuthError::MissingAuthorizationCode)
                } else {
                    Ok(code.clone())
                }
            },
            None => Err(AuthError::MissingAuthorizationCode),
        }
    }

    /// Takes an event, and says what to do next.
    pub fn advance(&mut self, event: FlowEvent) -> (action: FlowAction)
        ensures
            (final(self)@, action@) == flow_step(old(self)@, event@),
    {
        match self.phase {
            FlowPhase::ReservingPort => match event {
                FlowEvent::PortReserved(port) => {
                    self.flow.port = port;
                    self.flow.redirect_uri = redirect_uri(port);
                    self.phase = FlowPhase::OpeningBrowser;
                    FlowAction::OpenBrowser { url: self.authorization_url() }
                },
                FlowEvent::NoPortAvailable => self.fail(AuthError::NoPortAvailable),
                _ => FlowAction::Nothing,
            },
            FlowPhase::OpeningBrowser => match event {
                FlowEvent::BrowserOpened => {
                    self.phase = FlowPhase::AwaitingCallback;
                    FlowAction::AwaitCallback {
                        port: self.flow.port,
                        timeout_ms: CALLBACK_TIMEOUT_MS,
                    }
                },
                FlowEvent::BrowserLaunchFailed => self.fail(AuthError::BrowserLaunchFailed),
                _ => FlowAction::Nothing,
            },
            FlowPhase::AwaitingCallback => match event {
                FlowEvent::CallbackReceived(callback) => {
                    match self.check_callback(&callback) {
                        Ok(code) => {
                            let form = self.token_request_form(code.as_str());
                            let endpoint = self.wellknown_endpoints.token_endpoint.clone();
                            self.phase = FlowPhase::ExchangingCode;
                            FlowAction::ExchangeCode { endpoint, form }
                        },
                        Err(error) => self.fail(error),
                    }
                },
                FlowEvent::CallbackTimedOut => self.fail(AuthError::Timeout),
                FlowEvent::TransportFailed => self.fail(AuthError::TransportFailed),
                _ => FlowAction::Nothing,
            },
            FlowPhase::ExchangingCode => match event {
                FlowEvent::TokenReceived(token) => {
                    self.token_data = token;
                    self.phase = FlowPhase::Completed;
                    FlowAction::Finish
                },
                FlowEvent::TokenExchangeFailed => self.fail(AuthError::TokenExchangeFailed),
                _ => FlowAction::Nothing,
            },
            _ => FlowAction::Nothing,
        }
    }

    fn fail(&mut self, error: AuthError) -> (action: FlowAction)
        ensures
            (final(self)@, action@) == flow_fails(old(self)@, error@),
    {
        self.phase = FlowPhase::Failed;
        FlowAction::Fail(error)
    }

    /// The URL that asks the provider what the access token is good for.
    pub fn token_info_url(&self) -> (r: String)
        ensures
            r@ == token_info_url_text(self@.token.access_token),
    {
        let mut params: Vec<(String, String)> = Vec::new();
        params.push(pair("access_token", self.token_data.access_token.as_str()));
        assert(pairs_text(params@) =~= seq![("access_token"@, self@.token.access_token)]);
        let query = build_query_string(&params);
        let mut url = String::from_str("https://oauth2.googleapis.com/tokeninfo");
        url.append(query.as_str());
        url
    }

    /// The URL of the user information endpoint.
    pub fn user_info_url(&self) -> (r: &String)
        ensures
            r@ == self@.userinfo_endpoint,
    {
        &self.wellknown_endpoints.userinfo_endpoint
    }

    /// The value of the `Authorization` header that presents the access
    /// token.
    pub fn bearer_authorization(&self) -> (r: String)
        ensures
            r@ == bearer_text(self@.token.access_token),
    {
        let mut value = String::from_str("Bearer ");
        value.append(self.token_data.access_token.as_str());
        value
    }
}

} // verus!
