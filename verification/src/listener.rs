//! The loopback listener that takes the provider's redirect.
//!
//! The listener is used once: it binds its port, waits for one connection
//! or until its time is up, reads one request, answers it, and is closed.
//! Binding, accepting, reading and sleeping are the caller's part. Here is
//! what the listener decides: for each thing that happened, the state it is
//! in afterwards and what the caller has to do next.

use crate::callback::{
    callback_of, callback_result, option_text, CallbackResult, CallbackResultView,
};
use crate::error::{AuthError, AuthErrorView};
use crate::request::{parse_request_line, request_query, QueryParams};
use vstd::prelude::*;
use vstd::string::*;

verus! {

/// For how long the listener waits for the callback, in milliseconds.
pub const CALLBACK_TIMEOUT_MS: u64 = 120_000;

/// For how long the caller sleeps between two attempts to accept, in
/// milliseconds.
pub const POLL_INTERVAL_MS: u64 = 50;

/// The states of the listener.
#[derive(Debug, Clone, Copy, PartialEq, Eq, Structural)]
pub enum ListenerState {
    /// Nothing is bound yet.
    Idle,
    /// The port is bound.
    Bound,
    /// The listener waits for a connection.
    Listening,
    /// A connection was accepted.
    Received,
    /// The request was answered, and the port is free again.
    Closed,
    /// The time was up before a connection came.
    TimedOut,
    /// Binding, accepting or answering failed.
    Failed,
}

/// What happened since the last action.
#[derive(Debug, Clone, PartialEq, Eq)]
pub enum ListenerEvent {
    /// The caller is ready to begin.
    Start,
    /// The port is bound.
    BindSucceeded,
    /// The port could not be bound.
    BindFailed,
    /// Accepting no longer blocks, and the clock runs.
    ListenStarted,
    /// The listener could not be set up.
    ListenFailed,
    /// No connection is waiting.
    NoConnection { elapsed_ms: u64 },
    /// A connection was accepted.
    Connected { elapsed_ms: u64 },
    /// Accepting failed for good.
    AcceptFailed,
    /// One more line of the request was read, without its line ending.
    LineRead(String),
    /// The request has no more lines: the peer is done, or reading failed.
    InputEnded,
    /// The response went out.
    ResponseWritten,
    /// The response could not be written.
    ResponseFailed,
}

/// What the caller has to do next.
#[derive(Debug, Clone, PartialEq, Eq)]
pub enum ListenerAction {
    /// Bind the port on the loopback address.
    Bind { port: u16 },
    /// Make accepting non-blocking and start the clock.
    Listen,
    /// Try to accept a connection.
    Accept,
    /// Sleep for so many milliseconds, then try to accept again.
    RetryAfter { millis: u64 },
    /// Read the next line of the request.
    ReadLine,
    /// Write this response to the connection.
    Respond { response: String },
    /// Close the connection and the listener, and hand the result on.
    Deliver(CallbackResult),
    /// Close what is open, and give up with this error.
    Abort(AuthError),
    /// The event is not one that the listener waits for: do nothing.
    Nothing,
}

/// A `ListenerEvent` with its texts as sequences of characters.
pub enum ListenerEventView {
    Start,
    BindSucceeded,
    BindFailed,
    ListenStarted,
    ListenFailed,
    NoConnection { elapsed_ms: u64 },
    Connected { elapsed_ms: u64 },
    AcceptFailed,
    LineRead(Seq<char>),
    InputEnded,
    ResponseWritten,
    ResponseFailed,
}

/// A `ListenerAction` with its texts as sequences of characters.
pub enum ListenerActionView {
    Bind { port: u16 },
    Listen,
    Accept,
    RetryAfter { millis: u64 },
    ReadLine,
    Respond { response: Seq<char> },
    Deliver(CallbackResultView),
    Abort(AuthErrorView),
    Nothing,
}

impl View for ListenerEvent {
    type V = ListenerEventView;

    open spec fn view(&self) -> ListenerEventView {
        match self {
            ListenerEvent::Start => ListenerEventView::Start,
            ListenerEvent::BindSucceeded => ListenerEventView::BindSucceeded,
            ListenerEvent::BindFailed => ListenerEventView::BindFailed,
            ListenerEvent::ListenStarted => ListenerEventView::ListenStarted,
            ListenerEvent::ListenFailed => ListenerEventView::ListenFailed,
            ListenerEvent::NoConnection { elapsed_ms } => ListenerEventView::NoConnection {
                elapsed_ms: *elapsed_ms,
            },
            ListenerEvent::Connected { elapsed_ms } => ListenerEventView::Connected {
                elapsed_ms: *elapsed_ms,
            },
            ListenerEvent::AcceptFailed => ListenerEventView::AcceptFailed,
            ListenerEvent::LineRead(line) => ListenerEventView::LineRead(line@),
            ListenerEvent::InputEnded => ListenerEventView::InputEnded,
            ListenerEvent::ResponseWritten => ListenerEventView::ResponseWritten,
            ListenerEvent::ResponseFailed => ListenerEventView::ResponseFailed,
        }
    }
}

impl View for ListenerAction {
    type V = ListenerActionView;

    open spec fn view(&self) -> ListenerActionView {
        match self {
            ListenerAction::Bind { port } => ListenerActionView::Bind { port: *port },
            ListenerAction::Listen => ListenerActionView::Listen,
            ListenerAction::Accept => ListenerActionView::Accept,
            ListenerAction::RetryAfter { millis } => ListenerActionView::RetryAfter {
                millis: *millis,
            },
            ListenerAction::ReadLine => ListenerActionView::ReadLine,
            ListenerAction::Respond { response } => ListenerActionView::Respond {
                response: response@,
            },
            ListenerAction::Deliver(result) => ListenerActionView::Deliver(result@),
            ListenerAction::Abort(error) => ListenerActionView::Abort(error@),
            ListenerAction::Nothing => ListenerActionView::Nothing,
        }
    }
}

/// The listener as a value: its state, what it was made with, the request
/// line once it was read, and the result that it holds between reading the
/// request and answering it.
pub struct ListenerModel {
    pub state: ListenerState,
    pub port: u16,
    pub timeout_ms: u64,
    pub request_line: Option<Seq<char>>,
    pub result: Option<CallbackResultView>,
}

/// The lines of the request that count: the request line, if there is one.
pub open spec fn request_lines(request_line: Option<Seq<char>>) -> Seq<Seq<char>> {
    match request_line {
        Some(line) => seq![line],
        None => Seq::empty(),
    }
}

/// The head of the request is complete: the listener holds what the
/// request line tells, and answers.
pub open spec fn listener_answers(m: ListenerModel) -> (ListenerModel, ListenerActionView) {
    (
        ListenerModel {
            result: Some(callback_of(request_query(request_lines(m.request_line)))),
            ..m
        },
        ListenerActionView::Respond { response: response_text() },
    )
}

/// The response that every request gets, whatever it asked for.
pub open spec fn response_text() -> Seq<char> {
    "HTTP/1.1 200 OK\r\n\r\nOk."@
}

/// The time is up once the time that has passed reaches the bound.
pub open spec fn time_is_up(timeout_ms: u64, elapsed_ms: u64) -> bool {
    timeout_ms <= elapsed_ms
}

/// The state that ends in failure, with the action that reports it.
pub open spec fn listener_fails(m: ListenerModel) -> (ListenerModel, ListenerActionView) {
    (
        ListenerModel { state: ListenerState::Failed, ..m },
        ListenerActionView::Abort(AuthErrorView::TransportFailed),
    )
}

/// The state that ends in a timeout, with the action that reports it.
pub open spec fn listener_times_out(m: ListenerModel) -> (ListenerModel, ListenerActionView) {
    (
        ListenerModel { state: ListenerState::TimedOut, ..m },
        ListenerActionView::Abort(AuthErrorView::Timeout),
    )
}

/// What the listener does on an event: the state it is in afterwards, and
/// the action it asks for. An event that the state does not wait for
/// changes nothing.
pub open spec fn listener_step(m: ListenerModel, e: ListenerEventView) -> (
    ListenerModel,
    ListenerActionView,
) {
    match (m.state, e) {
        (ListenerState::Idle, ListenerEventView::Start) => (
            m,
            ListenerActionView::Bind { port: m.port },
        ),
        (ListenerState::Idle, ListenerEventView::BindSucceeded) => (
            ListenerModel { state: ListenerState::Bound, ..m },
            ListenerActionView::Listen,
        ),
        (ListenerState::Idle, ListenerEventView::BindFailed) => listener_fails(m),
        (ListenerState::Bound, ListenerEventView::ListenStarted) => (
            ListenerModel { state: ListenerState::Listening, ..m },
            ListenerActionView::Accept,
        ),
        (ListenerState::Bound, ListenerEventView::ListenFailed) => listener_fails(m),
        (ListenerState::Listening, ListenerEventView::NoConnection { elapsed_ms }) => {
            if time_is_up(m.timeout_ms, elapsed_ms) {
                listener_times_out(m)
            } else {
                (m, ListenerActionView::RetryAfter { millis: POLL_INTERVAL_MS })
            }
        },
        (ListenerState::Listening, ListenerEventView::Connected { elapsed_ms }) => {
            if time_is_up(m.timeout_ms, elapsed_ms) {
                listener_times_out(m)
            } else {
                (
                    ListenerModel { state: ListenerState::Received, ..m },
                    ListenerActionView::ReadLine,
                )
            }
        },
        (ListenerState::Listening, ListenerEventView::AcceptFailed) => listener_fails(m),
        (ListenerState::Received, ListenerEventView::LineRead(line)) => {
            if m.result is Some {
                (m, ListenerActionView::Nothing)
            } else if line.len() == 0 {
                listener_answers(m)
            } else if m.request_line is None {
                (ListenerModel { request_line: Some(line), ..m }, ListenerActionView::ReadLine)
            } else {
                (m, ListenerActionView::ReadLine)
            }
        },
        (ListenerState::Received, ListenerEventView::InputEnded) => {
            if m.result is Some {
                (m, ListenerActionView::Nothing)
            } else {
                listener_answers(m)
            }
        },
        (ListenerState::Received, ListenerEventView::ResponseWritten) => {
            match m.result {
                Some(result) => (
                    ListenerModel { state: ListenerState::Closed, result: None, ..m },
                    ListenerActionView::Deliver(result),
                ),
                None => (m, ListenerActionView::Nothing),
            }
        },
        (ListenerState::Received, ListenerEventView::ResponseFailed) => listener_fails(m),
        _ => (m, ListenerActionView::Nothing),
    }
}

/// The listener has ended: nothing is bound any more.
pub open spec fn is_terminal(state: ListenerState) -> bool {
    state == ListenerState::Closed || state == ListenerState::TimedOut || state
        == ListenerState::Failed
}

/// The action has the caller try to take a connection, now or later.
pub open spec fn asks_for_connection(action: ListenerActionView) -> bool {
    action is Bind || action is Listen || action is Accept || action is RetryAfter
}

/// The action has the caller close the listener.
pub open spec fn releases_port(action: ListenerActionView) -> bool {
    action is Deliver || action is Abort
}

/// The listener is used once: after a connection was accepted, and after
/// the listener has ended, no event makes it ask for a connection again.
pub proof fn lemma_listener_single_use(m: ListenerModel, e: ListenerEventView)
    requires
        m.state == ListenerState::Received || is_terminal(m.state),
    ensures
        !asks_for_connection(listener_step(m, e).1),
        listener_step(m, e).0.state == ListenerState::Received || is_terminal(
            listener_step(m, e).0.state,
        ),
{
}

/// The port is released on every way out: the step that ends the listener
/// is the step that has the caller close it.
pub proof fn lemma_listener_releases_port(m: ListenerModel, e: ListenerEventView)
    requires
        !is_terminal(m.state),
    ensures
        is_terminal(listener_step(m, e).0.state) <==> releases_port(listener_step(m, e).1),
{
}

/// A result is handed on only after the request was answered: the step
/// that delivers is the step that learns that the response went out.
pub proof fn lemma_listener_answers_first(m: ListenerModel, e: ListenerEventView)
    requires
        listener_step(m, e).1 is Deliver,
    ensures
        m.state == ListenerState::Received,
        e is ResponseWritten,
        m.result == Some(listener_step(m, e).1->Deliver_0),
{
}

/// Nothing more happens once the listener has ended.
pub proof fn lemma_listener_terminal(m: ListenerModel, e: ListenerEventView)
    requires
        is_terminal(m.state),
    ensures
        listener_step(m, e) == (m, ListenerActionView::Nothing),
{
}

/// A wait that outlasts its bound ends in a timeout, whether or not a
/// connection came in the end.
pub proof fn lemma_listener_timeout(m: ListenerModel, e: ListenerEventView)
    requires
        m.state == ListenerState::Listening,
        (e matches ListenerEventView::NoConnection { elapsed_ms } && m.timeout_ms <= elapsed_ms) || (
        e matches ListenerEventView::Connected { elapsed_ms } && m.timeout_ms <= elapsed_ms),
    ensures
        listener_step(m, e).0.state == ListenerState::TimedOut,
        listener_step(m, e).1 == ListenerActionView::Abort(AuthErrorView::Timeout),
{
}

/// The response that every request gets.
pub fn callback_response() -> (r: String)
    ensures
        r@ == response_text(),
{
    String::from_str("HTTP/1.1 200 OK\r\n\r\nOk.")
}

/// The loopback listener of one run.
pub struct CallbackListener {
    state: ListenerState,
    port: u16,
    timeout_ms: u64,
    request_line: Option<String>,
    result: Option<CallbackResult>,
}

impl View for CallbackListener {
    type V = ListenerModel;

    closed spec fn view(&self) -> ListenerModel {
        ListenerModel {
            state: self.state,
            port: self.port,
            timeout_ms: self.timeout_ms,
            request_line: option_text(self.request_line),
            result: match self.result {
                Some(result) => Some(result@),
                None => None,
            },
        }
    }
}

impl CallbackListener {
    /// A listener for `port` that gives up after `timeout_ms` milliseconds.
    pub fn new(port: u16, timeout_ms: u64) -> (r: Self)
        ensures
            r@ == (ListenerModel {
                state: ListenerState::Idle,
                port: port,
                timeout_ms: timeout_ms,
                request_line: None,
                result: None,
            }),
    {
        CallbackListener {
            state: ListenerState::Idle,
            port,
            timeout_ms,
            request_line: None,
            result: None,
        }
    }

    /// The state of the listener.
    pub fn state(&self) -> (r: ListenerState)
        ensures
            r == self@.state,
    {
        self.state
    }

    /// The port of the listener.
    pub fn port(&self) -> (r: u16)
        ensures
            r == self@.port,
    {
        self.port
    }

    /// Takes an event, and says what to do next.
    pub fn step(&mut self, event: ListenerEvent) -> (action: ListenerAction)
        ensures
            (final(self)@, action@) == listener_step(old(self)@, event@),
    {
        match self.state {
            ListenerState::Idle => match event {
                ListenerEvent::Start => ListenerAction::Bind { port: self.port },
                ListenerEvent::BindSucceeded => {
                    self.state = ListenerState::Bound;
                    ListenerAction::Listen
                },
                ListenerEvent::BindFailed => self.fail(),
                _ => ListenerAction::Nothing,
            },
            ListenerState::Bound => match event {
                ListenerEvent::ListenStarted => {
                    self.state = ListenerState::Listening;
                    ListenerAction::Accept
                },
                ListenerEvent::ListenFailed => self.fail(),
                _ => ListenerAction::Nothing,
            },
            ListenerState::Listening => match event {
                ListenerEvent::NoConnection { elapsed_ms } => {
                    if self.timeout_ms <= elapsed_ms {
                        self.state = ListenerState::TimedOut;
                        ListenerAction::Abort(AuthError::Timeout)
                    } else {
                        ListenerAction::RetryAfter { millis: POLL_INTERVAL_MS }
                    }
                },
                ListenerEvent::Connected { elapsed_ms } => {
                    if self.timeout_ms <= elapsed_ms {
                        self.state = ListenerState::TimedOut;
                        ListenerAction::Abort(AuthError::Timeout)
                    } else {
                        self.state = ListenerState::Received;
                        ListenerAction::ReadLine
                    }
                },
                ListenerEvent::AcceptFailed => self.fail(),
                _ => ListenerAction::Nothing,
            },
            ListenerState::Received => match event {
                ListenerEvent::LineRead(line) => {
                    if self.result.is_some() {
                        ListenerAction::Nothing
                    } else if line.as_str().is_empty() {
                        self.answer()
                    } else {
                        if self.request_line.is_none() {
                            self.request_line = Some(line);
                        }
                        ListenerAction::ReadLine
                    }
                },
                ListenerEvent::InputEnded => {
                    if self.result.is_some() {
                        ListenerAction::Nothing
                    } else {
                        self.answer()
                    }
                },
                ListenerEvent::ResponseWritten => {
                    match self.result.take() {
                        Some(result) => {
                            self.state = ListenerState::Closed;
                            ListenerAction::Deliver(result)
                        },
                        None => ListenerAction::Nothing,
                    }
                },
                ListenerEvent::ResponseFailed => self.fail(),
                _ => ListenerAction::Nothing,
            },
            _ => ListenerAction::Nothing,
        }
    }

    fn answer(&mut self) -> (action: ListenerAction)
        ensures
            (final(self)@, action@) == listener_answers(old(self)@),
    {
        let query = match &self.request_line {
            Some(line) => parse_request_line(line.as_str()),
            None => QueryParams::new(),
        };
        self.result = Some(callback_result(&query));
        ListenerAction::Respond { response: callback_response() }
    }

    fn fail(&mut self) -> (action: ListenerAction)
        ensures
            (final(self)@, action@) == listener_fails(old(self)@),
    {
        self.state = ListenerState::Failed;
        ListenerAction::Abort(AuthError::TransportFailed)
    }
}

} // verus!
