use loopback_oauth::callback::CallbackResult;
use loopback_oauth::error::AuthError;
use loopback_oauth::listener::{
    callback_response, CallbackListener, ListenerAction, ListenerEvent, ListenerState,
    CALLBACK_TIMEOUT_MS, POLL_INTERVAL_MS,
};

fn listening(port: u16, timeout_ms: u64) -> CallbackListener {
    let mut listener = CallbackListener::new(port, timeout_ms);
    assert_eq!(listener.state(), ListenerState::Idle);
    assert_eq!(listener.step(ListenerEvent::Start), ListenerAction::Bind { port });
    assert_eq!(listener.state(), ListenerState::Idle);
    assert_eq!(listener.step(ListenerEvent::BindSucceeded), ListenerAction::Listen);
    assert_eq!(listener.state(), ListenerState::Bound);
    assert_eq!(listener.step(ListenerEvent::ListenStarted), ListenerAction::Accept);
    assert_eq!(listener.state(), ListenerState::Listening);
    listener
}

fn all_events() -> Vec<ListenerEvent> {
    vec![
        ListenerEvent::Start,
        ListenerEvent::BindSucceeded,
        ListenerEvent::BindFailed,
        ListenerEvent::ListenStarted,
        ListenerEvent::ListenFailed,
        ListenerEvent::NoConnection { elapsed_ms: 0 },
        ListenerEvent::Connected { elapsed_ms: 0 },
        ListenerEvent::AcceptFailed,
        ListenerEvent::LineRead("GET /?code=c&state=s HTTP/1.1".to_string()),
        ListenerEvent::LineRead(String::new()),
        ListenerEvent::InputEnded,
        ListenerEvent::ResponseWritten,
        ListenerEvent::ResponseFailed,
    ]
}

#[test]
fn reference_values() {
    assert_eq!(CALLBACK_TIMEOUT_MS, 120_000);
    assert_eq!(POLL_INTERVAL_MS, 50);
    assert_eq!(callback_response(), "HTTP/1.1 200 OK\r\n\r\nOk.");
}

#[test]
fn listener_delivers_one_callback() {
    let mut listener = listening(15000, CALLBACK_TIMEOUT_MS);
    assert_eq!(listener.port(), 15000);
    assert_eq!(
        listener.step(ListenerEvent::NoConnection { elapsed_ms: 10 }),
        ListenerAction::RetryAfter { millis: 50 }
    );
    assert_eq!(listener.state(), ListenerState::Listening);
    assert_eq!(
        listener.step(ListenerEvent::Connected { elapsed_ms: 119_999 }),
        ListenerAction::ReadLine
    );
    assert_eq!(listener.state(), ListenerState::Received);
    for line in ["GET /?code=ABC123&state=XYZ789 HTTP/1.1", "Host: localhost:15000", "Accept: */*"] {
        assert_eq!(
            listener.step(ListenerEvent::LineRead(line.to_string())),
            ListenerAction::ReadLine
        );
    }
    assert_eq!(
        listener.step(ListenerEvent::LineRead(String::new())),
        ListenerAction::Respond { response: "HTTP/1.1 200 OK\r\n\r\nOk.".to_string() }
    );
    assert_eq!(listener.state(), ListenerState::Received);
    assert_eq!(
        listener.step(ListenerEvent::ResponseWritten),
        ListenerAction::Deliver(CallbackResult {
            code: Some("ABC123".to_string()),
            state: Some("XYZ789".to_string()),
            error: None,
        })
    );
    assert_eq!(listener.state(), ListenerState::Closed);
}

#[test]
fn listener_answers_a_request_without_parameters() {
    let mut listener = listening(15000, 1000);
    listener.step(ListenerEvent::Connected { elapsed_ms: 0 });
    listener.step(ListenerEvent::LineRead("GET /favicon.ico HTTP/1.1".to_string()));
    assert_eq!(
        listener.step(ListenerEvent::InputEnded),
        ListenerAction::Respond { response: callback_response() }
    );
    assert_eq!(
        listener.step(ListenerEvent::ResponseWritten),
        ListenerAction::Deliver(CallbackResult {
            code: Some(String::new()),
            state: Some(String::new()),
            error: None,
        })
    );
}

#[test]
fn request_with_an_empty_first_line_has_no_parameters() {
    let mut listener = listening(15000, 1000);
    listener.step(ListenerEvent::Connected { elapsed_ms: 0 });
    assert_eq!(
        listener.step(ListenerEvent::LineRead(String::new())),
        ListenerAction::Respond { response: callback_response() }
    );
    assert_eq!(
        listener.step(ListenerEvent::ResponseWritten),
        ListenerAction::Deliver(CallbackResult {
            code: Some(String::new()),
            state: Some(String::new()),
            error: None,
        })
    );
}

#[test]
fn response_is_not_delivered_before_the_request_was_read() {
    let mut listener = listening(15000, 1000);
    listener.step(ListenerEvent::Connected { elapsed_ms: 0 });
    assert_eq!(listener.step(ListenerEvent::ResponseWritten), ListenerAction::Nothing);
    assert_eq!(listener.step(ListenerEvent::ResponseFailed), ListenerAction::Abort(AuthError::TransportFailed));
}

#[test]
fn listener_times_out_after_its_bound() {
    let mut listener = listening(15001, 200);
    assert_eq!(
        listener.step(ListenerEvent::NoConnection { elapsed_ms: 0 }),
        ListenerAction::RetryAfter { millis: POLL_INTERVAL_MS }
    );
    assert_eq!(
        listener.step(ListenerEvent::NoConnection { elapsed_ms: 199 }),
        ListenerAction::RetryAfter { millis: POLL_INTERVAL_MS }
    );
    assert_eq!(
        listener.step(ListenerEvent::NoConnection { elapsed_ms: 200 }),
        ListenerAction::Abort(AuthError::Timeout)
    );
    assert_eq!(listener.state(), ListenerState::TimedOut);
    for event in all_events() {
        assert_eq!(listener.step(event), ListenerAction::Nothing);
        assert_eq!(listener.state(), ListenerState::TimedOut);
    }
}

#[test]
fn connection_after_the_bound_is_a_timeout() {
    let mut listener = listening(15001, 200);
    assert_eq!(
        listener.step(ListenerEvent::Connected { elapsed_ms: 201 }),
        ListenerAction::Abort(AuthError::Timeout)
    );
    assert_eq!(listener.state(), ListenerState::TimedOut);
}

#[test]
fn listener_fails_on_transport_errors() {
    let mut listener = CallbackListener::new(15002, 200);
    assert_eq!(
        listener.step(ListenerEvent::BindFailed),
        ListenerAction::Abort(AuthError::TransportFailed)
    );
    assert_eq!(listener.state(), ListenerState::Failed);

    let mut listener = CallbackListener::new(15002, 200);
    listener.step(ListenerEvent::BindSucceeded);
    assert_eq!(
        listener.step(ListenerEvent::ListenFailed),
        ListenerAction::Abort(AuthError::TransportFailed)
    );
    assert_eq!(listener.state(), ListenerState::Failed);

    let mut listener = listening(15002, 200);
    assert_eq!(
        listener.step(ListenerEvent::AcceptFailed),
        ListenerAction::Abort(AuthError::TransportFailed)
    );
    assert_eq!(listener.state(), ListenerState::Failed);

    let mut listener = listening(15002, 200);
    listener.step(ListenerEvent::Connected { elapsed_ms: 1 });
    listener.step(ListenerEvent::LineRead("GET /?code=c HTTP/1.1".to_string()));
    listener.step(ListenerEvent::LineRead(String::new()));
    assert_eq!(
        listener.step(ListenerEvent::ResponseFailed),
        ListenerAction::Abort(AuthError::TransportFailed)
    );
    assert_eq!(listener.state(), ListenerState::Failed);
}

#[test]
fn listener_is_used_once() {
    let mut listener = listening(15003, 1000);
    listener.step(ListenerEvent::Connected { elapsed_ms: 1 });
    for event in [
        ListenerEvent::Start,
        ListenerEvent::BindSucceeded,
        ListenerEvent::ListenStarted,
        ListenerEvent::NoConnection { elapsed_ms: 2 },
        ListenerEvent::Connected { elapsed_ms: 2 },
        ListenerEvent::AcceptFailed,
        ListenerEvent::ResponseWritten,
    ] {
        assert_eq!(listener.step(event), ListenerAction::Nothing);
        assert_eq!(listener.state(), ListenerState::Received);
    }
    listener.step(ListenerEvent::LineRead("GET /?code=one HTTP/1.1".to_string()));
    assert_eq!(
        listener.step(ListenerEvent::LineRead("GET /?code=two HTTP/1.1".to_string())),
        ListenerAction::ReadLine
    );
    assert_eq!(
        listener.step(ListenerEvent::InputEnded),
        ListenerAction::Respond { response: callback_response() }
    );
    for event in [
        ListenerEvent::LineRead("GET /?code=three HTTP/1.1".to_string()),
        ListenerEvent::LineRead(String::new()),
        ListenerEvent::InputEnded,
        ListenerEvent::Connected { elapsed_ms: 3 },
    ] {
        assert_eq!(listener.step(event), ListenerAction::Nothing);
    }
    assert_eq!(
        listener.step(ListenerEvent::ResponseWritten),
        ListenerAction::Deliver(CallbackResult {
            code: Some("one".to_string()),
            state: Some(String::new()),
            error: None,
        })
    );
    for event in all_events() {
        assert_eq!(listener.step(event), ListenerAction::Nothing);
        assert_eq!(listener.state(), ListenerState::Closed);
    }
}

#[test]
fn listener_events_out_of_turn_change_nothing() {
    let mut listener = CallbackListener::new(15004, 1000);
    for event in [
        ListenerEvent::ListenStarted,
        ListenerEvent::NoConnection { elapsed_ms: 5000 },
        ListenerEvent::Connected { elapsed_ms: 0 },
        ListenerEvent::LineRead("GET /?code=c HTTP/1.1".to_string()),
        ListenerEvent::InputEnded,
        ListenerEvent::ResponseWritten,
    ] {
        assert_eq!(listener.step(event), ListenerAction::Nothing);
        assert_eq!(listener.state(), ListenerState::Idle);
    }
}
