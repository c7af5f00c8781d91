use echo_add_server::handler::{handle_event, handle_session, DecodeOutcome, HandlerAction,
    HandlerError, ReadEvent, SessionEnd};
use echo_add_server::message::{dispatch, AddRequest, AddResponse, ClientMessage, EchoMessage,
    ServerMessage};

fn add_request(a: i32, b: i32) -> ClientMessage {
    ClientMessage::AddRequest(AddRequest { a, b })
}

fn echo_request(content: &str) -> ClientMessage {
    ClientMessage::EchoMessage(EchoMessage { content: content.to_string() })
}

fn received(msg: ClientMessage) -> ReadEvent {
    ReadEvent::Received(DecodeOutcome::Request(msg))
}

#[test]
fn add_is_exact_arithmetic() {
    let resp = dispatch(&add_request(2, 3));
    assert_eq!(resp, ServerMessage::AddResponse(AddResponse { result: 5 }));
}

#[test]
fn add_exact_at_the_largest_operand() {
    let resp = dispatch(&add_request(i32::MAX, 0));
    assert_eq!(resp, ServerMessage::AddResponse(AddResponse { result: i32::MAX }));
}

#[test]
fn add_negative_operands() {
    let resp = dispatch(&add_request(-7, 5));
    assert_eq!(resp, ServerMessage::AddResponse(AddResponse { result: -2 }));
}

#[test]
fn add_wraps_on_overflow() {
    let resp = dispatch(&add_request(i32::MAX, 1));
    assert_eq!(resp, ServerMessage::AddResponse(AddResponse { result: i32::MIN }));
}

#[test]
fn echo_returns_content_unchanged() {
    let resp = dispatch(&echo_request("hi"));
    assert_eq!(resp, ServerMessage::EchoMessage(EchoMessage { content: "hi".to_string() }));
}

#[test]
fn echo_of_empty_content() {
    let resp = dispatch(&echo_request(""));
    assert_eq!(resp, ServerMessage::EchoMessage(EchoMessage { content: "".to_string() }));
}

#[test]
fn clean_close_terminates_without_response() {
    let r = handle_session(&vec![ReadEvent::Closed]);
    assert_eq!(r.end, SessionEnd::Closed);
    assert!(r.responses.is_empty());
}

#[test]
fn peer_reset_is_a_clean_close() {
    let r = handle_session(&vec![ReadEvent::Reset]);
    assert_eq!(r.end, SessionEnd::Closed);
    assert!(r.responses.is_empty());
}

#[test]
fn would_block_retries_then_answers() {
    let events = vec![
        ReadEvent::WouldBlock,
        ReadEvent::WouldBlock,
        received(add_request(1, 2)),
        ReadEvent::Closed,
    ];
    let r = handle_session(&events);
    assert_eq!(r.end, SessionEnd::Closed);
    assert_eq!(r.responses, vec![ServerMessage::AddResponse(AddResponse { result: 3 })]);
}

#[test]
fn malformed_input_fails_only_with_a_decode_error() {
    let r = handle_session(&vec![ReadEvent::Received(DecodeOutcome::Malformed)]);
    assert_eq!(r.end, SessionEnd::Failed(HandlerError::MalformedRequest));
    assert!(r.responses.is_empty());
}

#[test]
fn unsupported_kind_fails_with_a_dispatch_error() {
    let r = handle_session(&vec![ReadEvent::Received(DecodeOutcome::Unsupported)]);
    assert_eq!(r.end, SessionEnd::Failed(HandlerError::UnsupportedRequest));
    assert!(r.responses.is_empty());
}

#[test]
fn io_error_fails_the_session() {
    let events = vec![received(add_request(4, 4)), ReadEvent::Failed];
    let r = handle_session(&events);
    assert_eq!(r.end, SessionEnd::Failed(HandlerError::Io));
    assert_eq!(r.responses, vec![ServerMessage::AddResponse(AddResponse { result: 8 })]);
}

#[test]
fn empty_trace_leaves_the_session_open() {
    let r = handle_session(&Vec::new());
    assert_eq!(r.end, SessionEnd::Open);
    assert!(r.responses.is_empty());
}

#[test]
fn add_then_echo_then_close() {
    let events = vec![
        received(add_request(2, 3)),
        received(echo_request("hi")),
        ReadEvent::Closed,
    ];
    let r = handle_session(&events);
    assert_eq!(r.end, SessionEnd::Closed);
    assert_eq!(
        r.responses,
        vec![
            ServerMessage::AddResponse(AddResponse { result: 5 }),
            ServerMessage::EchoMessage(EchoMessage { content: "hi".to_string() }),
        ]
    );
}

#[test]
fn two_connections_get_only_their_own_answers() {
    let first = handle_session(&vec![received(add_request(2, 3)), ReadEvent::Closed]);
    let second = handle_session(&vec![received(add_request(10, 20)), ReadEvent::Closed]);
    assert_eq!(first.responses, vec![ServerMessage::AddResponse(AddResponse { result: 5 })]);
    assert_eq!(second.responses, vec![ServerMessage::AddResponse(AddResponse { result: 30 })]);
}

#[test]
fn one_event_yields_at_most_one_response() {
    let r = handle_session(&vec![received(add_request(0, 0))]);
    assert_eq!(r.responses.len(), 1);
    assert_eq!(r.end, SessionEnd::Open);
}

#[test]
fn handle_event_maps_each_read_outcome() {
    assert!(matches!(handle_event(&ReadEvent::Closed), HandlerAction::Close));
    assert!(matches!(handle_event(&ReadEvent::Reset), HandlerAction::Close));
    assert!(matches!(handle_event(&ReadEvent::WouldBlock), HandlerAction::Retry));
    assert!(matches!(
        handle_event(&ReadEvent::Failed),
        HandlerAction::Fail(HandlerError::Io)
    ));
    match handle_event(&received(add_request(6, 7))) {
        HandlerAction::Respond(m) => {
            assert_eq!(m, ServerMessage::AddResponse(AddResponse { result: 13 }))
        }
        other => panic!("expected a response, got {:?}", other),
    }
}
