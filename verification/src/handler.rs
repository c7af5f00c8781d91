//! Per-connection session logic: what one connection's handler does with each
//! read outcome, and what a whole session of reads produces.
//!
//! The handler owns one accepted socket and loops: read, decode, dispatch,
//! encode, write, flush, read again. The I/O itself happens outside; it hands
//! the library one [`ReadEvent`] per read attempt, and the library answers
//! with the [`HandlerAction`] to perform. [`handle_session`] runs that rule
//! over a whole trace of events and is proved to produce exactly the
//! responses and the termination status that [`run_session`] assigns to the
//! trace. Exactly one response is produced per successfully decoded request,
//! and it is handed out (to be written and flushed) before the next event is
//! consumed.
//!
//! Malformed input or an unrecognized message kind ends only the offending
//! connection, with a [`HandlerError`]: the server and its other connections
//! are unaffected.

use crate::message::{dispatch, dispatch_spec, ClientMessage, ClientMsgView, ServerMessage,
    ServerMsgView};
use vstd::prelude::*;

verus! {

/// What decoding the bytes of one read produced.
#[derive(Debug)]
pub enum DecodeOutcome {
    /// A recognized request.
    Request(ClientMessage),
    /// The envelope decoded, but its payload is no recognized request kind.
    Unsupported,
    /// The bytes are no valid envelope at all.
    Malformed,
}

/// The outcome of one read attempt on the connection, as the handler sees it.
#[derive(Debug)]
pub enum ReadEvent {
    /// The read returned zero bytes: the peer closed cleanly.
    Closed,
    /// The read returned bytes, and decoding them gave this outcome.
    Received(DecodeOutcome),
    /// No data is available yet on the non-blocking socket.
    WouldBlock,
    /// The peer reset or aborted the connection.
    Reset,
    /// Any other I/O error while reading.
    Failed,
}

/// Why a session ended with an error.
#[derive(Debug, Clone, Copy, PartialEq, Eq, Structural)]
pub enum HandlerError {
    /// An unrecoverable I/O error on the socket.
    Io,
    /// The received bytes did not decode to a valid envelope.
    MalformedRequest,
    /// The envelope held no recognized request kind.
    UnsupportedRequest,
}

/// What the handler does next after classifying one read.
#[derive(Debug)]
pub enum HandlerAction {
    /// Encode the response, write all of its bytes, flush, then read again.
    Respond(ServerMessage),
    /// Sleep briefly, then retry the read.
    Retry,
    /// End the session cleanly, writing nothing.
    Close,
    /// End the session with this error, writing nothing.
    Fail(HandlerError),
}

/// Mathematical model of a decode outcome.
pub enum DecodeOutcomeView {
    Request(ClientMsgView),
    Unsupported,
    Malformed,
}

/// Mathematical model of a read event.
pub enum ReadEventView {
    Closed,
    Received(DecodeOutcomeView),
    WouldBlock,
    Reset,
    Failed,
}

/// Mathematical model of a handler action.
pub enum HandlerActionView {
    Respond(ServerMsgView),
    Retry,
    Close,
    Fail(HandlerError),
}

impl View for DecodeOutcome {
    type V = DecodeOutcomeView;

    open spec fn view(&self) -> DecodeOutcomeView {
        match *self {
            DecodeOutcome::Request(m) => DecodeOutcomeView::Request(m@),
            DecodeOutcome::Unsupported => DecodeOutcomeView::Unsupported,
            DecodeOutcome::Malformed => DecodeOutcomeView::Malformed,
        }
    }
}

impl View for ReadEvent {
    type V = ReadEventView;

    open spec fn view(&self) -> ReadEventView {
        match *self {
            ReadEvent::Closed => ReadEventView::Closed,
            ReadEvent::Received(d) => ReadEventView::Received(d@),
            ReadEvent::WouldBlock => ReadEventView::WouldBlock,
            ReadEvent::Reset => ReadEventView::Reset,
            ReadEvent::Failed => ReadEventView::Failed,
        }
    }
}

impl View for HandlerAction {
    type V = HandlerActionView;

    open spec fn view(&self) -> HandlerActionView {
        match *self {
            HandlerAction::Respond(m) => HandlerActionView::Respond(m@),
            HandlerAction::Retry => HandlerActionView::Retry,
            HandlerAction::Close => HandlerActionView::Close,
            HandlerAction::Fail(e) => HandlerActionView::Fail(e),
        }
    }
}

/// The action owed to each read event. A clean close and a peer reset both
/// end the session cleanly; no data yet means retry; a recognized request is
/// answered by its dispatched response; malformed or unsupported input and
/// other I/O errors end the session with the matching error.
pub open spec fn step_spec(ev: ReadEventView) -> HandlerActionView {
    match ev {
        ReadEventView::Closed => HandlerActionView::Close,
        ReadEventView::Received(DecodeOutcomeView::Request(m)) => HandlerActionView::Respond(
            dispatch_spec(m),
        ),
        ReadEventView::Received(DecodeOutcomeView::Unsupported) => HandlerActionView::Fail(
            HandlerError::UnsupportedRequest,
        ),
        ReadEventView::Received(DecodeOutcomeView::Malformed) => HandlerActionView::Fail(
            HandlerError::MalformedRequest,
        ),
        ReadEventView::WouldBlock => HandlerActionView::Retry,
        ReadEventView::Reset => HandlerActionView::Close,
        ReadEventView::Failed => HandlerActionView::Fail(HandlerError::Io),
    }
}

/// Decide the handler's next action for one read event.
pub fn handle_event(ev: &ReadEvent) -> (act: HandlerAction)
    ensures
        act@ == step_spec(ev@),
{
    match ev {
        ReadEvent::Closed => HandlerAction::Close,
        ReadEvent::Received(DecodeOutcome::Request(m)) => HandlerAction::Respond(dispatch(m)),
        ReadEvent::Received(DecodeOutcome::Unsupported) => HandlerAction::Fail(
            HandlerError::UnsupportedRequest,
        ),
        ReadEvent::Received(DecodeOutcome::Malformed) => HandlerAction::Fail(
            HandlerError::MalformedRequest,
        ),
        ReadEvent::WouldBlock => HandlerAction::Retry,
        ReadEvent::Reset => HandlerAction::Close,
        ReadEvent::Failed => HandlerAction::Fail(HandlerError::Io),
    }
}

/// How a session ended, if it ended.
#[derive(Debug, Clone, Copy, PartialEq, Eq, Structural)]
pub enum SessionEnd {
    /// The trace ran out with the connection still open, awaiting more input.
    Open,
    /// The peer closed or reset; the session ended cleanly.
    Closed,
    /// The session ended with this error.
    Failed(HandlerError),
}

/// Model of a session in progress: the responses handed out so far, in
/// order, and whether the session has ended.
pub struct SessionTrace {
    pub responses: Seq<ServerMsgView>,
    pub end: SessionEnd,
}

/// A session that has not consumed any event yet.
pub open spec fn session_init() -> SessionTrace {
    SessionTrace { responses: Seq::empty(), end: SessionEnd::Open }
}

/// Feed one read event to a session. Events after the session has ended are
/// ignored (the real loop stops reading once it ends, so it never sees any).
pub open spec fn session_step(s: SessionTrace, ev: ReadEventView) -> SessionTrace {
    if s.end is Open {
        match step_spec(ev) {
            HandlerActionView::Respond(m) => SessionTrace {
                responses: s.responses.push(m),
                end: SessionEnd::Open,
            },
            HandlerActionView::Retry => s,
            HandlerActionView::Close => SessionTrace { responses: s.responses, end: SessionEnd::Closed },
            HandlerActionView::Fail(e) => SessionTrace {
                responses: s.responses,
                end: SessionEnd::Failed(e),
            },
        }
    } else {
        s
    }
}

/// The session that results from consuming a whole trace of read events, in
/// order, starting from a fresh connection.
pub open spec fn run_session(evs: Seq<ReadEventView>) -> SessionTrace
    decreases evs.len(),
{
    if evs.len() == 0 {
        session_init()
    } else {
        session_step(run_session(evs.drop_last()), evs.last())
    }
}

/// The models of a sequence of read events.
pub open spec fn event_views(evs: Seq<ReadEvent>) -> Seq<ReadEventView> {
    evs.map_values(|ev: ReadEvent| ev@)
}

/// The models of a sequence of responses.
pub open spec fn response_views(resps: Seq<ServerMessage>) -> Seq<ServerMsgView> {
    resps.map_values(|m: ServerMessage| m@)
}

/// What a finished run of [`handle_session`] reports: every response the
/// handler produced, in order, and how the session ended.
pub struct SessionResult {
    pub responses: Vec<ServerMessage>,
    pub end: SessionEnd,
}

/// Run one connection's handler over a trace of read events: decide each
/// event with [`handle_event`], collect each response in order, and stop at
/// the first event that ends the session.
pub fn handle_session(events: &Vec<ReadEvent>) -> (r: SessionResult)
    ensures
        response_views(r.responses@) == run_session(event_views(events@)).responses,
        r.end == run_session(event_views(events@)).end,
{
    let ghost all = event_views(events@);
    let mut responses: Vec<ServerMessage> = Vec::new();
    let mut i: usize = 0;
    while i < events.len()
        invariant
            i <= events@.len(),
            all == event_views(events@),
            response_views(responses@) == run_session(all.take(i as int)).responses,
            run_session(all.take(i as int)).end is Open,
        decreases events@.len() - i,
    {
        proof {
            assert(all.take(i + 1).drop_last() =~= all.take(i as int));
            assert(all.take(i + 1).last() == events@[i as int]@);
        }
        let act = handle_event(&events[i]);
        i = i + 1;
        match act {
            HandlerAction::Respond(m) => {
                proof {
                    assert(response_views(responses@.push(m)) =~= response_views(responses@).push(
                        m@,
                    ));
                }
                responses.push(m);
            },
            HandlerAction::Retry => {},
            HandlerAction::Close => {
                proof {
                    lemma_session_stays_ended(all, i as int);
                }
                return SessionResult { responses, end: SessionEnd::Closed };
            },
            HandlerAction::Fail(e) => {
                proof {
                    lemma_session_stays_ended(all, i as int);
                }
                return SessionResult { responses, end: SessionEnd::Failed(e) };
            },
        }
    }
    proof {
        assert(all.take(events@.len() as int) =~= all);
    }
    SessionResult { responses, end: SessionEnd::Open }
}

/// Once a session has ended, the rest of the trace changes nothing: the
/// responses and the ending after the whole trace are those at the moment it
/// ended.
pub proof fn lemma_session_stays_ended(evs: Seq<ReadEventView>, i: int)
    requires
        0 <= i <= evs.len(),
        !(run_session(evs.take(i)).end is Open),
    ensures
        run_session(evs) == run_session(evs.take(i)),
    decreases evs.len() - i,
{
    if i == evs.len() {
        assert(evs.take(i) =~= evs);
    } else {
        assert(evs.take(i + 1).drop_last() =~= evs.take(i));
        assert(run_session(evs.take(i + 1)) == run_session(evs.take(i)));
        lemma_session_stays_ended(evs, i + 1);
    }
}

/// Exactly one response is produced per successfully decoded request — the
/// one `dispatch_spec` owes it — and no other event produces any.
pub proof fn lemma_one_response_per_request(s: SessionTrace, ev: ReadEventView)
    requires
        s.end is Open,
    ensures
        ev matches ReadEventView::Received(DecodeOutcomeView::Request(m)) ==> session_step(
            s,
            ev,
        ).responses == s.responses.push(dispatch_spec(m)),
        !(ev matches ReadEventView::Received(DecodeOutcomeView::Request(_))) ==> session_step(
            s,
            ev,
        ).responses == s.responses,
{
}

/// A clean close (zero bytes read) or a peer reset ends a still-open session
/// cleanly and writes nothing: the responses are exactly those already
/// produced.
pub proof fn lemma_clean_close(s: SessionTrace, ev: ReadEventView)
    requires
        s.end is Open,
        ev is Closed || ev is Reset,
    ensures
        session_step(s, ev) == (SessionTrace { responses: s.responses, end: SessionEnd::Closed }),
{
}

/// A session's responses are a function of its own events alone, and a
/// session whose single event is one decoded addition answers with exactly
/// that addition's sum: two connections each carrying one request receive
/// responses matching only their own operands, since the handlers share no
/// state.
pub proof fn lemma_own_request_own_response(a: i32, b: i32)
    ensures
        run_session(
            seq![ReadEventView::Received(DecodeOutcomeView::Request(ClientMsgView::Add { a, b }))],
        ).responses == seq![
            ServerMsgView::Add { result: vstd::wrapping::i32_specs::wrapping_add(a, b) },
        ],
{
    let ev = ReadEventView::Received(DecodeOutcomeView::Request(ClientMsgView::Add { a, b }));
    let evs = seq![ev];
    assert(evs.drop_last() =~= Seq::<ReadEventView>::empty());
    assert(run_session(evs.drop_last()) == session_init());
    let m = ServerMsgView::Add { result: vstd::wrapping::i32_specs::wrapping_add(a, b) };
    assert(step_spec(ev) == HandlerActionView::Respond(m));
    assert(session_init().responses.push(m) =~= seq![m]);
}

} // verus!
