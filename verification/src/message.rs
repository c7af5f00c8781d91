//! The message schema and the dispatch rule: which response answers which
//! request.
//!
//! The wire schema has two request kinds, addition and echo, and two response
//! kinds. The codec (an external collaborator) turns bytes into these values;
//! here they are plain data, and `dispatch` is the verified rule that maps a
//! decoded request to the response written back on the same connection.
//! Addition is 32-bit and wraps on overflow; the result is the exact sum
//! whenever that sum fits in an `i32`.

use vstd::prelude::*;

verus! {

/// Request that the server add the two operands.
#[derive(Debug, Clone, Copy, PartialEq, Eq, Structural)]
pub struct AddRequest {
    pub a: i32,
    pub b: i32,
}

/// Response carrying the (wrapping) 32-bit sum of an `AddRequest`.
#[derive(Debug, Clone, Copy, PartialEq, Eq, Structural)]
pub struct AddResponse {
    pub result: i32,
}

/// A message to be echoed back unchanged.
#[derive(Debug, PartialEq, Eq)]
pub struct EchoMessage {
    pub content: String,
}

/// Envelope for the two request kinds a client may send.
#[derive(Debug, PartialEq, Eq)]
pub enum ClientMessage {
    AddRequest(AddRequest),
    EchoMessage(EchoMessage),
}

/// Envelope for the two response kinds the server may write back.
#[derive(Debug, PartialEq, Eq)]
pub enum ServerMessage {
    AddResponse(AddResponse),
    EchoMessage(EchoMessage),
}

/// Mathematical model of a request: operands as machine integers, text as a
/// sequence of characters.
pub enum ClientMsgView {
    Add { a: i32, b: i32 },
    Echo { content: Seq<char> },
}

/// Mathematical model of a response.
pub enum ServerMsgView {
    Add { result: i32 },
    Echo { content: Seq<char> },
}

impl View for ClientMessage {
    type V = ClientMsgView;

    open spec fn view(&self) -> ClientMsgView {
        match *self {
            ClientMessage::AddRequest(r) => ClientMsgView::Add { a: r.a, b: r.b },
            ClientMessage::EchoMessage(e) => ClientMsgView::Echo { content: e.content@ },
        }
    }
}

impl View for ServerMessage {
    type V = ServerMsgView;

    open spec fn view(&self) -> ServerMsgView {
        match *self {
            ServerMessage::AddResponse(r) => ServerMsgView::Add { result: r.result },
            ServerMessage::EchoMessage(e) => ServerMsgView::Echo { content: e.content@ },
        }
    }
}

/// The response owed to a request: the wrapping 32-bit sum for an addition,
/// the identical content for an echo.
pub open spec fn dispatch_spec(req: ClientMsgView) -> ServerMsgView {
    match req {
        ClientMsgView::Add { a, b } => ServerMsgView::Add {
            result: vstd::wrapping::i32_specs::wrapping_add(a, b),
        },
        ClientMsgView::Echo { content } => ServerMsgView::Echo { content },
    }
}

/// Compute the response for one decoded request.
pub fn dispatch(req: &ClientMessage) -> (resp: ServerMessage)
    ensures
        resp@ == dispatch_spec(req@),
{
    match req {
        ClientMessage::AddRequest(r) => ServerMessage::AddResponse(
            AddResponse { result: r.a.wrapping_add(r.b) },
        ),
        ClientMessage::EchoMessage(e) => ServerMessage::EchoMessage(
            EchoMessage { content: e.content.clone() },
        ),
    }
}

/// An addition whose exact sum fits in an `i32` is answered by exactly that
/// sum: no wrapping, no rounding. (When the sum overflows, the response
/// wraps; `a == i32::MAX, b == 1` is such an input.)
pub proof fn lemma_add_exact(a: i32, b: i32)
    requires
        i32::MIN <= a + b <= i32::MAX,
    ensures
        dispatch_spec(ClientMsgView::Add { a, b }) == (ServerMsgView::Add {
            result: (a + b) as i32,
        }),
{
}

/// An echo request is answered by its own content, character for character.
pub proof fn lemma_echo_unchanged(content: Seq<char>)
    ensures
        dispatch_spec(ClientMsgView::Echo { content }) == (ServerMsgView::Echo { content }),
{
}

} // verus!
