//! Message types and handlers for exercising the dispatch core.

use vstd::prelude::*;

use crate::codec::Codec;
use crate::codec::WirePayload;
use crate::codec::decode_u8_payload;
use crate::codec::decode_unit_payload;
use crate::codec::encode_u8_payload;
use crate::codec::encode_unit_payload;
use crate::codec::u8_payload_bytes;
use crate::codec::unit_payload_bytes;
use crate::error::SoarError;
use crate::router::HandlerRef;
use crate::router::PendingCell;
use crate::router::Route;
use crate::router::Router;
use crate::router::SoarMessage;
use crate::router::SoarResponse;
use crate::router::dispatch_spec;
use crate::router::send;

verus! {

/// A request carrying one byte. The canonical handler for it echoes the
/// byte back in a `TestResponse`.
#[derive(Clone, Copy, Debug, PartialEq, Eq, Structural)]
pub struct TestMessage(pub u8);

/// The response to a `TestMessage`.
#[derive(Clone, Copy, Debug, PartialEq, Eq, Structural)]
pub struct TestResponse(pub u8);

impl WirePayload for TestMessage {
    open spec fn enc(self, c: Codec) -> Seq<u8> {
        u8_payload_bytes(c, self.0)
    }

    fn encode(&self, c: Codec) -> (b: Vec<u8>)
        ensures
            b@ == self.enc(c),
    {
        encode_u8_payload(c, self.0)
    }

    fn decode(c: Codec, b: &[u8]) -> (r: Result<Self, SoarError>)
        ensures
            forall|m: Self| b@ == m.enc(c) ==> r == Ok::<Self, SoarError>(m),
            r is Err ==> r == Err::<Self, SoarError>(SoarError::Serialization),
    {
        let r = match decode_u8_payload(c, b) {
            Some(x) => Ok(TestMessage(x)),
            None => Err(SoarError::Serialization),
        };
        proof {
            assert forall|m: Self| b@ == m.enc(c) implies r == Ok::<Self, SoarError>(m) by {
                assert(b@ == u8_payload_bytes(c, m.0));
            }
        }
        r
    }
}

impl WirePayload for TestResponse {
    open spec fn enc(self, c: Codec) -> Seq<u8> {
        u8_payload_bytes(c, self.0)
    }

    fn encode(&self, c: Codec) -> (b: Vec<u8>)
        ensures
            b@ == self.enc(c),
    {
        encode_u8_payload(c, self.0)
    }

    fn decode(c: Codec, b: &[u8]) -> (r: Result<Self, SoarError>)
        ensures
            forall|m: Self| b@ == m.enc(c) ==> r == Ok::<Self, SoarError>(m),
            r is Err ==> r == Err::<Self, SoarError>(SoarError::Serialization),
    {
        let r = match decode_u8_payload(c, b) {
            Some(x) => Ok(TestResponse(x)),
            None => Err(SoarError::Serialization),
        };
        proof {
            assert forall|m: Self| b@ == m.enc(c) implies r == Ok::<Self, SoarError>(m) by {
                assert(b@ == u8_payload_bytes(c, m.0));
            }
        }
        r
    }
}

impl SoarMessage for TestMessage {
    type Response = TestResponse;

    open spec fn token() -> u64 {
        1
    }

    fn type_token() -> (t: u64)
        ensures
            t == Self::token(),
    {
        1
    }
}

/// A request carrying nothing, answered with nothing.
#[derive(Clone, Copy, Debug, PartialEq, Eq, Structural)]
pub struct TestMessageEmpty;

impl WirePayload for TestMessageEmpty {
    open spec fn enc(self, c: Codec) -> Seq<u8> {
        unit_payload_bytes(c)
    }

    fn encode(&self, c: Codec) -> (b: Vec<u8>)
        ensures
            b@ == self.enc(c),
    {
        encode_unit_payload(c)
    }

    fn decode(c: Codec, b: &[u8]) -> (r: Result<Self, SoarError>)
        ensures
            forall|m: Self| b@ == m.enc(c) ==> r == Ok::<Self, SoarError>(m),
            r is Err ==> r == Err::<Self, SoarError>(SoarError::Serialization),
    {
        match decode_unit_payload(c, b) {
            Some(_) => Ok(TestMessageEmpty),
            None => Err(SoarError::Serialization),
        }
    }
}

impl SoarMessage for TestMessageEmpty {
    type Response = ();

    open spec fn token() -> u64 {
        2
    }

    fn type_token() -> (t: u64)
        ensures
            t == Self::token(),
    {
        2
    }
}

/// The response the echo handler owes to a request: the request's own
/// payload, wrapped as a response.
pub open spec fn expected_response_for(m: TestMessage) -> TestResponse {
    TestResponse(m.0)
}

/// An in-process handler unit that echoes a `TestMessage`'s payload.
#[derive(Default)]
pub struct TestHandler;

impl TestHandler {
    /// Handling a `TestMessage`: answer with the expected response — the
    /// request's own payload.
    pub fn handle(&self, msg: TestMessage) -> (r: TestResponse)
        ensures
            r == expected_response_for(msg),
    {
        TestResponse(msg.0)
    }

    /// Handling a `TestMessageEmpty`: nothing to answer.
    pub fn handle_empty(&self, _msg: TestMessageEmpty) {
    }
}

/// A handler unit that, on an empty request, issues a request of its own
/// through the dispatch core.
#[derive(Default)]
pub struct TestIntoHandler(pub u8);

impl TestIntoHandler {
    /// Handling a `TestMessageEmpty`: send a `TestMessage` through the
    /// given dispatch service and hand the dispatch back to the caller to
    /// drive.
    pub fn handle(&self, _msg: TestMessageEmpty, router: &Router) -> (r: SoarResponse<TestMessage>)
        requires
            router.wf(),
        ensures
            r == dispatch_spec(router.routes_map(), router.cells_map(), TestMessage(42)),
    {
        send(router, TestMessage(42))
    }
}

/// For a request type with a `Done` route to a handler, a send forwards the
/// request to exactly that handler; combined with `TestHandler::handle`'s
/// contract, a send routed to the echo handler answers every request with
/// the expected response for it.
pub proof fn lemma_echo_route_forwards(
    routes: Map<u64, Route>,
    cells: Map<u64, PendingCell>,
    handler: HandlerRef,
    msg: TestMessage,
)
    requires
        routes.dom().contains(TestMessage::token()),
        routes[TestMessage::token()] == Route::Done(handler),
    ensures
        dispatch_spec(routes, cells, msg) == SoarResponse::<TestMessage>::Forwarded(handler, msg),
{
}

} // verus!
