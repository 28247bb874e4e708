//! The remote transport handler: makes a remote service appear as a local
//! handler for a request type.
//!
//! An `HttpHandler` wraps a destination URL and a wire codec strategy. One
//! request is handled by encoding the request, issuing an HTTP POST of the
//! encoded payload to the URL, and decoding the response body as the
//! request's response type. The POST itself is the caller's outbound edge;
//! the encoding of the request and the interpretation of the exchange's
//! outcome are here, and hold for every outcome the exchange can have.

use core::marker::PhantomData;
use vstd::prelude::*;

use crate::codec::Codec;
use crate::codec::WirePayload;
use crate::error::SoarError;
use crate::router::SoarMessage;

verus! {

/// A destination URL is carried opaquely: the library stores it and hands
/// it back to the caller that performs the exchange.
#[verifier::external_type_specification]
#[verifier::external_body]
pub struct ExUrl(url::Url);

/// The observable outcome of one HTTP exchange, as the caller that
/// performed the POST hands it back.
#[derive(Debug)]
pub enum TransportOutcome {
    /// The exchange completed with a success status; the field is the
    /// response body.
    Delivered(Vec<u8>),
    /// A connection failure, a timeout, or a non-success status.
    Failed,
}

/// The `HttpHandler` wraps a `Url` and behaves as a handler for the request
/// type `M`: it can be registered like any local handler, and the fact that
/// the actual handler is remote is opaque to the application.
pub struct HttpHandler<M: SoarMessage> {
    /// The destination the encoded request is POSTed to.
    pub url: url::Url,
    /// The wire codec strategy configured for this route.
    pub codec: Codec,
    /// Ties the handler to the one request type it accepts.
    pub marker: PhantomData<M>,
}

impl<M: SoarMessage> vstd::std_specs::convert::FromSpecImpl<url::Url> for HttpHandler<M> {
    open spec fn obeys_from_spec() -> bool {
        true
    }

    open spec fn from_spec(other: url::Url) -> Self {
        HttpHandler { url: other, codec: Codec::Json, marker: PhantomData }
    }
}

impl<M: SoarMessage> From<url::Url> for HttpHandler<M> {
    /// Wrap a destination URL alone: the route is configured with the JSON
    /// codec strategy.
    fn from(other: url::Url) -> (r: Self)
        ensures
            r.url == other,
            r.codec == Codec::Json,
    {
        HttpHandler { url: other, codec: Codec::Json, marker: PhantomData }
    }
}

impl<M: SoarMessage> HttpHandler<M> {
    /// Wrap a destination URL with the chosen codec strategy.
    pub fn new(url: url::Url, codec: Codec) -> (r: Self)
        ensures
            r.url == url,
            r.codec == codec,
    {
        HttpHandler { url, codec, marker: PhantomData }
    }

    /// The first step of handling a request: encode it with the configured
    /// wire codec. Only the encoded payload crosses the wire; the request's
    /// type identity is not transmitted.
    pub fn encode_request(&self, msg: &M) -> (b: Vec<u8>)
        ensures
            b@ == msg.enc(self.codec),
    {
        msg.encode(self.codec)
    }

    /// The rest of handling a request, once the encoded payload has been
    /// POSTed and the exchange's outcome observed. A non-success outcome
    /// fails with a transport error — immediately, whatever the cause, so a
    /// handler pointed at an unreachable destination fails rather than
    /// hangs. A delivered body is decoded with the same codec family: the
    /// encoding of any response value decodes to that value, and a decode
    /// failure fails with a serialization error.
    pub fn decode_response(&self, outcome: &TransportOutcome) -> (r: Result<
        M::Response,
        SoarError,
    >)
        ensures
            (outcome matches TransportOutcome::Failed) ==> r == Err::<M::Response, SoarError>(
                SoarError::Transport,
            ),
            (outcome matches TransportOutcome::Delivered(body) ==> {
                &&& (forall|resp: M::Response|
                    body@ == resp.enc(self.codec) ==> r == Ok::<M::Response, SoarError>(resp))
                &&& (r is Err ==> r == Err::<M::Response, SoarError>(SoarError::Serialization))
            }),
    {
        match outcome {
            TransportOutcome::Failed => Err(SoarError::Transport),
            TransportOutcome::Delivered(body) => <M::Response as WirePayload>::decode(
                self.codec,
                body.as_slice(),
            ),
        }
    }
}

} // verus!
