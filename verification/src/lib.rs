//! A location-transparent message-dispatch core.
//!
//! Callers send a typed request value and receive a typed response, without
//! knowing whether the request is served by an in-process handler or by a
//! remote service reached over HTTP. The routing table maps a request type's
//! identity to a handler reference, including routes whose handler is still
//! being constructed; the wire codec and the remote transport handler make a
//! remote destination look like a local one.

pub mod channel;
pub mod codec;
pub mod error;
pub mod router;
pub mod test_helpers;
