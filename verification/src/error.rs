//! The failure taxonomy of the dispatch core.

use vstd::prelude::*;

verus! {

/// The routing layer's failure: there is no known handler for a given
/// message type.
#[derive(Clone, Copy, Debug, PartialEq, Eq, Structural)]
pub struct RouterError {}

impl Default for RouterError {
    fn default() -> (r: Self)
        ensures
            r == (RouterError {}),
    {
        RouterError {}
    }
}

/// Every failure a `send` can surface to its caller. All failures are
/// terminal for the current call: the core neither retries nor recovers.
#[derive(Clone, Copy, Debug, PartialEq, Eq, Structural)]
pub enum SoarError {
    /// The lookup found no route for the request's type.
    Routing(RouterError),
    /// The remote exchange failed: a connection failure or a non-success
    /// status.
    Transport,
    /// The response body could not be decoded as the expected type.
    Serialization,
}

} // verus!
