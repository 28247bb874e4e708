//! The type-erased routing table and the dispatch service that owns it.
//!
//! The table maps a request type's identity — a runtime type token — to a
//! `Route`: either a resolved handler reference, or a shareable pending
//! computation that will produce one. All insertion and lookup funnel
//! through entry points parameterized by the request type, so a stored
//! entry for a type is always a route for exactly that type; there is no
//! raw "get by token" path that could skip the type parameter.
//!
//! All table mutation is serialized through one logical owner (the
//! dispatch service of the caller's execution context); the operations
//! here are that owner's message handlers, taken one at a time.

use std::collections::HashMap;
use vstd::prelude::*;

use crate::codec::WirePayload;
use crate::error::RouterError;
use crate::error::SoarError;

verus! {

broadcast use vstd::std_specs::hash::group_hash_axioms;

/// The request contract: a routable message type. It must cross the wire
/// under either codec strategy, carry an associated response type that does
/// the same, and name its own identity — the token under which its route is
/// stored and recovered.
pub trait SoarMessage: WirePayload {
    /// The response a handler of this request returns.
    type Response: WirePayload;

    /// The identity of the request type. There is exactly one route per
    /// token per routing table, and distinct routable types carry distinct
    /// tokens.
    spec fn token() -> u64;

    /// The runtime value of the type's token.
    fn type_token() -> (t: u64)
        ensures
            t == Self::token();
}

/// An opaque, clonable, type-narrowed address: the reference a route
/// resolves to. It accepts only requests whose type carries `token`, and is
/// backed by some handler unit — local or remote — that the owning
/// execution context addresses by `id`.
#[derive(Clone, Copy, Debug, PartialEq, Eq, Structural)]
pub struct HandlerRef {
    /// The address of the backing handler unit within the substrate.
    pub id: u64,
    /// The token of the one request type this address accepts.
    pub token: u64,
}

/// A shareable pending computation: a single-assignment, multi-observer
/// cell. It starts empty, is completed exactly once with the handler
/// reference the computation produced, and any number of waiters each read
/// their own copy of the completed value without re-running the producer.
#[derive(Clone, Copy, Debug)]
pub struct PendingCell {
    /// The token of the request type the computed handler will accept.
    pub token: u64,
    /// The resolved handler reference, once the computation completes.
    pub value: Option<HandlerRef>,
}

/// A routing-table entry: a resolved handler reference, or the name of the
/// shareable pending computation that will produce one.
#[derive(Clone, Copy, Debug, PartialEq, Eq, Structural)]
pub enum Route {
    /// The handler is still being constructed; the field names the pending
    /// cell every waiter attaches to.
    Pending(u64),
    /// The route is resolved to this handler reference.
    Done(HandlerRef),
}

/// What a lookup observes for a token.
#[derive(Clone, Copy, Debug, PartialEq, Eq, Structural)]
pub enum Lookup {
    /// No entry: the lookup fails immediately with the no-route condition.
    NoRoute,
    /// A handler reference is available now — either the entry is `Done`,
    /// or its pending computation has already completed and the waiter
    /// receives a copy of the resolved value.
    Ready(HandlerRef),
    /// The entry is pending and unresolved: the caller attaches to the
    /// named cell and suspends until it completes.
    Wait(u64),
}

/// A route entry is well-formed for its key: a resolved reference accepts
/// exactly the key's type, and a pending entry names a cell for the key's
/// type.
pub open spec fn route_wf(r: Route, t: u64, cells: Map<u64, PendingCell>) -> bool {
    match r {
        Route::Done(h) => h.token == t,
        Route::Pending(p) => cells.dom().contains(p) && cells[p].token == t,
    }
}

/// A pending cell only ever resolves to a reference for its own type.
pub open spec fn cell_wf(c: PendingCell) -> bool {
    match c.value {
        Some(h) => h.token == c.token,
        None => true,
    }
}

/// The cell named by `p` exists and has not resolved yet: completing it is
/// still possible.
pub open spec fn resolvable(cells: Map<u64, PendingCell>, p: u64) -> bool {
    cells.dom().contains(p) && cells[p].value is None
}

/// What a lookup returns, as a function of the table's contents alone.
pub open spec fn lookup_spec(routes: Map<u64, Route>, cells: Map<u64, PendingCell>, t: u64) -> Lookup {
    if routes.dom().contains(t) {
        match routes[t] {
            Route::Done(h) => Lookup::Ready(h),
            Route::Pending(p) => if cells.dom().contains(p) {
                match cells[p].value {
                    Some(h) => Lookup::Ready(h),
                    None => Lookup::Wait(p),
                }
            } else {
                Lookup::Wait(p)
            },
        }
    } else {
        Lookup::NoRoute
    }
}

/// Updating one route entry with a route that is well-formed for its key
/// keeps the whole table well-formed, as long as the cells are untouched.
proof fn lemma_wf_route_inserted(pre: Router, post: Router, t: u64, r: Route)
    requires
        pre.wf(),
        post.cells_map() == pre.cells_map(),
        post.cell_bound() == pre.cell_bound(),
        post.routes_map() == pre.routes_map().insert(t, r),
        route_wf(r, t, pre.cells_map()),
    ensures
        post.wf(),
{
    assert forall|t2: u64| #[trigger] post.routes_map().dom().contains(t2) implies route_wf(
        post.routes_map()[t2],
        t2,
        post.cells_map(),
    ) by {
        if t2 != t {
            assert(pre.routes_map().dom().contains(t2));
            assert(post.routes_map()[t2] == pre.routes_map()[t2]);
        }
    }
    assert forall|p: u64| #[trigger] post.cells_map().dom().contains(p) implies cell_wf(
        post.cells_map()[p],
    ) && p < post.cell_bound() by {
        assert(pre.cells_map().dom().contains(p));
    }
}

/// Removing a route entry keeps the table well-formed.
proof fn lemma_wf_route_removed(pre: Router, post: Router, t: u64)
    requires
        pre.wf(),
        post.cells_map() == pre.cells_map(),
        post.cell_bound() == pre.cell_bound(),
        post.routes_map() == pre.routes_map().remove(t),
    ensures
        post.wf(),
{
    assert forall|t2: u64| #[trigger] post.routes_map().dom().contains(t2) implies route_wf(
        post.routes_map()[t2],
        t2,
        post.cells_map(),
    ) by {
        assert(pre.routes_map().dom().contains(t2));
        assert(post.routes_map()[t2] == pre.routes_map()[t2]);
    }
    assert forall|p: u64| #[trigger] post.cells_map().dom().contains(p) implies cell_wf(
        post.cells_map()[p],
    ) && p < post.cell_bound() by {
        assert(pre.cells_map().dom().contains(p));
    }
}

/// A lookup from request-type tokens to routes. The table is owned by one
/// dispatch service per execution context and mutated only through these
/// typed operations, which keep every entry a route for exactly its key's
/// type.
pub struct Router {
    routes: HashMap<u64, Route>,
    cells: HashMap<u64, PendingCell>,
    next_cell: u64,
}

impl Router {
    /// The routing table's contents: request-type token to route.
    pub closed spec fn routes_map(self) -> Map<u64, Route> {
        self.routes@
    }

    /// The pending cells, by the name routes refer to them by. A cell is
    /// never dropped: a waiter that cloned a pending computation keeps its
    /// attachment even after the table entry is overwritten or removed.
    pub closed spec fn cells_map(self) -> Map<u64, PendingCell> {
        self.cells@
    }

    /// Every cell name handed out so far lies below this bound.
    pub closed spec fn cell_bound(self) -> u64 {
        self.next_cell
    }

    /// Well-formedness: the type-erasure safety invariant. Every entry is a
    /// route for exactly its key's type, every cell resolves only to a
    /// reference for its own type, and cell names are never reused.
    pub open spec fn wf(self) -> bool {
        &&& forall|t: u64| #[trigger]
            self.routes_map().dom().contains(t) ==> route_wf(
                self.routes_map()[t],
                t,
                self.cells_map(),
            )
        &&& forall|p: u64| #[trigger]
            self.cells_map().dom().contains(p) ==> cell_wf(self.cells_map()[p]) && p
                < self.cell_bound()
    }

    /// Create a new router with an empty table.
    pub fn new() -> (r: Router)
        ensures
            r.wf(),
            r.routes_map() == Map::<u64, Route>::empty(),
            r.cells_map() == Map::<u64, PendingCell>::empty(),
            r.cell_bound() == 0,
    {
        Router { routes: HashMap::new(), cells: HashMap::new(), next_cell: 0 }
    }

    /// Add this handler reference into the routing table as the resolved
    /// route for `M`, unconditionally overwriting any prior entry. Waiters
    /// on an overwritten pending entry are unaffected: the cell they attach
    /// to stays, and still resolves to its original target.
    pub fn insert_handler<M: SoarMessage>(&mut self, handler: HandlerRef)
        requires
            old(self).wf(),
            handler.token == M::token(),
        ensures
            final(self).wf(),
            final(self).routes_map() == old(self).routes_map().insert(
                M::token(),
                Route::Done(handler),
            ),
            final(self).cells_map() == old(self).cells_map(),
            final(self).cell_bound() == old(self).cell_bound(),
    {
        let t = M::type_token();
        self.routes.insert(t, Route::Done(handler));
        proof {
            lemma_wf_route_inserted(*old(self), *self, M::token(), Route::Done(handler));
        }
    }

    /// Delete the route for `M` from the routing table. Subsequent lookups
    /// for `M` fail with the no-route condition until a new entry is
    /// inserted.
    pub fn remove_handler<M: SoarMessage>(&mut self)
        requires
            old(self).wf(),
        ensures
            final(self).wf(),
            final(self).routes_map() == old(self).routes_map().remove(M::token()),
            final(self).cells_map() == old(self).cells_map(),
            final(self).cell_bound() == old(self).cell_bound(),
    {
        let t = M::type_token();
        self.routes.remove(&t);
        proof {
            lemma_wf_route_removed(*old(self), *self, M::token());
        }
    }

    /// Store a pending route for `M`: a fresh single-assignment cell that
    /// the one scheduled construction task will complete. Returns the
    /// cell's name; freshness of the name is what makes the construction
    /// run exactly once, however many callers later attach to it.
    pub fn insert_pending<M: SoarMessage>(&mut self) -> (p: u64)
        requires
            old(self).wf(),
            old(self).cell_bound() < u64::MAX,
        ensures
            final(self).wf(),
            !old(self).cells_map().dom().contains(p),
            final(self).routes_map() == old(self).routes_map().insert(
                M::token(),
                Route::Pending(p),
            ),
            final(self).cells_map() == old(self).cells_map().insert(
                p,
                (PendingCell { token: M::token(), value: None }),
            ),
            final(self).cell_bound() == old(self).cell_bound() + 1,
    {
        let p = self.next_cell;
        self.next_cell = self.next_cell + 1;
        let t = M::type_token();
        self.cells.insert(p, PendingCell { token: t, value: None });
        self.routes.insert(t, Route::Pending(p));
        proof {
            let r0 = old(self).routes_map();
            let c0 = old(self).cells_map();
            let r1 = self.routes_map();
            let c1 = self.cells_map();
            if c0.dom().contains(p as u64) {
                assert(p < old(self).cell_bound());
            }
            assert forall|t2: u64| #[trigger] r1.dom().contains(t2) implies route_wf(
                r1[t2],
                t2,
                c1,
            ) by {
                if t2 != M::token() {
                    assert(r0.dom().contains(t2));
                    assert(r1[t2] == r0[t2]);
                    if let Route::Pending(q) = r0[t2] {
                        assert(c0.dom().contains(q));
                        assert(q != p);
                        assert(c1[q] == c0[q]);
                    }
                }
            }
            assert forall|p2: u64| #[trigger] c1.dom().contains(p2) implies cell_wf(c1[p2]) && p2
                < self.cell_bound() by {
                if p2 != p {
                    assert(c0.dom().contains(p2));
                }
            }
        }
        p
    }

    /// The completion of the construction task behind cell `p`: record the
    /// resolved reference in the cell — exactly once — and promote the
    /// entry for the cell's type to `Done` holding it.
    pub fn resolve_pending(&mut self, p: u64, handler: HandlerRef)
        requires
            old(self).wf(),
            resolvable(old(self).cells_map(), p),
            handler.token == old(self).cells_map()[p].token,
        ensures
            final(self).wf(),
            final(self).cells_map() == old(self).cells_map().insert(
                p,
                (PendingCell { token: old(self).cells_map()[p].token, value: Some(handler) }),
            ),
            final(self).routes_map() == old(self).routes_map().insert(
                old(self).cells_map()[p].token,
                Route::Done(handler),
            ),
            final(self).cell_bound() == old(self).cell_bound(),
    {
        let cell = *self.cells.get(&p).unwrap();
        let t = cell.token;
        self.cells.insert(p, PendingCell { token: t, value: Some(handler) });
        self.routes.insert(t, Route::Done(handler));
        proof {
            let r0 = old(self).routes_map();
            let c0 = old(self).cells_map();
            let r1 = self.routes_map();
            let c1 = self.cells_map();
            assert forall|t2: u64| #[trigger] r1.dom().contains(t2) implies route_wf(
                r1[t2],
                t2,
                c1,
            ) by {
                if t2 != c0[p].token {
                    assert(r0.dom().contains(t2));
                    assert(r1[t2] == r0[t2]);
                    if let Route::Pending(q) = r0[t2] {
                        assert(c0.dom().contains(q));
                        if q == p {
                            assert(c1[q].token == c0[q].token);
                        } else {
                            assert(c1[q] == c0[q]);
                        }
                    }
                }
            }
            assert forall|p2: u64| #[trigger] c1.dom().contains(p2) implies cell_wf(c1[p2]) && p2
                < self.cell_bound() by {
                if p2 != p {
                    assert(c0.dom().contains(p2));
                } else {
                    assert(c0.dom().contains(p2));
                }
            }
        }
    }

    /// Observe the cell named `p`. Every observer reads the same state:
    /// `None` while the construction runs (or after it failed — a failed
    /// computation never settles, and its route stays pending), and a copy
    /// of the one resolved reference after it completed.
    pub fn poll_pending(&self, p: u64) -> (r: Option<HandlerRef>)
        ensures
            r == if self.cells_map().dom().contains(p) {
                self.cells_map()[p].value
            } else {
                None::<HandlerRef>
            },
    {
        match self.cells.get(&p) {
            Some(c) => c.value,
            None => None,
        }
    }

    /// The name the next pending cell will get; every name handed out so
    /// far lies below it.
    pub fn next_cell_name(&self) -> (r: u64)
        ensures
            r == self.cell_bound(),
    {
        self.next_cell
    }

    /// Get the handler identified by the type parameter `M`. Fails with
    /// no-route when no entry exists; hands out the resolved reference when
    /// the entry is done or its pending computation already completed; and
    /// otherwise names the cell the caller must wait on. A reference this
    /// returns accepts exactly `M`: the stored entry can never be of a
    /// mismatched type.
    pub fn get_recipient<M: SoarMessage>(&self) -> (r: Lookup)
        requires
            self.wf(),
        ensures
            r == lookup_spec(self.routes_map(), self.cells_map(), M::token()),
            r matches Lookup::Ready(h) ==> h.token == M::token(),
    {
        let t = M::type_token();
        match self.routes.get(&t) {
            None => Lookup::NoRoute,
            Some(route) => match *route {
                Route::Done(h) => Lookup::Ready(h),
                Route::Pending(p) => match self.cells.get(&p) {
                    Some(c) => match c.value {
                        Some(h) => Lookup::Ready(h),
                        None => Lookup::Wait(p),
                    },
                    None => Lookup::Wait(p),
                },
            },
        }
    }
}

/// The asynchronous result of dispatching a request: what must happen next
/// for the caller to receive its `M::Response`. The owning context either
/// failed the call, forwards the request to a resolved reference, or parks
/// the caller on a pending cell.
#[derive(Debug, PartialEq, Eq)]
pub enum SoarResponse<M: SoarMessage> {
    /// The dispatch failed; the error is surfaced to the caller of `send`.
    Failed(SoarError),
    /// Forward the request to this resolved handler reference and await its
    /// response.
    Forwarded(HandlerRef, M),
    /// Park the caller on this pending cell; when it resolves, forward the
    /// request to the resolved reference.
    Awaiting(u64, M),
}

/// What a dispatch returns, as a function of the table's contents and the
/// request alone. A missing route fails with the routing error that wraps
/// the no-route condition; nothing here waits, retries or recovers.
pub open spec fn dispatch_spec<M: SoarMessage>(
    routes: Map<u64, Route>,
    cells: Map<u64, PendingCell>,
    msg: M,
) -> SoarResponse<M> {
    match lookup_spec(routes, cells, M::token()) {
        Lookup::NoRoute => SoarResponse::Failed(SoarError::Routing(RouterError {})),
        Lookup::Ready(h) => SoarResponse::Forwarded(h, msg),
        Lookup::Wait(p) => SoarResponse::Awaiting(p, msg),
    }
}

impl Router {
    /// The default behavior when the dispatch service receives a request of
    /// type `M` from outside: look the route up and forward the request to
    /// its resolved handler, failing the call when no route exists.
    pub fn handle<M: SoarMessage>(&self, msg: M) -> (r: SoarResponse<M>)
        requires
            self.wf(),
        ensures
            r == dispatch_spec(self.routes_map(), self.cells_map(), msg),
            r matches SoarResponse::Forwarded(h, m) ==> h.token == M::token() && m == msg,
    {
        match self.get_recipient::<M>() {
            Lookup::NoRoute => SoarResponse::Failed(SoarError::Routing(RouterError::default())),
            Lookup::Ready(h) => SoarResponse::Forwarded(h, msg),
            Lookup::Wait(p) => SoarResponse::Awaiting(p, msg),
        }
    }
}

/// Register this handler reference as handling the request type `M` with
/// the given dispatch service. Fire-and-forget: nothing is surfaced to the
/// caller.
pub fn add_route<M: SoarMessage>(router: &mut Router, handler: HandlerRef)
    requires
        old(router).wf(),
        handler.token == M::token(),
    ensures
        final(router).wf(),
        final(router).routes_map() == old(router).routes_map().insert(
            M::token(),
            Route::Done(handler),
        ),
        final(router).cells_map() == old(router).cells_map(),
        final(router).cell_bound() == old(router).cell_bound(),
{
    router.insert_handler::<M>(handler);
}

/// Send a request through the given dispatch service: the sole public entry
/// point for issuing a request through the routing core. Looks up the route
/// registered with `add_route` et al. and forwards the request.
pub fn send<M: SoarMessage>(router: &Router, msg: M) -> (r: SoarResponse<M>)
    requires
        router.wf(),
    ensures
        r == dispatch_spec(router.routes_map(), router.cells_map(), msg),
{
    router.handle(msg)
}

impl Default for Router {
    fn default() -> (r: Router)
        ensures
            r.wf(),
            r.routes_map() == Map::<u64, Route>::empty(),
            r.cells_map() == Map::<u64, PendingCell>::empty(),
            r.cell_bound() == 0,
    {
        Router::new()
    }
}

/// For every request type with no registered route, a send fails with the
/// no-route error — and does so immediately, never blocking the caller.
pub proof fn lemma_send_without_route_fails<M: SoarMessage>(
    routes: Map<u64, Route>,
    cells: Map<u64, PendingCell>,
    msg: M,
)
    requires
        !routes.dom().contains(M::token()),
    ensures
        dispatch_spec(routes, cells, msg) == SoarResponse::<M>::Failed(
            SoarError::Routing(RouterError {}),
        ),
{
}

/// Registering a handler reference for a type twice: the second
/// registration replaces the first, and subsequent sends are routed only to
/// the second.
pub proof fn lemma_second_registration_wins<M: SoarMessage>(
    routes: Map<u64, Route>,
    cells: Map<u64, PendingCell>,
    first: HandlerRef,
    second: HandlerRef,
    msg: M,
)
    ensures
        dispatch_spec(
            routes.insert(M::token(), Route::Done(first)).insert(M::token(), Route::Done(second)),
            cells,
            msg,
        ) == SoarResponse::<M>::Forwarded(second, msg),
{
}

/// Concurrent sends issued while a route is pending all attach to the same
/// cell, so every caller observes the identical resolution: any two lookups
/// of routes that name the same cell agree.
pub proof fn lemma_pending_observers_agree(
    routes: Map<u64, Route>,
    cells: Map<u64, PendingCell>,
    t1: u64,
    t2: u64,
    p: u64,
)
    requires
        routes.dom().contains(t1) && routes[t1] == Route::Pending(p),
        routes.dom().contains(t2) && routes[t2] == Route::Pending(p),
    ensures
        lookup_spec(routes, cells, t1) == lookup_spec(routes, cells, t2),
{
}

/// The construction behind a pending route runs exactly once: resolving a
/// cell consumes its one assignment, so no later step can resolve it again
/// — every waiter receives the one value it settled on.
pub proof fn lemma_resolution_is_single_assignment(
    cells: Map<u64, PendingCell>,
    p: u64,
    handler: HandlerRef,
)
    requires
        cells.dom().contains(p),
    ensures
        !resolvable(
            cells.insert(p, (PendingCell { token: cells[p].token, value: Some(handler) })),
            p,
        ),
{
}

/// Promotion is durable: after a pending route resolves, the entry for its
/// type is `Done` holding the resolved reference, and a fresh lookup
/// returns it immediately without re-entering the pending path.
pub proof fn lemma_promotion_is_durable(
    routes: Map<u64, Route>,
    cells: Map<u64, PendingCell>,
    p: u64,
    handler: HandlerRef,
)
    requires
        cells.dom().contains(p),
    ensures
        ({
            let t = cells[p].token;
            let routes2 = routes.insert(t, Route::Done(handler));
            let cells2 = cells.insert(
                p,
                (PendingCell { token: t, value: Some(handler) }),
            );
            routes2[t] == Route::Done(handler) && lookup_spec(routes2, cells2, t)
                == Lookup::Ready(handler)
        }),
{
}

/// Removing the route for a type causes subsequent sends of that type to
/// fail with the no-route error, even if they previously succeeded.
pub proof fn lemma_remove_then_send_fails<M: SoarMessage>(
    routes: Map<u64, Route>,
    cells: Map<u64, PendingCell>,
    msg: M,
)
    ensures
        dispatch_spec(routes.remove(M::token()), cells, msg) == SoarResponse::<M>::Failed(
            SoarError::Routing(RouterError {}),
        ),
{
}

} // verus!
