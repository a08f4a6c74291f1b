//! The per-request hooks that run around every handler, in registration
//! order: visitor counting and trace-id injection before it, trace-id
//! propagation after it; and the table of mounted routes.
use vstd::prelude::*;
use std::sync::atomic::{AtomicU64, Ordering};
use crate::ident::{is_v4, lemma_v4_text, uuid_text_of, UserId};
use crate::response::Reply;

verus! {

/// Counts the requests seen since start-up. It is shared by all requests
/// and only ever incremented, atomically.
pub struct VisitorCounter {
    visitor: AtomicU64,
}

impl VisitorCounter {
    /// A counter that has seen no request.
    pub fn new() -> (r: VisitorCounter) {
        VisitorCounter { visitor: AtomicU64::new(0) }
    }

    /// Records one more request and returns the count it brought the
    /// counter to. Other requests may increment concurrently, so nothing is
    /// known here of the value.
    pub fn increment_counter(&self) -> (r: u64) {
        let before = self.visitor.fetch_add(1, Ordering::Relaxed);
        before.wrapping_add(1)
    }

    /// The number of requests recorded so far.
    pub fn visits(&self) -> (r: u64) {
        self.visitor.load(Ordering::Relaxed)
    }
}

pub open spec fn opt_view(o: Option<String>) -> Option<Seq<char>> {
    match o {
        Some(s) => Some(s@),
        None => None,
    }
}

/// The request's trace id after injection: the injected token, whatever
/// was there before.
pub open spec fn injected_trace(before: Option<Seq<char>>, token: Seq<char>) -> Option<
    Seq<char>,
> {
    Some(token)
}

/// The response's trace id after propagation from the request's: the
/// request's, overwriting whatever the handler set.
pub open spec fn propagated_trace(request: Option<Seq<char>>, handler_set: Option<Seq<char>>) -> Option<Seq<char>> {
    match request {
        Some(t) => Some(t),
        None => handler_set,
    }
}

/// The trace id that a response carries is the one injected into its
/// request: never absent and never another, whatever the request held
/// before and whatever the handler set on the response.
pub proof fn lemma_trace_round_trip(
    request_before: Option<Seq<char>>,
    token: Seq<char>,
    handler_set: Option<Seq<char>>,
)
    ensures
        propagated_trace(injected_trace(request_before, token), handler_set) == Some(token),
{
}

/// The per-request state that hooks read and write.
#[derive(Debug, Clone, PartialEq, Eq)]
pub struct RequestContext {
    /// The request's `X-TRACE-ID` header.
    pub trace_id: Option<String>,
}

/// Injects a trace id into every request and copies it onto its response.
#[derive(Debug, Clone, Copy, PartialEq, Eq, Structural)]
pub struct XTraceId;

impl XTraceId {
    /// A fresh token: the hyphenated text of a random version-4 identifier,
    /// so 36 characters with `4` at index 14.
    pub fn fresh_token() -> (r: String)
        ensures
            exists|v: u128| r@ == #[trigger] uuid_text_of(v) && is_v4(v),
            r@.len() == 36,
            r@[14] == '4',
    {
        let id = UserId::random();
        proof {
            lemma_v4_text(id.value);
        }
        id.to_text()
    }

    /// Attaches `token` as the request's trace id, replacing any other.
    pub fn inject(ctx: &mut RequestContext, token: String)
        ensures
            opt_view(final(ctx).trace_id) == injected_trace(opt_view(old(ctx).trace_id), token@),
    {
        ctx.trace_id = Some(token);
    }

    /// Runs on request arrival: attaches a fresh token to the request.
    pub fn on_request(ctx: &mut RequestContext)
        ensures
            final(ctx).trace_id matches Some(t) && (exists|v: u128|
                t@ == #[trigger] uuid_text_of(v) && is_v4(v)) && t@.len() == 36 && t@[14] == '4',
    {
        let token = Self::fresh_token();
        Self::inject(ctx, token);
    }

    /// Runs as the response leaves: copies the request's trace id onto it,
    /// overwriting any set by the handler. `on_request` ran first, so the
    /// request has one; a request without one is a fatal inconsistency that
    /// the caller reports before any response leaves.
    pub fn on_response(ctx: &RequestContext, reply: &mut Reply)
        requires
            ctx.trace_id is Some,
        ensures
            opt_view(final(reply).trace_id) == propagated_trace(
                opt_view(ctx.trace_id),
                opt_view(old(reply).trace_id),
            ),
            opt_view(final(reply).trace_id) == opt_view(ctx.trace_id),
            final(reply).status == old(reply).status,
            final(reply).body == old(reply).body,
            final(reply).custom_id == old(reply).custom_id,
            final(reply).user_id == old(reply).user_id,
            final(reply).content_type == old(reply).content_type,
    {
        match &ctx.trace_id {
            Some(t) => {
                reply.trace_id = Some(t.clone());
            },
            None => {},
        }
    }
}

/// A mounted route: the base it is mounted at and its path below it.
#[derive(Debug, Clone, PartialEq, Eq)]
pub struct Route {
    pub base: String,
    pub path: String,
}

pub open spec fn route_is(r: Route, base: Seq<char>, path: Seq<char>) -> bool {
    r.base@ == base && r.path@ == path
}

fn route(base: &str, path: &str) -> (r: Route)
    ensures
        route_is(r, base@, path@),
{
    Route { base: base.to_owned(), path: path.to_owned() }
}

/// The routes of the user API: the point lookup and the collection search.
pub fn route_api_v1() -> (r: Vec<Route>)
    ensures
        r@.len() == 2,
        route_is(r@[0], "/user"@, "/<uuid>"@),
        route_is(r@[1], "/users"@, "/<name_grade>?<filters..>"@),
{
    let mut r: Vec<Route> = Vec::new();
    r.push(route("/user", "/<uuid>"));
    r.push(route("/users", "/<name_grade>?<filters..>"));
    r
}

/// Every mounted route: the health check, then the user API.
pub fn rocket() -> (r: Vec<Route>)
    ensures
        r@.len() == 3,
        route_is(r@[0], "/"@, "/health"@),
        route_is(r@[1], "/user"@, "/<uuid>"@),
        route_is(r@[2], "/users"@, "/<name_grade>?<filters..>"@),
{
    let mut r: Vec<Route> = Vec::new();
    r.push(route("/", "/health"));
    let mut api = route_api_v1();
    r.append(&mut api);
    r
}

} // verus!
