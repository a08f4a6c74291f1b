//! Rendering of outcomes into a status, a body and the fixed set of
//! response headers.
use vstd::prelude::*;
use crate::ident::uuid_text_of;
use crate::query::{status_code, Status};
use crate::user::{joined_summaries, summary_of, NewUser, User};

verus! {

pub const X_CUSTOM_ID: &'static str = "X-CUSTOM-ID";

pub const X_USER_ID: &'static str = "X-USER-ID";

pub const X_TRACE_ID: &'static str = "X-TRACE-ID";

pub open spec fn plain_text_type() -> Seq<char> {
    "text/plain; charset=utf-8"@
}

pub open spec fn custom_tag() -> Seq<char> {
    "CUSTOM"@
}

pub open spec fn collection_tag() -> Seq<char> {
    "USERS"@
}

/// A response: its status, body and headers. `custom_id` is the
/// `X-CUSTOM-ID` header, present on every response; `user_id` and
/// `trace_id` are `X-USER-ID` and `X-TRACE-ID`, when set.
#[derive(Debug, Clone, PartialEq, Eq)]
pub struct Reply {
    pub status: Status,
    pub content_type: String,
    pub custom_id: String,
    pub user_id: Option<String>,
    pub trace_id: Option<String>,
    pub body: String,
}

impl Reply {
    /// The numeric status code.
    pub fn code(&self) -> (r: u16)
        ensures
            r == status_code(self.status),
    {
        self.status.code()
    }
}

/// The base of every response: plain text, tagged `CUSTOM`, success, no
/// body.
pub fn default_response() -> (r: Reply)
    ensures
        r.status == Status::Success,
        r.content_type@ == plain_text_type(),
        r.custom_id@ == custom_tag(),
        r.user_id is None,
        r.trace_id is None,
        r.body@.len() == 0,
{
    Reply {
        status: Status::Success,
        content_type: String::from_str("text/plain; charset=utf-8"),
        custom_id: String::from_str("CUSTOM"),
        user_id: None,
        trace_id: None,
        body: String::new(),
    }
}

impl User {
    /// The single-record response: `Found user: <summary>`, with the user's
    /// identifier in `X-USER-ID` and the default `CUSTOM` tag.
    pub fn respond_to(&self) -> (r: Reply)
        ensures
            r.status == Status::Success,
            r.content_type@ == plain_text_type(),
            r.custom_id@ == custom_tag(),
            r.user_id matches Some(id) && id@ == uuid_text_of(self.uuid.value),
            r.trace_id is None,
            r.body@ == "Found user: "@ + summary_of(*self),
    {
        let mut reply = default_response();
        let mut body = String::from_str("Found user: ");
        let summary = self.summary();
        body.append(summary.as_str());
        reply.body = body;
        reply.user_id = Some(self.uuid.to_text());
        reply
    }
}

impl NewUser {
    /// The collection response: the comma-joined summaries, tagged `USERS`.
    pub fn respond_to(&self) -> (r: Reply)
        ensures
            r.status == Status::Success,
            r.content_type@ == plain_text_type(),
            r.custom_id@ == collection_tag(),
            r.user_id is None,
            r.trace_id is None,
            r.body@ == joined_summaries(self.0@),
    {
        let mut reply = default_response();
        reply.body = self.summaries();
        reply.custom_id = String::from_str("USERS");
        reply
    }
}

/// The text of a "not found" response for the requested path.
pub fn not_found(uri: &str) -> (r: String)
    ensures
        r@ == "We cannot find this page "@ + uri@ + "."@,
{
    let mut s = String::from_str("We cannot find this page ");
    s.append(uri);
    s.append(".");
    s
}

/// The text of a "forbidden" response for the requested path.
pub fn forbidden(uri: &str) -> (r: String)
    ensures
        r@ == "Access forbidden "@ + uri@ + "."@,
{
    let mut s = String::from_str("Access forbidden ");
    s.append(uri);
    s.append(".");
    s
}

/// The body of the health check.
pub fn healthz() -> (r: String)
    ensures
        r@ == "Ok"@,
{
    String::from_str("Ok")
}

/// The body of a failed request's response: a message naming the path for
/// "not found" and "forbidden", empty otherwise.
pub open spec fn failure_body(status: Status, uri: Seq<char>, body: Seq<char>) -> bool {
    if status == Status::NotFound {
        body == "We cannot find this page "@ + uri + "."@
    } else if status == Status::Forbidden {
        body == "Access forbidden "@ + uri + "."@
    } else {
        body.len() == 0
    }
}

/// The response for a failed request: the default headers with the error
/// status; "not found" and "forbidden" carry a message naming the path.
pub fn failure_response(status: Status, uri: &str) -> (r: Reply)
    ensures
        r.status == status,
        r.content_type@ == plain_text_type(),
        r.custom_id@ == custom_tag(),
        r.user_id is None,
        r.trace_id is None,
        failure_body(status, uri@, r.body@),
{
    let mut reply = default_response();
    reply.status = status;
    match status {
        Status::NotFound => {
            reply.body = not_found(uri);
        },
        Status::Forbidden => {
            reply.body = forbidden(uri);
        },
        _ => {},
    }
    reply
}

/// The response to a point lookup's outcome.
pub fn respond_user(outcome: &Result<User, Status>, uri: &str) -> (r: Reply)
    ensures
        match outcome {
            Ok(u) => {
                &&& r.status == Status::Success
                &&& r.custom_id@ == custom_tag()
                &&& r.user_id matches Some(id) && id@ == uuid_text_of(u.uuid.value)
                &&& r.body@ == "Found user: "@ + summary_of(*u)
            },
            Err(s) => {
                &&& r.status == *s
                &&& r.custom_id@ == custom_tag()
                &&& r.user_id is None
                &&& failure_body(*s, uri@, r.body@)
            },
        },
        r.content_type@ == plain_text_type(),
        r.trace_id is None,
{
    match outcome {
        Ok(u) => u.respond_to(),
        Err(s) => failure_response(*s, uri),
    }
}

/// The response to a collection search's outcome.
pub fn respond_users(outcome: &Result<NewUser, Status>, uri: &str) -> (r: Reply)
    ensures
        match outcome {
            Ok(n) => r.status == Status::Success && r.custom_id@ == collection_tag() && r.body@
                == joined_summaries(n.0@),
            Err(s) => {
                &&& r.status == *s
                &&& r.custom_id@ == custom_tag()
                &&& failure_body(*s, uri@, r.body@)
            },
        },
        r.content_type@ == plain_text_type(),
        r.user_id is None,
        r.trace_id is None,
{
    match outcome {
        Ok(n) => n.respond_to(),
        Err(s) => failure_response(*s, uri),
    }
}

} // verus!
