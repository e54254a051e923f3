use vstd::prelude::*;
use crate::identity::{AuthMethod, ExtractionError, extract_identity, identity_of, text_view, bytes_view};

verus! {

/// Status sent when no identity could be derived from a request.
pub const BAD_REQUEST: u16 = 400;

/// Status sent when a request is denied.
pub const TOO_MANY_REQUESTS: u16 = 429;

/// The outcome of one rate-limit check.
#[derive(Clone, Copy, Debug, PartialEq, Eq, Structural)]
pub enum Decision {
    Admit,
    Deny,
}

/// What the caller of the store does once the increment has been answered.
#[derive(Clone, Copy, Debug, PartialEq, Eq, Structural)]
pub struct Verdict {
    pub decision: Decision,
    /// The counter was just created: attach the window's expiry to it.
    pub set_expiry: bool,
}

/// The decision for a post-increment counter value `reply`, or for a store
/// that could not be reached (`None`). The limit is inclusive.
pub open spec fn decision_of(limit: int, fail_open: bool, reply: Option<int>) -> Decision {
    match reply {
        Some(count) => if count <= limit { Decision::Admit } else { Decision::Deny },
        None => if fail_open { Decision::Admit } else { Decision::Deny },
    }
}

/// The expiry is attached exactly once: when the increment created the counter.
pub open spec fn expiry_due(reply: Option<int>) -> bool {
    reply == Some(1int)
}

pub open spec fn reply_view(reply: Option<i64>) -> Option<int> {
    match reply {
        Some(c) => Some(c as int),
        None => None,
    }
}

/// The HTTP status that rejects a request, or `None` where the request goes on
/// to the inner handler.
pub open spec fn rejection_of(outcome: Result<Decision, ExtractionError>) -> Option<u16> {
    match outcome {
        Err(_) => Some(BAD_REQUEST),
        Ok(Decision::Deny) => Some(TOO_MANY_REQUESTS),
        Ok(Decision::Admit) => None,
    }
}

/// Maps the outcome of a check to the response the middleware gives.
pub fn rejection_status(outcome: &Result<Decision, ExtractionError>) -> (r: Option<u16>)
    ensures
        r == rejection_of(*outcome),
{
    match outcome {
        Err(_) => Some(BAD_REQUEST),
        Ok(Decision::Deny) => Some(TOO_MANY_REQUESTS),
        Ok(Decision::Admit) => None,
    }
}

/// Limiter configuration: window length in seconds, how callers are
/// identified, the number of requests admitted per window, and what to do
/// when the counter store cannot be reached.
#[derive(Clone, Copy, Debug)]
pub struct RedisLayer {
    pub ttl: i32,
    pub method: AuthMethod,
    pub req_limit: i32,
    pub fail_open: bool,
}

impl RedisLayer {
    /// A configuration that fails closed.
    pub fn new(ttl: i32, method: AuthMethod, req_limit: i32) -> (r: Self)
        ensures
            r.ttl == ttl,
            r.method == method,
            r.req_limit == req_limit,
            !r.fail_open,
    {
        RedisLayer { ttl, method, req_limit, fail_open: false }
    }

    /// The same configuration with the given policy for an unreachable store.
    pub fn with_fail_open(self, fail_open: bool) -> (r: Self)
        ensures
            r.ttl == self.ttl,
            r.method == self.method,
            r.req_limit == self.req_limit,
            r.fail_open == fail_open,
    {
        RedisLayer { fail_open, ..self }
    }

    /// Wraps `inner` in a limiter with this configuration.
    pub fn layer<S>(&self, inner: S) -> (r: RateLimiter<S>)
        ensures
            r.ttl == self.ttl,
            r.method == self.method,
            r.limit == self.req_limit,
            r.fail_open == self.fail_open,
            r.inner == inner,
    {
        RateLimiter { ttl: self.ttl, method: self.method, limit: self.req_limit, fail_open: self.fail_open, inner }
    }
}

/// A handler `inner` guarded by a fixed-window rate limit.
#[derive(Clone, Debug)]
pub struct RateLimiter<S> {
    pub ttl: i32,
    pub method: AuthMethod,
    pub limit: i32,
    pub fail_open: bool,
    pub inner: S,
}

impl<S> RateLimiter<S> {
    /// A limiter that fails closed.
    pub fn new(ttl: i32, method: AuthMethod, limit: i32, inner: S) -> (r: Self)
        ensures
            r.ttl == ttl,
            r.method == method,
            r.limit == limit,
            !r.fail_open,
            r.inner == inner,
    {
        RateLimiter { ttl, method, limit, fail_open: false, inner }
    }

    /// The counter key of a request: its caller's identity.
    pub fn identify(&self, remote: Option<String>, authorization: Option<Vec<u8>>) -> (r: Result<String, ExtractionError>)
        ensures
            r matches Ok(id) ==> identity_of(self.method, text_view(remote), bytes_view(authorization))
                == Ok::<Seq<char>, ExtractionError>(id@),
            r matches Err(e) ==> identity_of(self.method, text_view(remote), bytes_view(authorization))
                == Err::<Seq<char>, ExtractionError>(e),
    {
        extract_identity(self.method, remote, authorization)
    }

    /// Decides a request from the store's answer to the atomic increment of its
    /// counter: the post-increment value, or `None` where the store failed or
    /// timed out.
    pub fn judge(&self, reply: Option<i64>) -> (r: Verdict)
        ensures
            r.decision == decision_of(self.limit as int, self.fail_open, reply_view(reply)),
            r.set_expiry == expiry_due(reply_view(reply)),
    {
        match reply {
            Some(count) => Verdict {
                decision: if count <= self.limit as i64 { Decision::Admit } else { Decision::Deny },
                set_expiry: count == 1,
            },
            None => Verdict {
                decision: if self.fail_open { Decision::Admit } else { Decision::Deny },
                set_expiry: false,
            },
        }
    }
}

} // verus!
