//! What goes out, what comes back, and a scripted transport for tests.
//!
//! Sending itself is the caller's (see the application's transport); what is
//! here is the plain data of one attempt and a [`Mock`] that answers from a
//! script, so the retry behaviour can be exercised without a socket.

use vstd::prelude::*;

use crate::error::Error;
use crate::headers::{applied, Headers, Value};
use crate::text::owned;

verus! {

/// The methods this API uses.
#[derive(Debug, Clone, Copy, PartialEq, Eq, Structural)]
pub enum Method {
    /// Retrieval, with no body.
    Get,
    /// Submission, with a JSON body.
    Post,
}

/// The method's name on the wire.
pub open spec fn method_name(m: Method) -> Seq<char> {
    match m {
        Method::Get => "GET"@,
        Method::Post => "POST"@,
    }
}

impl Method {
    /// The method name as it appears on the wire and in logs.
    pub fn name(self) -> (r: &'static str)
        ensures
            r@ == method_name(self),
    {
        match self {
            Method::Get => "GET",
            Method::Post => "POST",
        }
    }
}

/// One attempt at one request.
#[derive(Debug)]
pub struct Request {
    /// The method.
    pub method: Method,
    /// The absolute URL.
    pub url: String,
    /// Every header, already merged and with the SDK's own applied last.
    pub headers: Headers,
    /// The serialised body, when there is one.
    pub body: Option<String>,
    /// How long this attempt may take, including reading the body.
    pub timeout_ms: u64,
}

/// Two requests carry the same method, URL, headers, body and timeout.
pub open spec fn same_request(a: Request, b: Request) -> bool {
    &&& a.method == b.method
    &&& a.url@ == b.url@
    &&& a.headers@ == b.headers@
    &&& a.body == b.body
    &&& a.timeout_ms == b.timeout_ms
}

impl Request {
    /// A copy of this request.
    pub fn duplicate(&self) -> (r: Request)
        ensures
            same_request(r, *self),
    {
        Request {
            method: self.method,
            url: self.url.clone(),
            headers: self.headers.duplicate(),
            body: match &self.body {
                Some(b) => Some(b.clone()),
                None => None,
            },
            timeout_ms: self.timeout_ms,
        }
    }
}

/// A response, with its body already read.
#[derive(Debug)]
pub struct RawResponse {
    /// The HTTP status.
    pub status: u16,
    /// The response headers.
    pub headers: Headers,
    /// The body as text, empty when there was none.
    pub body: String,
}

/// Whether a status is in the 2xx range.
pub open spec fn success(status: u16) -> bool {
    200 <= status < 300
}

impl RawResponse {
    /// Whether the status is in the 2xx range.
    pub fn is_success(&self) -> (r: bool)
        ensures
            r == success(self.status),
    {
        self.status >= 200 && self.status < 300
    }
}

/// One scripted answer.
#[derive(Debug)]
pub enum Exchange {
    /// Answer with this status and body.
    Respond {
        /// The status to answer with.
        status: u16,
        /// The body to answer with.
        body: String,
        /// Headers to answer with.
        headers: Headers,
    },
    /// Fail the attempt without a response.
    Fail(Error),
}

impl Exchange {
    /// A successful answer with this body.
    pub fn ok(body: &str) -> (r: Exchange)
        ensures
            r matches Exchange::Respond { status, body: b, headers }
                && status == 200 && b@ == body@ && headers@.len() == 0,
    {
        Exchange::status(200, body)
    }

    /// An answer with a given status.
    pub fn status(status: u16, body: &str) -> (r: Exchange)
        ensures
            r matches Exchange::Respond { status: s, body: b, headers }
                && s == status && b@ == body@ && headers@.len() == 0,
    {
        Exchange::Respond { status, body: owned(body), headers: Headers::new() }
    }

    /// An answer carrying one more header, such as `Retry-After`; a failure
    /// is left as it is.
    pub fn with_header(self, name: &str, value: &str) -> (r: Exchange)
        ensures
            match self {
                Exchange::Respond { status, body, headers } => r matches Exchange::Respond {
                    status: s,
                    body: b,
                    headers: h,
                } && s == status && b == body && h@ == applied(headers@, name@, Some(value@)),
                Exchange::Fail(e) => r == Exchange::Fail(e),
            },
    {
        match self {
            Exchange::Respond { status, body, headers } => Exchange::Respond {
                status,
                body,
                headers: headers.with(name, Value::of(value)),
            },
            Exchange::Fail(e) => Exchange::Fail(e),
        }
    }
}

/// What a scripted answer becomes when it is given.
pub open spec fn answer_of(x: Exchange) -> Result<RawResponse, Error> {
    match x {
        Exchange::Respond { status, body, headers } => Ok(RawResponse { status, headers, body }),
        Exchange::Fail(e) => Err(e),
    }
}

/// The message a mock that has run out of answers fails with.
pub open spec fn exhausted_message() -> Seq<char> {
    "the mock transport ran out of answers"@
}

/// A transport answering a fixed script, in order, and recording every
/// request it was sent.
pub struct Mock {
    /// The answers not yet given, last answer first.
    script: Vec<Exchange>,
    seen: Vec<Request>,
}

impl Mock {
    /// The answers not yet given, in the order they will be given.
    pub closed spec fn pending(&self) -> Seq<Exchange> {
        self.script@.reverse()
    }

    /// Every request sent so far, in order.
    pub closed spec fn history(&self) -> Seq<Request> {
        self.seen@
    }

    /// How many requests have been sent so far.
    pub open spec fn sent(&self) -> nat {
        self.history().len()
    }

    /// Builds a transport answering `script`, oldest first.
    pub fn new(script: Vec<Exchange>) -> (r: Mock)
        ensures
            r.pending() == script@,
            r.history().len() == 0,
    {
        let ghost original = script@;
        let mut rest = script;
        let mut reversed: Vec<Exchange> = Vec::new();
        while rest.len() > 0
            invariant
                original == rest@ + reversed@.reverse(),
            decreases rest.len(),
        {
            let ghost before = rest@;
            let ghost prior = reversed@;
            let x = rest.pop().unwrap();
            reversed.push(x);
            assert(reversed@.reverse() =~= seq![x] + prior.reverse());
            assert(before =~= rest@.push(x));
            assert(original =~= rest@ + reversed@.reverse());
        }
        assert(reversed@.reverse() =~= original);
        Mock { script: reversed, seen: Vec::new() }
    }

    /// How many attempts were made.
    pub fn attempts(&self) -> (r: usize)
        ensures
            r == self.sent(),
    {
        self.seen.len()
    }

    /// Every request that was attempted, in order.
    pub fn requests(&self) -> (r: Vec<Request>)
        ensures
            r@.len() == self.sent(),
            forall|i: int| 0 <= i < r@.len() ==> same_request(#[trigger] r@[i], self.history()[i]),
    {
        let mut out: Vec<Request> = Vec::new();
        let mut i: usize = 0;
        while i < self.seen.len()
            invariant
                i <= self.seen.len(),
                out@.len() == i,
                forall|j: int| 0 <= j < i ==> same_request(#[trigger] out@[j], self.seen@[j]),
            decreases self.seen.len() - i,
        {
            out.push(self.seen[i].duplicate());
            i = i + 1;
        }
        out
    }

    /// Performs one attempt: records `request` and gives the next answer, or
    /// fails once the script is spent.
    pub fn send(&mut self, request: Request) -> (r: Result<RawResponse, Error>)
        ensures
            final(self).history() == old(self).history().push(request),
            old(self).pending().len() > 0 ==> r == answer_of(old(self).pending()[0])
                && final(self).pending() == old(self).pending().drop_first(),
            old(self).pending().len() == 0 ==> (r matches Err(Error::Invalid(m)) && m@ == exhausted_message()),
            old(self).pending().len() == 0 ==> final(self).pending().len() == 0,
    {
        self.seen.push(request);
        match self.script.pop() {
            Some(Exchange::Respond { status, body, headers }) => Ok(RawResponse { status, headers, body }),
            Some(Exchange::Fail(e)) => Err(e),
            None => Err(Error::invalid("the mock transport ran out of answers")),
        }
    }
}

} // verus!
