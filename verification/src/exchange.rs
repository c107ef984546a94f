//! One round trip with the aggregator, as plain values: what to send, what
//! came back, and what the reply amounts to.

use crate::error::{classify_response, canonical_reason, DecodeError, JupiterError};
use crate::headers::header_entries;
use reqwest::header::HeaderMap;
use vstd::prelude::*;
use vstd::string::*;

verus! {

/// The two request methods the aggregator is spoken to with.
#[derive(Debug, Clone, Copy, PartialEq, Eq, Structural)]
pub enum HttpMethod {
    Get,
    Post,
}

/// The routes of the aggregator that the client calls.
#[derive(Debug, Clone, Copy, PartialEq, Eq, Structural)]
pub enum Endpoint {
    Quote,
    Swap,
    Tokens,
    Price,
    MetisQuote,
    UltraQuote,
    Health,
    Info,
}

impl Endpoint {
    /// The route below the base URL.
    pub open spec fn path_text(self) -> Seq<char> {
        match self {
            Endpoint::Quote => "/quote"@,
            Endpoint::Swap => "/swap"@,
            Endpoint::Tokens => "/tokens"@,
            Endpoint::Price => "/price"@,
            Endpoint::MetisQuote => "/metis/quote"@,
            Endpoint::UltraQuote => "/ultra/quote"@,
            Endpoint::Health => "/health"@,
            Endpoint::Info => "/info"@,
        }
    }

    /// The method the route is called with: `Post` where the request
    /// travels as a body, `Get` where it travels in the query or not at all.
    pub open spec fn method_of(self) -> HttpMethod {
        match self {
            Endpoint::Swap | Endpoint::MetisQuote | Endpoint::UltraQuote => HttpMethod::Post,
            _ => HttpMethod::Get,
        }
    }

    /// How a failure of this route is introduced in words.
    pub open spec fn failure_text(self) -> Seq<char> {
        match self {
            Endpoint::Quote => "Jupiter quote request failed: "@,
            Endpoint::Swap => "Jupiter swap request failed: "@,
            Endpoint::Tokens => "Jupiter tokens request failed: "@,
            Endpoint::Price => "Jupiter price request failed: "@,
            Endpoint::MetisQuote => "Metis quote request failed: "@,
            Endpoint::UltraQuote => "Ultra quote request failed: "@,
            Endpoint::Health => "Health check failed: "@,
            Endpoint::Info => "API info request failed: "@,
        }
    }

    /// The route below the base URL.
    pub fn path(&self) -> (r: &'static str)
        ensures
            r@ == self.path_text(),
    {
        match self {
            Endpoint::Quote => "/quote",
            Endpoint::Swap => "/swap",
            Endpoint::Tokens => "/tokens",
            Endpoint::Price => "/price",
            Endpoint::MetisQuote => "/metis/quote",
            Endpoint::UltraQuote => "/ultra/quote",
            Endpoint::Health => "/health",
            Endpoint::Info => "/info",
        }
    }

    /// The method the route is called with.
    pub fn method(&self) -> (m: HttpMethod)
        ensures
            m == self.method_of(),
    {
        match self {
            Endpoint::Swap | Endpoint::MetisQuote | Endpoint::UltraQuote => HttpMethod::Post,
            _ => HttpMethod::Get,
        }
    }

    /// How a failure of this route is introduced in words.
    pub fn failure_prefix(&self) -> (r: &'static str)
        ensures
            r@ == self.failure_text(),
    {
        match self {
            Endpoint::Quote => "Jupiter quote request failed: ",
            Endpoint::Swap => "Jupiter swap request failed: ",
            Endpoint::Tokens => "Jupiter tokens request failed: ",
            Endpoint::Price => "Jupiter price request failed: ",
            Endpoint::MetisQuote => "Metis quote request failed: ",
            Endpoint::UltraQuote => "Ultra quote request failed: ",
            Endpoint::Health => "Health check failed: ",
            Endpoint::Info => "API info request failed: ",
        }
    }
}

/// A request ready to be sent: where to, how, and with which query
/// parameters. A request that travels as a body is sent along by the caller.
#[derive(Debug, Clone)]
pub struct HttpRequest {
    pub endpoint: Endpoint,
    pub method: HttpMethod,
    pub url: String,
    pub query: Vec<(String, String)>,
}

/// What came back from one request: the status, the headers, the body as
/// text, and what decoding the body as a `T` gave.
///
/// `decoded` is looked at only when the status is a success, so it may hold
/// anything otherwise.
#[derive(Debug)]
pub struct HttpReply<T> {
    pub status: u16,
    pub headers: HeaderMap,
    pub body: String,
    pub decoded: Result<T, String>,
}

/// The model of a list of query parameters: names and values as text.
pub open spec fn query_model(query: Seq<(String, String)>) -> Seq<(Seq<char>, Seq<char>)> {
    Seq::new(query.len(), |i: int| (query[i].0@, query[i].1@))
}

/// One query parameter, or none where there is no value.
pub open spec fn one_param(name: Seq<char>, value: Option<Seq<char>>) -> Seq<
    (Seq<char>, Seq<char>),
> {
    match value {
        Some(value) => seq![(name, value)],
        None => Seq::empty(),
    }
}

/// The items of a list written one after the other with commas between.
pub open spec fn joined(items: Seq<String>) -> Seq<char>
    decreases items.len(),
{
    if items.len() == 0 {
        Seq::empty()
    } else if items.len() == 1 {
        items[0]@
    } else {
        joined(items.drop_last()) + ","@ + items.last()@
    }
}

/// Writes the items of a list one after the other with commas between.
pub fn join_commas(items: &[String]) -> (r: String)
    ensures
        r@ == joined(items@),
{
    let mut r = String::new();
    let n = items.len();
    let mut i: usize = 0;
    while i < n
        invariant
            i <= n,
            n == items@.len(),
            r@ == joined(items@.subrange(0, i as int)),
        decreases n - i,
    {
        let ghost before = items@.subrange(0, i as int);
        let ghost after = items@.subrange(0, i + 1);
        assert(after.drop_last() =~= before);
        assert(after.last() == items@[i as int]);
        if i > 0 {
            r.append(",");
        }
        r.append(items[i].as_str());
        assert(r@ =~= joined(after));
        i = i + 1;
    }
    assert(items@.subrange(0, n as int) =~= items@);
    r
}

/// Appends a parameter to a list of query parameters.
pub fn push_param(query: &mut Vec<(String, String)>, name: &str, value: String)
    ensures
        query_model(final(query)@) == query_model(old(query)@).push((name@, value@)),
{
    query.push((name.to_owned(), value));
    assert(query_model(query@) =~= query_model(old(query)@).push((name@, value@)));
}

impl<T> HttpReply<T> {
    /// True when `r` is the classified failure that this reply stands for
    /// as a reply of `endpoint`.
    pub open spec fn is_failure<U>(self, endpoint: Endpoint, r: Result<U, JupiterError>) -> bool {
        r matches Err(JupiterError::RemoteApi(e)) && e.describes(
            endpoint,
            self.status,
            self.body,
            header_entries(self.headers),
            canonical_reason(self.status),
        )
    }

    /// True when `r` is the decode error for this reply: the reason why its
    /// payload did not decode, and the body as it came.
    pub open spec fn is_undecodable<U>(self, reason: String, r: Result<U, JupiterError>) -> bool {
        r == Err::<U, JupiterError>(
            JupiterError::Decode(DecodeError::Payload { reason, payload: self.body }),
        )
    }
}

/// True for the statuses that mean success: 200 to 299.
pub open spec fn is_success_status(status: u16) -> bool {
    200 <= status < 300
}

/// Tells whether a status means success.
pub fn is_success(status: u16) -> (ok: bool)
    ensures
        ok == is_success_status(status),
{
    200 <= status && status < 300
}

/// What a reply amounts to: the decoded payload on success, a classified
/// failure on any other status, a decode error where the payload of a
/// success did not have the expected shape.
pub fn settle<T>(endpoint: Endpoint, reply: HttpReply<T>) -> (r: Result<T, JupiterError>)
    ensures
        !is_success_status(reply.status) ==> reply.is_failure(endpoint, r),
        is_success_status(reply.status) ==> (match reply.decoded {
            Ok(payload) => r == Ok::<T, JupiterError>(payload),
            Err(reason) => reply.is_undecodable(reason, r),
        }),
{
    if !is_success(reply.status) {
        return Err(
            JupiterError::RemoteApi(
                classify_response(endpoint, reply.status, &reply.headers, reply.body),
            ),
        );
    }
    match reply.decoded {
        Ok(payload) => Ok(payload),
        Err(reason) => Err(
            JupiterError::Decode(DecodeError::Payload { reason, payload: reply.body }),
        ),
    }
}

} // verus!
