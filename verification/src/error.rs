//! The failures of the client, and how a reply with a failure status is
//! turned into one.

use crate::exchange::Endpoint;
use crate::headers::{header_entries, header_text, read_header, text_of};
use crate::numeric::{decimal_text, format_amount};
use reqwest::header::HeaderMap;
use vstd::prelude::*;
use vstd::string::*;

verus! {

/// The configured values that become header values, and so can be unfit.
#[derive(Debug, Clone, Copy, PartialEq, Eq, Structural)]
pub enum ConfiguredHeader {
    Authorization,
    IntegratorAccount,
    YellowstoneEndpoint,
    YellowstoneToken,
}

/// What kind of failure a status stands for.
#[derive(Debug, Clone, Copy, PartialEq, Eq, Structural)]
pub enum ErrorCategory {
    /// 400: the request was malformed.
    MalformedInput,
    /// 401: the credential was missing or wrong.
    BadCredential,
    /// 403: access was denied, or a rate limit was hit.
    AccessDenied,
    /// 404: no such route or resource.
    UnknownRoute,
    /// 429: too many requests.
    RateLimited,
    /// 500, 502, 503: the service or something behind it failed.
    UpstreamFailure,
    /// Any other status.
    GenericHttp,
}

/// A failure that the aggregator reported.
///
/// `retry_after` is what a rate-limited reply said in its `retry-after`
/// header; `None` means that it did not say, or that the failure was of
/// another kind. The three fields after it are diagnostic headers of the
/// reply, each `None` where the reply did not carry it.
#[derive(Debug, Clone)]
pub struct RemoteApiError {
    pub endpoint: Endpoint,
    pub category: ErrorCategory,
    pub status: u16,
    pub body: String,
    pub retry_after: Option<String>,
    pub api_type: Option<String>,
    pub request_id: Option<String>,
    pub rate_limit_remaining: Option<String>,
    pub message: String,
}

/// The fields of a quote that are numbers written as text.
#[derive(Debug, Clone, Copy, PartialEq, Eq, Structural)]
pub enum AmountField {
    InAmount,
    OutAmount,
    PriceImpact,
}

/// A reply that did not have the shape it must have.
#[derive(Debug, Clone)]
pub enum DecodeError {
    /// The payload could not be decoded; `reason` says why, `payload` is
    /// the body as it came.
    Payload { reason: String, payload: String },
    /// A quote came without a single hop.
    EmptyRoute,
    /// The shares of a quote's hops do not add up to one hundred.
    RoutePercentages,
}

/// Every way in which the client fails.
#[derive(Debug, Clone)]
pub enum JupiterError {
    /// A configured value cannot be sent as a header.
    Configuration(ConfiguredHeader),
    /// The aggregator answered with a failure status.
    RemoteApi(RemoteApiError),
    /// The aggregator's answer did not have the expected shape.
    Decode(DecodeError),
    /// A number written as text could not be read; `text` is what stood there.
    MalformedAmount { field: AmountField, text: String },
}

impl ConfiguredHeader {
    /// The name of the header that the value is sent under.
    pub open spec fn name_text(self) -> Seq<char> {
        match self {
            ConfiguredHeader::Authorization => "authorization"@,
            ConfiguredHeader::IntegratorAccount => "x-integrator-account"@,
            ConfiguredHeader::YellowstoneEndpoint => "x-yellowstone-endpoint"@,
            ConfiguredHeader::YellowstoneToken => "x-yellowstone-token"@,
        }
    }

    /// The name of the header that the value is sent under.
    pub fn name(&self) -> (r: &'static str)
        ensures
            r@ == self.name_text(),
    {
        match self {
            ConfiguredHeader::Authorization => "authorization",
            ConfiguredHeader::IntegratorAccount => "x-integrator-account",
            ConfiguredHeader::YellowstoneEndpoint => "x-yellowstone-endpoint",
            ConfiguredHeader::YellowstoneToken => "x-yellowstone-token",
        }
    }
}

impl AmountField {
    /// The name of the field.
    pub open spec fn name_text(self) -> Seq<char> {
        match self {
            AmountField::InAmount => "in_amount"@,
            AmountField::OutAmount => "out_amount"@,
            AmountField::PriceImpact => "price_impact_pct"@,
        }
    }

    /// The name of the field.
    pub fn name(&self) -> (r: &'static str)
        ensures
            r@ == self.name_text(),
    {
        match self {
            AmountField::InAmount => "in_amount",
            AmountField::OutAmount => "out_amount",
            AmountField::PriceImpact => "price_impact_pct",
        }
    }
}

impl JupiterError {
    /// The text that `to_string` gives for this failure.
    pub open spec fn message(self) -> Seq<char> {
        match self {
            JupiterError::Configuration(header) => "Configuration error: the value of header "@
                + header.name_text() + " is not printable text"@,
            JupiterError::RemoteApi(e) => e.endpoint.failure_text() + e.message@,
            JupiterError::Decode(DecodeError::Payload { reason, payload }) => "Decode error: "@
                + reason@,
            JupiterError::Decode(DecodeError::EmptyRoute) => "Decode error: the quote has no route"@,
            JupiterError::Decode(DecodeError::RoutePercentages) =>
                "Decode error: the shares of the route do not add up to 100"@,
            JupiterError::MalformedAmount { field, text } => "Malformed amount in "@
                + field.name_text() + ": "@ + text@,
        }
    }

    /// Describes the failure in words.
    pub fn to_string(&self) -> (r: String)
        ensures
            r@ == self.message(),
    {
        match self {
            JupiterError::Configuration(header) => framed(
                "Configuration error: the value of header ",
                header.name(),
                " is not printable text",
            ),
            JupiterError::RemoteApi(e) => {
                let mut r = e.endpoint.failure_prefix().to_owned();
                r.append(e.message.as_str());
                r
            },
            JupiterError::Decode(DecodeError::Payload { reason, payload }) => {
                let mut r = "Decode error: ".to_owned();
                r.append(reason.as_str());
                r
            },
            JupiterError::Decode(DecodeError::EmptyRoute) =>
                "Decode error: the quote has no route".to_owned(),
            JupiterError::Decode(DecodeError::RoutePercentages) =>
                "Decode error: the shares of the route do not add up to 100".to_owned(),
            JupiterError::MalformedAmount { field, text } => {
                let mut r = framed("Malformed amount in ", field.name(), ": ");
                r.append(text.as_str());
                r
            },
        }
    }
}

/// The reason phrase that the transport library has for a status code, if
/// it has one: a fixed table from codes to phrases.
pub uninterp spec fn canonical_reason(code: u16) -> Option<Seq<char>>;

/// `StatusCode::canonical_reason` of the status made by
/// `StatusCode::from_u16`: the reason phrase that the library has for the
/// code, and none for a number that is no status code. It depends on the
/// code alone.
#[verifier::external_body]
fn status_reason(code: u16) -> (r: Option<String>)
    ensures
        text_of(r) == canonical_reason(code),
{
    match reqwest::StatusCode::from_u16(code) {
        Ok(status) => status.canonical_reason().map(String::from),
        Err(_) => None,
    }
}

/// The kind of failure that a status stands for.
pub open spec fn category_of(status: u16) -> ErrorCategory {
    if status == 400 {
        ErrorCategory::MalformedInput
    } else if status == 401 {
        ErrorCategory::BadCredential
    } else if status == 403 {
        ErrorCategory::AccessDenied
    } else if status == 404 {
        ErrorCategory::UnknownRoute
    } else if status == 429 {
        ErrorCategory::RateLimited
    } else if status == 500 || status == 502 || status == 503 {
        ErrorCategory::UpstreamFailure
    } else {
        ErrorCategory::GenericHttp
    }
}

/// `text`, or `fallback` where there is none.
pub open spec fn text_or(text: Option<Seq<char>>, fallback: Seq<char>) -> Seq<char> {
    match text {
        Some(t) => t,
        None => fallback,
    }
}

/// What a failure says in words. `retry_after` is used for status 429 only,
/// `reason` for the statuses without a category of their own.
pub open spec fn error_message(
    status: u16,
    body: Seq<char>,
    retry_after: Option<Seq<char>>,
    reason: Option<Seq<char>>,
) -> Seq<char> {
    if status == 400 {
        "Bad Request (400): "@ + body + ". Check your input parameters."@
    } else if status == 401 {
        "Unauthorized (401): "@ + body + ". Check your API key and permissions."@
    } else if status == 403 {
        "Forbidden (403): "@ + body + ". API access denied or rate limited."@
    } else if status == 404 {
        "Not Found (404): "@ + body + ". Endpoint or resource not found."@
    } else if status == 429 {
        "Rate Limited (429): "@ + body + ". Retry after "@ + text_or(retry_after, "unknown"@)
            + " seconds."@
    } else if status == 500 {
        "Internal Server Error (500): "@ + body + ". Jupiter API server error."@
    } else if status == 502 {
        "Bad Gateway (502): "@ + body + ". Upstream server error."@
    } else if status == 503 {
        "Service Unavailable (503): "@ + body + ". Jupiter API temporarily unavailable."@
    } else {
        "HTTP "@ + decimal_text(status as nat) + " "@ + text_or(reason, "<unknown status code>"@)
            + ": "@ + body
    }
}

/// What a reply says about when to try again: its `retry-after` header if
/// it was rate-limited and carried one as text.
pub open spec fn retry_after_of(status: u16, headers: Map<Seq<char>, Seq<u8>>) -> Option<
    Seq<char>,
> {
    if status == 429 {
        header_text(headers, "retry-after"@)
    } else {
        None
    }
}

fn framed(before: &str, body: &str, after: &str) -> (r: String)
    ensures
        r@ == before@ + body@ + after@,
{
    let mut r = before.to_owned();
    r.append(body);
    r.append(after);
    r
}

fn compose_message(
    status: u16,
    body: &str,
    retry_after: &Option<String>,
    reason: &Option<String>,
) -> (r: String)
    ensures
        r@ == error_message(status, body@, text_of(*retry_after), text_of(*reason)),
{
    if status == 400 {
        framed("Bad Request (400): ", body, ". Check your input parameters.")
    } else if status == 401 {
        framed("Unauthorized (401): ", body, ". Check your API key and permissions.")
    } else if status == 403 {
        framed("Forbidden (403): ", body, ". API access denied or rate limited.")
    } else if status == 404 {
        framed("Not Found (404): ", body, ". Endpoint or resource not found.")
    } else if status == 429 {
        let mut r = framed("Rate Limited (429): ", body, ". Retry after ");
        match retry_after {
            Some(t) => r.append(t.as_str()),
            None => r.append("unknown"),
        }
        r.append(" seconds.");
        r
    } else if status == 500 {
        framed("Internal Server Error (500): ", body, ". Jupiter API server error.")
    } else if status == 502 {
        framed("Bad Gateway (502): ", body, ". Upstream server error.")
    } else if status == 503 {
        framed("Service Unavailable (503): ", body, ". Jupiter API temporarily unavailable.")
    } else {
        let mut r = "HTTP ".to_owned();
        let code = format_amount(status as u64);
        r.append(code.as_str());
        r.append(" ");
        match reason {
            Some(t) => r.append(t.as_str()),
            None => r.append("<unknown status code>"),
        }
        r.append(": ");
        r.append(body);
        r
    }
}

impl RemoteApiError {
    /// True when `self` is the failure that a reply with this status, body
    /// and headers stands for, `reason` being the reason phrase of the status.
    pub open spec fn describes(
        self,
        endpoint: Endpoint,
        status: u16,
        body: String,
        headers: Map<Seq<char>, Seq<u8>>,
        reason: Option<Seq<char>>,
    ) -> bool {
        &&& self.endpoint == endpoint
        &&& self.category == category_of(status)
        &&& self.status == status
        &&& self.body == body
        &&& text_of(self.retry_after) == retry_after_of(status, headers)
        &&& text_of(self.api_type) == header_text(headers, "x-api-type"@)
        &&& text_of(self.request_id) == header_text(headers, "x-request-id"@)
        &&& text_of(self.rate_limit_remaining) == header_text(headers, "x-rate-limit-remaining"@)
        &&& self.message@ == error_message(
            status,
            body@,
            retry_after_of(status, headers),
            reason,
        )
    }

    /// Makes the failure that a status and a body stand for, out of what
    /// was read from the reply's headers and the reason phrase of the status.
    ///
    /// `retry_after` is kept for status 429 and dropped for any other.
    pub fn new(
        endpoint: Endpoint,
        status: u16,
        body: String,
        retry_after: Option<String>,
        api_type: Option<String>,
        request_id: Option<String>,
        rate_limit_remaining: Option<String>,
        reason: Option<String>,
    ) -> (e: RemoteApiError)
        ensures
            e.endpoint == endpoint,
            e.category == category_of(status),
            e.status == status,
            e.body == body,
            e.retry_after == (if status == 429 {
                retry_after
            } else {
                None
            }),
            e.api_type == api_type,
            e.request_id == request_id,
            e.rate_limit_remaining == rate_limit_remaining,
            e.message@ == error_message(status, body@, text_of(e.retry_after), text_of(reason)),
    {
        let category = if status == 400 {
            ErrorCategory::MalformedInput
        } else if status == 401 {
            ErrorCategory::BadCredential
        } else if status == 403 {
            ErrorCategory::AccessDenied
        } else if status == 404 {
            ErrorCategory::UnknownRoute
        } else if status == 429 {
            ErrorCategory::RateLimited
        } else if status == 500 || status == 502 || status == 503 {
            ErrorCategory::UpstreamFailure
        } else {
            ErrorCategory::GenericHttp
        };
        let retry_after = if status == 429 {
            retry_after
        } else {
            None
        };
        let message = compose_message(status, body.as_str(), &retry_after, &reason);
        RemoteApiError {
            endpoint,
            category,
            status,
            body,
            retry_after,
            api_type,
            request_id,
            rate_limit_remaining,
            message,
        }
    }
}

/// Classifies a reply with a failure status: reads the headers that say
/// more about the failure and makes the failure out of them.
pub fn classify_response(endpoint: Endpoint, status: u16, headers: &HeaderMap, body: String) -> (e:
    RemoteApiError)
    ensures
        e.describes(endpoint, status, body, header_entries(*headers), canonical_reason(status)),
{
    let retry_after = read_header(headers, "retry-after");
    let api_type = read_header(headers, "x-api-type");
    let request_id = read_header(headers, "x-request-id");
    let rate_limit_remaining = read_header(headers, "x-rate-limit-remaining");
    let reason = status_reason(status);
    RemoteApiError::new(
        endpoint,
        status,
        body,
        retry_after,
        api_type,
        request_id,
        rate_limit_remaining,
        reason,
    )
}

} // verus!
