//! The wire codec: descriptors for the three outbound request kinds, the
//! encoders that build them, and the decoder that turns a polled response
//! into a context and an event.

use crate::json::{json_parsed, json_within_depth, spec_error_body};
use crate::types::{
    spec_context_matches, spec_header_err, spec_headers_ok, Context, Diagnostic, HeaderError,
    Headers,
};
use crate::Config;
use vstd::pervasive::unreached;
use vstd::prelude::*;
use vstd::string::*;

verus! {

/// One outbound call to the control endpoint, ready for a transport to
/// send: fetch the next event, or report one invocation's outcome.
#[derive(Debug)]
pub enum RequestDescriptor {
    /// Fetch the next pending invocation; carries no body.
    PollNext,
    /// Report the handler's response for the invocation `request_id`.
    ReportSuccess {
        /// The invocation being answered.
        request_id: String,
        /// The JSON rendering of the handler's response.
        body: String,
    },
    /// Report a handler failure for the invocation `request_id`.
    ReportError {
        /// The invocation being answered.
        request_id: String,
        /// The JSON rendering of the diagnostic.
        body: String,
    },
}

/// Why encoding a report failed.
#[derive(Debug)]
pub struct SerializationError {
    /// What the serializer reported.
    pub message: String,
}

/// Why a polled response could not be turned into an event.
#[derive(Debug)]
pub enum ProtocolError {
    /// The response headers do not describe a valid invocation.
    Header(HeaderError),
    /// The response body is not well-formed JSON.
    Deserialize(String),
}

/// The fixed path polled for the next event.
pub open spec fn spec_next_path() -> Seq<char> {
    "/2018-06-01/runtime/invocation/next"@
}

/// The path a success report for `id` is addressed to.
pub open spec fn spec_success_path(id: Seq<char>) -> Seq<char> {
    "/2018-06-01/runtime/invocation/"@ + id + "/response"@
}

/// The path an error report for `id` is addressed to.
pub open spec fn spec_error_path(id: Seq<char>) -> Seq<char> {
    "/2018-06-01/runtime/invocation/"@ + id + "/error"@
}

impl RequestDescriptor {
    /// The path on the control endpoint this request is addressed to.
    pub fn path(&self) -> (r: String)
        ensures
            self is PollNext ==> r@ == spec_next_path(),
            self is ReportSuccess ==> r@ == spec_success_path(self->ReportSuccess_request_id@),
            self is ReportError ==> r@ == spec_error_path(self->ReportError_request_id@),
    {
        match self {
            RequestDescriptor::PollNext => "/2018-06-01/runtime/invocation/next".to_owned(),
            RequestDescriptor::ReportSuccess { request_id, .. } => {
                let mut p = "/2018-06-01/runtime/invocation/".to_owned();
                p.append(request_id.as_str());
                p.append("/response");
                p
            },
            RequestDescriptor::ReportError { request_id, .. } => {
                let mut p = "/2018-06-01/runtime/invocation/".to_owned();
                p.append(request_id.as_str());
                p.append("/error");
                p
            },
        }
    }

    /// The method the request is sent with: a poll is a read, a report is a
    /// send.
    pub fn method(&self) -> (r: &'static str)
        ensures
            self is PollNext ==> r@ == "GET"@,
            !(self is PollNext) ==> r@ == "POST"@,
    {
        match self {
            RequestDescriptor::PollNext => "GET",
            _ => "POST",
        }
    }

    /// The body the request carries, if any.
    pub fn body(&self) -> (r: Option<&String>)
        ensures
            self is PollNext ==> r is None,
            self is ReportSuccess ==> r == Some(&self->ReportSuccess_body),
            self is ReportError ==> r == Some(&self->ReportError_body),
    {
        match self {
            RequestDescriptor::PollNext => None,
            RequestDescriptor::ReportSuccess { body, .. } => Some(body),
            RequestDescriptor::ReportError { body, .. } => Some(body),
        }
    }
}

/// Describes the read that fetches the next pending invocation.
pub fn encode_poll_next() -> (r: RequestDescriptor)
    ensures
        r == RequestDescriptor::PollNext,
{
    RequestDescriptor::PollNext
}

/// Describes the report of a successful outcome: the payload rendered as
/// JSON, addressed to the success path for `request_id`. Total: the
/// payload always serializes. The body never parses to anything but the
/// payload, and for a payload within the parser's nesting limit it parses
/// back to a value equal to the payload.
pub fn encode_report_success(request_id: &str, payload: &serde_json::Value) -> (r: Result<
    RequestDescriptor,
    SerializationError,
>)
    requires
        request_id@.len() > 0,
    ensures
        r is Ok,
        r is Ok ==> r->Ok_0 is ReportSuccess,
        r is Ok ==> r->Ok_0->ReportSuccess_request_id@ == request_id@,
        r is Ok && json_parsed(r->Ok_0->ReportSuccess_body@) is Some ==> json_parsed(
            r->Ok_0->ReportSuccess_body@,
        ) == Some(*payload),
        r is Ok && json_within_depth(*payload) ==> json_parsed(r->Ok_0->ReportSuccess_body@)
            == Some(*payload),
{
    match crate::json::value_to_json(payload) {
        Ok(body) => Ok(
            RequestDescriptor::ReportSuccess { request_id: request_id.to_owned(), body },
        ),
        Err(message) => Err(SerializationError { message }),
    }
}

/// Describes the report of a handler failure: the diagnostic rendered as
/// the JSON object `{"errorMessage":…,"errorType":…}`, addressed to the
/// error path for `request_id`. Total: encoding a diagnostic never fails.
pub fn encode_report_error(request_id: &str, diagnostic: &Diagnostic) -> (r: Result<
    RequestDescriptor,
    SerializationError,
>)
    requires
        request_id@.len() > 0,
    ensures
        r is Ok,
        r is Ok ==> r->Ok_0 is ReportError,
        r is Ok ==> r->Ok_0->ReportError_request_id@ == request_id@,
        r is Ok ==> r->Ok_0->ReportError_body@ == spec_error_body(
            diagnostic.error_message@,
            diagnostic.error_type@,
        ),
{
    let body = crate::json::error_body(
        diagnostic.error_message.as_str(),
        diagnostic.error_type.as_str(),
    );
    Ok(RequestDescriptor::ReportError { request_id: request_id.to_owned(), body })
}

/// Builds the one report that answers an invocation's outcome: a success
/// report carrying the payload rendered as JSON for `Ok`, an error report
/// carrying the diagnostic object for `Err`, either way addressed with
/// `request_id`. Never fails.
pub fn report_for(request_id: &str, outcome: Result<serde_json::Value, Diagnostic>) -> (r:
    RequestDescriptor)
    requires
        request_id@.len() > 0,
    ensures
        outcome is Ok ==> r is ReportSuccess,
        outcome is Ok ==> r->ReportSuccess_request_id@ == request_id@,
        outcome is Ok && json_parsed(r->ReportSuccess_body@) is Some ==> json_parsed(
            r->ReportSuccess_body@,
        ) == Some(outcome->Ok_0),
        outcome is Ok && json_within_depth(outcome->Ok_0) ==> json_parsed(r->ReportSuccess_body@)
            == Some(outcome->Ok_0),
        outcome is Err ==> r is ReportError,
        outcome is Err ==> r->ReportError_request_id@ == request_id@,
        outcome is Err ==> r->ReportError_body@ == spec_error_body(
            outcome->Err_0.error_message@,
            outcome->Err_0.error_type@,
        ),
{
    match outcome {
        Ok(v) => match encode_report_success(request_id, &v) {
            Ok(r) => r,
            Err(_) => unreached(),
        },
        Err(d) => match encode_report_error(request_id, &d) {
            Ok(r) => r,
            Err(_) => unreached(),
        },
    }
}

/// `e` is an error that decoding may report for these headers and this
/// body: the exact header error where the headers are at fault, and a
/// deserialization error only where the headers are fine and the body is
/// not JSON.
pub open spec fn spec_decode_err_matches(e: ProtocolError, h: Headers, body: Seq<char>) -> bool {
    match e {
        ProtocolError::Header(he) => Some(he) == spec_header_err(h),
        ProtocolError::Deserialize(_) => spec_headers_ok(h) && json_parsed(body) is None,
    }
}

/// Decodes one polled response: builds the execution context from the
/// headers and `config`, and parses the body as the event payload.
/// Succeeds exactly when the headers are valid and the body is well-formed
/// JSON.
pub fn decode_event(headers: &Headers, body: &str, config: Config) -> (r: Result<
    (Context, serde_json::Value),
    ProtocolError,
>)
    ensures
        r is Ok <==> spec_headers_ok(*headers) && json_parsed(body@) is Some,
        r is Ok ==> spec_context_matches(r->Ok_0.0, *headers, config),
        r is Ok ==> json_parsed(body@) == Some(r->Ok_0.1),
        r is Err ==> spec_decode_err_matches(r->Err_0, *headers, body@),
{
    let ctx = match Context::from_headers(headers, config) {
        Err(e) => {
            return Err(ProtocolError::Header(e));
        },
        Ok(ctx) => ctx,
    };
    match crate::json::parse_json(body) {
        Err(msg) => Err(ProtocolError::Deserialize(msg)),
        Ok(event) => Ok((ctx, event)),
    }
}

} // verus!
