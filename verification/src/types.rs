//! Per-invocation types: the response headers delivered with an event, the
//! execution context built from them, and the diagnostic shape used to
//! report a handler failure.

use crate::json::json_parsed;
use crate::parse::{parse_u64, spec_digits_val, spec_parses_u64};
use crate::Config;
use vstd::prelude::*;
use vstd::string::*;

verus! {

/// Names of the headers that accompany a polled event.
#[derive(Clone, Copy, Debug, PartialEq, Eq, Structural)]
pub enum HeaderKey {
    /// The identifier of the invocation being delivered.
    RequestId,
    /// The time the invocation expires, in milliseconds since the epoch.
    DeadlineMs,
    /// The full identifier of the function being invoked.
    FunctionArn,
    /// The tracing identifier of the invocation.
    TraceId,
    /// JSON-encoded data about the calling application.
    ClientContext,
    /// JSON-encoded data about the caller's identity.
    Identity,
}

/// Why context construction failed.
#[derive(Clone, Copy, Debug, PartialEq, Eq, Structural)]
pub enum HeaderError {
    /// A required header was absent.
    Missing(HeaderKey),
    /// A header was present but could not be used.
    Malformed(HeaderKey),
}

/// The header values delivered with one polled event: `None` where the
/// header was absent from the response.
pub struct Headers {
    /// Value of the request-id header, if present.
    pub request_id: Option<String>,
    /// Value of the deadline header, if present.
    pub deadline_ms: Option<String>,
    /// Value of the invoked-function identifier header, if present.
    pub function_arn: Option<String>,
    /// Value of the trace-id header, if present.
    pub trace_id: Option<String>,
    /// Value of the client-context header, if present.
    pub client_context: Option<String>,
    /// Value of the identity header, if present.
    pub identity: Option<String>,
}

/// The per-invocation execution context handed to the handler.
#[derive(Debug)]
pub struct Context {
    /// The identifier of the invocation; never empty.
    pub request_id: String,
    /// The time the invocation expires, in milliseconds since the epoch.
    pub deadline: u64,
    /// The full identifier of the function being invoked.
    pub invoked_function_arn: String,
    /// The tracing identifier of the invocation, if one was delivered.
    pub trace_id: Option<String>,
    /// Data about the calling application, if any was delivered.
    pub client_context: Option<serde_json::Value>,
    /// Data about the caller's identity, if any was delivered.
    pub identity: Option<serde_json::Value>,
    /// The static configuration the runtime was started with.
    pub env_config: Config,
}

/// The wire shape in which a handler failure is reported: a human-readable
/// message and a stable classification tag.
#[derive(Debug, Clone)]
pub struct Diagnostic {
    /// The human-readable rendering of the failure.
    pub error_message: String,
    /// The classification tag of the failure.
    pub error_type: String,
}

/// An error that can be rendered as a wire diagnostic. The classification
/// is supplied by the handler's author, not inferred.
pub trait IntoDiagnostic {
    /// The human-readable message this error renders to.
    spec fn spec_message(&self) -> Seq<char>;

    /// The classification tag of this error.
    spec fn spec_error_type(&self) -> Seq<char>;

    /// Renders this error as a wire diagnostic.
    fn diagnostic(&self) -> (d: Diagnostic)
        ensures
            d.error_message@ == self.spec_message(),
            d.error_type@ == self.spec_error_type(),
    ;
}

impl IntoDiagnostic for Diagnostic {
    open spec fn spec_message(&self) -> Seq<char> {
        self.error_message@
    }

    open spec fn spec_error_type(&self) -> Seq<char> {
        self.error_type@
    }

    fn diagnostic(&self) -> (d: Diagnostic) {
        Diagnostic {
            error_message: self.error_message.clone(),
            error_type: self.error_type.clone(),
        }
    }
}

/// The error context construction reports for these headers, if any: the
/// request id must be present and non-empty, the deadline present and
/// numeric, the function identifier present, and the two optional JSON
/// headers well-formed where present.
pub open spec fn spec_header_err(h: Headers) -> Option<HeaderError> {
    if h.request_id is None {
        Some(HeaderError::Missing(HeaderKey::RequestId))
    } else if h.request_id->Some_0@.len() == 0 {
        Some(HeaderError::Malformed(HeaderKey::RequestId))
    } else if h.deadline_ms is None {
        Some(HeaderError::Missing(HeaderKey::DeadlineMs))
    } else if !spec_parses_u64(h.deadline_ms->Some_0@) {
        Some(HeaderError::Malformed(HeaderKey::DeadlineMs))
    } else if h.function_arn is None {
        Some(HeaderError::Missing(HeaderKey::FunctionArn))
    } else if h.client_context is Some && json_parsed(h.client_context->Some_0@) is None {
        Some(HeaderError::Malformed(HeaderKey::ClientContext))
    } else if h.identity is Some && json_parsed(h.identity->Some_0@) is None {
        Some(HeaderError::Malformed(HeaderKey::Identity))
    } else {
        None
    }
}

/// Context construction succeeds on these headers.
pub open spec fn spec_headers_ok(h: Headers) -> bool {
    spec_header_err(h) is None
}

/// The two configurations hold the same values.
pub open spec fn spec_config_eq(a: Config, b: Config) -> bool {
    &&& a.endpoint@ == b.endpoint@
    &&& a.function_name@ == b.function_name@
    &&& a.memory == b.memory
    &&& a.version@ == b.version@
    &&& a.log_stream@ == b.log_stream@
    &&& a.log_group@ == b.log_group@
}

/// `ctx` is the context that `h` and `cfg` describe: the identifiers are
/// carried over, the deadline is the numeric value of its header, each
/// optional field is present exactly where its header is, and the JSON
/// headers are parsed.
pub open spec fn spec_context_matches(ctx: Context, h: Headers, cfg: Config) -> bool {
    &&& ctx.request_id@ == h.request_id->Some_0@
    &&& ctx.request_id@.len() > 0
    &&& ctx.deadline == spec_digits_val(h.deadline_ms->Some_0@)
    &&& ctx.invoked_function_arn@ == h.function_arn->Some_0@
    &&& (ctx.trace_id is Some <==> h.trace_id is Some)
    &&& (h.trace_id is Some ==> ctx.trace_id->Some_0@ == h.trace_id->Some_0@)
    &&& (ctx.client_context is Some <==> h.client_context is Some)
    &&& (h.client_context is Some ==> Some(ctx.client_context->Some_0) == json_parsed(
        h.client_context->Some_0@,
    ))
    &&& (ctx.identity is Some <==> h.identity is Some)
    &&& (h.identity is Some ==> Some(ctx.identity->Some_0) == json_parsed(h.identity->Some_0@))
    &&& spec_config_eq(ctx.env_config, cfg)
}

impl Context {
    /// Builds the execution context for one invocation from the response
    /// headers and the static configuration. Fails with `Missing` when a
    /// required header is absent, and with `Malformed` when the request id
    /// is empty, the deadline is not a decimal number in range, or an
    /// optional JSON header does not parse.
    pub fn from_headers(h: &Headers, config: Config) -> (r: Result<Context, HeaderError>)
        ensures
            r is Ok <==> spec_headers_ok(*h),
            r is Ok ==> spec_context_matches(r->Ok_0, *h, config),
            r is Err ==> Some(r->Err_0) == spec_header_err(*h),
    {
        let request_id = match &h.request_id {
            None => {
                return Err(HeaderError::Missing(HeaderKey::RequestId));
            },
            Some(s) => {
                if s.as_str().is_empty() {
                    return Err(HeaderError::Malformed(HeaderKey::RequestId));
                }
                s.clone()
            },
        };
        let deadline = match &h.deadline_ms {
            None => {
                return Err(HeaderError::Missing(HeaderKey::DeadlineMs));
            },
            Some(s) => match parse_u64(s.as_str()) {
                None => {
                    return Err(HeaderError::Malformed(HeaderKey::DeadlineMs));
                },
                Some(v) => v,
            },
        };
        let invoked_function_arn = match &h.function_arn {
            None => {
                return Err(HeaderError::Missing(HeaderKey::FunctionArn));
            },
            Some(s) => s.clone(),
        };
        let trace_id = match &h.trace_id {
            None => None,
            Some(s) => Some(s.clone()),
        };
        let client_context = match &h.client_context {
            None => None,
            Some(s) => match crate::json::parse_json(s.as_str()) {
                Err(_) => {
                    return Err(HeaderError::Malformed(HeaderKey::ClientContext));
                },
                Ok(v) => Some(v),
            },
        };
        let identity = match &h.identity {
            None => None,
            Some(s) => match crate::json::parse_json(s.as_str()) {
                Err(_) => {
                    return Err(HeaderError::Malformed(HeaderKey::Identity));
                },
                Ok(v) => Some(v),
            },
        };
        Ok(
            Context {
                request_id,
                deadline,
                invoked_function_arn,
                trace_id,
                client_context,
                identity,
                env_config: config,
            },
        )
    }
}

/// Context construction fails on a missing request-id header, with that
/// error and no other, whatever the remaining headers hold.
pub proof fn lemma_missing_request_id_fatal(h: Headers)
    requires
        h.request_id is None,
    ensures
        !spec_headers_ok(h),
        spec_header_err(h) == Some(HeaderError::Missing(HeaderKey::RequestId)),
{
}

} // verus!
