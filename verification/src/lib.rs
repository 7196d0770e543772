//! Runtime support for a hosted function service: it fetches one pending
//! invocation at a time from a control endpoint, hands the decoded event and
//! its per-invocation context to a user handler, and reports the handler's
//! outcome (success or a structured error) back to the host before fetching
//! the next event.

pub mod json;
pub mod parse;
pub mod requests;
pub mod types;

pub use types::Context;

use crate::requests::RequestDescriptor;
use crate::types::{spec_config_eq, Headers, IntoDiagnostic};
use vstd::prelude::*;
use vstd::string::*;

verus! {

/// Names of the environment entries that configuration is loaded from.
#[derive(Clone, Copy, Debug, PartialEq, Eq, Structural)]
pub enum EnvKey {
    /// The address of the control endpoint.
    RuntimeApi,
    /// The name of the function.
    FunctionName,
    /// The amount of memory available to the function, in MB.
    MemorySize,
    /// The version of the function being executed.
    Version,
    /// The name of the log stream for the function.
    LogStream,
    /// The name of the log group for the function.
    LogGroup,
}

/// Why configuration loading failed.
#[derive(Clone, Copy, Debug, PartialEq, Eq, Structural)]
pub enum ConfigError {
    /// A required environment entry was absent.
    Missing(EnvKey),
    /// An environment entry was present but could not be parsed.
    Malformed(EnvKey),
}

/// The values of the configuration-relevant environment entries at one
/// moment: `None` where the entry is absent from the environment.
pub struct EnvSnapshot {
    /// Value of the control-endpoint entry, if present.
    pub runtime_api: Option<String>,
    /// Value of the function-name entry, if present.
    pub function_name: Option<String>,
    /// Value of the memory-size entry, if present.
    pub memory: Option<String>,
    /// Value of the function-version entry, if present.
    pub version: Option<String>,
    /// Value of the log-stream entry, if present.
    pub log_stream: Option<String>,
    /// Value of the log-group entry, if present.
    pub log_group: Option<String>,
}

/// Configuration derived from the process environment.
#[derive(Debug, Clone)]
pub struct Config {
    /// The host and port of the control endpoint.
    pub endpoint: String,
    /// The name of the function.
    pub function_name: String,
    /// The amount of memory available to the function in MB.
    pub memory: i32,
    /// The version of the function being executed.
    pub version: String,
    /// The name of the log stream for the function.
    pub log_stream: String,
    /// The name of the log group for the function.
    pub log_group: String,
}

/// The error configuration loading reports for this snapshot, if any: the
/// endpoint, function name, memory size and version are required, and the
/// memory size must be a decimal `i32`. The log stream and log group have
/// defaults and never fail.
pub open spec fn spec_config_err(env: EnvSnapshot) -> Option<ConfigError> {
    if env.runtime_api is None {
        Some(ConfigError::Missing(EnvKey::RuntimeApi))
    } else if env.function_name is None {
        Some(ConfigError::Missing(EnvKey::FunctionName))
    } else if env.memory is None {
        Some(ConfigError::Missing(EnvKey::MemorySize))
    } else if !parse::spec_parses_i32(env.memory->Some_0@) {
        Some(ConfigError::Malformed(EnvKey::MemorySize))
    } else if env.version is None {
        Some(ConfigError::Missing(EnvKey::Version))
    } else {
        None
    }
}

/// `c` is the configuration that the snapshot describes: every required
/// entry carried over, the memory size parsed, and the defaults `$LATEST`
/// and `/aws/lambda/Functions` where the log entries are absent.
pub open spec fn spec_config_of(env: EnvSnapshot, c: Config) -> bool {
    &&& c.endpoint@ == env.runtime_api->Some_0@
    &&& c.function_name@ == env.function_name->Some_0@
    &&& c.memory == parse::spec_i32_val(env.memory->Some_0@)
    &&& c.version@ == env.version->Some_0@
    &&& c.log_stream@ == if env.log_stream is Some {
        env.log_stream->Some_0@
    } else {
        "$LATEST"@
    }
    &&& c.log_group@ == if env.log_group is Some {
        env.log_group->Some_0@
    } else {
        "/aws/lambda/Functions"@
    }
}

impl Config {
    /// Loading succeeds on this snapshot.
    pub open spec fn spec_env_ok(env: EnvSnapshot) -> bool {
        spec_config_err(env) is None
    }

    /// Builds the configuration from a snapshot of the environment. Fails
    /// with `Missing` when a required entry is absent and with `Malformed`
    /// when the memory size is not a decimal `i32`; the two log entries
    /// fall back to their defaults.
    pub fn from_env(env: &EnvSnapshot) -> (r: Result<Config, ConfigError>)
        ensures
            r is Ok <==> Self::spec_env_ok(*env),
            r is Ok ==> spec_config_of(*env, r->Ok_0),
            r is Err ==> Some(r->Err_0) == spec_config_err(*env),
    {
        let endpoint = match &env.runtime_api {
            None => {
                return Err(ConfigError::Missing(EnvKey::RuntimeApi));
            },
            Some(s) => s.clone(),
        };
        let function_name = match &env.function_name {
            None => {
                return Err(ConfigError::Missing(EnvKey::FunctionName));
            },
            Some(s) => s.clone(),
        };
        let memory = match &env.memory {
            None => {
                return Err(ConfigError::Missing(EnvKey::MemorySize));
            },
            Some(s) => match parse::parse_i32(s.as_str()) {
                None => {
                    return Err(ConfigError::Malformed(EnvKey::MemorySize));
                },
                Some(v) => v,
            },
        };
        let version = match &env.version {
            None => {
                return Err(ConfigError::Missing(EnvKey::Version));
            },
            Some(s) => s.clone(),
        };
        let log_stream = match &env.log_stream {
            None => "$LATEST".to_owned(),
            Some(s) => s.clone(),
        };
        let log_group = match &env.log_group {
            None => "/aws/lambda/Functions".to_owned(),
            Some(s) => s.clone(),
        };
        Ok(Config { endpoint, function_name, memory, version, log_stream, log_group })
    }

    /// A copy of this configuration, holding the same values.
    pub fn duplicate(&self) -> (c: Config)
        ensures
            spec_config_eq(c, *self),
    {
        Config {
            endpoint: self.endpoint.clone(),
            function_name: self.function_name.clone(),
            memory: self.memory,
            version: self.version.clone(),
            log_stream: self.log_stream.clone(),
            log_group: self.log_group.clone(),
        }
    }
}

impl PartialEq for Config {
    fn eq(&self, other: &Self) -> (r: bool) {
        self.endpoint == other.endpoint && self.function_name == other.function_name
            && self.memory == other.memory && self.version == other.version && self.log_stream
            == other.log_stream && self.log_group == other.log_group
    }
}

impl vstd::std_specs::cmp::PartialEqSpecImpl for Config {
    open spec fn obeys_eq_spec() -> bool {
        true
    }

    open spec fn eq_spec(&self, other: &Self) -> bool {
        spec_config_eq(*self, *other)
    }
}

impl Default for Config {
    /// The empty configuration: every name empty and no memory.
    fn default() -> (c: Config)
        ensures
            c.endpoint@.len() == 0,
            c.function_name@.len() == 0,
            c.memory == 0,
            c.version@.len() == 0,
            c.log_stream@.len() == 0,
            c.log_group@.len() == 0,
    {
        Config {
            endpoint: String::new(),
            function_name: String::new(),
            memory: 0,
            version: String::new(),
            log_stream: String::new(),
            log_group: String::new(),
        }
    }
}

/// Loading is a function of the environment snapshot: two configurations
/// drawn from the same snapshot hold the same values.
pub proof fn lemma_config_deterministic(env: EnvSnapshot, c1: Config, c2: Config)
    requires
        spec_config_of(env, c1),
        spec_config_of(env, c2),
    ensures
        spec_config_eq(c1, c2),
{
}

/// A snapshot that lacks a required entry never loads: there is no partial
/// or defaulted configuration for it.
pub proof fn lemma_missing_entry_fails(env: EnvSnapshot)
    requires
        env.runtime_api is None || env.function_name is None || env.memory is None || env.version
            is None,
    ensures
        !Config::spec_env_ok(env),
{
}

/// A function from an event and its context to a response or an error.
pub trait Handler<A, B> {
    /// Errors returned by this handler.
    type Error;

    /// When the handler is willing to be invoked on this event and context.
    spec fn pre(&self, event: A, context: Context) -> bool;

    /// Handle the incoming event. Whatever the handler would accept before
    /// a call, it still accepts after it.
    fn call(&mut self, event: A, context: Context) -> (r: Result<B, Self::Error>)
        requires
            old(self).pre(event, context),
        ensures
            forall|e: A, c: Context| old(self).pre(e, c) ==> #[trigger] final (self).pre(e, c),
    ;
}

/// A [`Handler`] implemented by a closure.
#[derive(Clone, Debug)]
pub struct HandlerFn<F> {
    /// The wrapped closure.
    pub f: F,
}

/// Returns a new [`HandlerFn`] with the given closure.
pub fn handler_fn<F>(f: F) -> (h: HandlerFn<F>)
    ensures
        h == (HandlerFn { f }),
{
    HandlerFn { f }
}

impl<A, B, E, F> Handler<A, B> for HandlerFn<F> where F: Fn(A, Context) -> Result<B, E> {
    type Error = E;

    open spec fn pre(&self, event: A, context: Context) -> bool {
        call_requires(self.f, (event, context))
    }

    /// Pure delegation: the adapter invokes the wrapped closure once with
    /// the given arguments, yields its result unchanged, and keeps the
    /// closure.
    fn call(&mut self, event: A, context: Context) -> (r: Result<B, E>)
        ensures
            call_ensures(old(self).f, (event, context), r),
            final (self).f == old(self).f,
    {
        (self.f)(event, context)
    }
}

/// One response delivered by a poll of the control endpoint: the headers
/// describing the invocation and the JSON event body.
pub struct PollResponse {
    /// The response headers.
    pub headers: Headers,
    /// The response body.
    pub body: String,
}

/// An error that terminates the runtime loop.
#[derive(Debug)]
pub enum FatalError {
    /// The transport failed while polling.
    Transport(String),
    /// A polled response could not be decoded.
    Protocol(requests::ProtocolError),
}

/// The polled response decodes: valid headers and a well-formed JSON body.
pub open spec fn spec_event_ok(p: PollResponse) -> bool {
    types::spec_headers_ok(p.headers) && json::json_parsed(p.body@) is Some
}

/// The poll both succeeded at the transport and delivered a decodable
/// response.
pub open spec fn spec_poll_ok(x: Result<PollResponse, String>) -> bool {
    x is Ok && spec_event_ok(x->Ok_0)
}

/// `r` reports the invocation that `p` delivered: a success or an error
/// report, addressed with the request id `p` carried, an error report's
/// body being the rendering of some diagnostic.
pub open spec fn spec_report_matches(r: RequestDescriptor, p: PollResponse) -> bool {
    let id = p.headers.request_id->Some_0@;
    ||| (r is ReportSuccess && r->ReportSuccess_request_id@ == id)
    ||| (r is ReportError && r->ReportError_request_id@ == id && exists|m: Seq<char>, t: Seq<char>|
        r->ReportError_body@ == json::spec_error_body(m, t))
}

/// `f` is the fatal error that the poll outcome `x` raises: a transport
/// failure carries the transport's message, a protocol failure the exact
/// decode error.
pub open spec fn spec_fatal_matches(f: FatalError, x: Result<PollResponse, String>) -> bool {
    match f {
        FatalError::Transport(m) => x is Err && m@ == x->Err_0@,
        FatalError::Protocol(pe) => x is Ok && requests::spec_decode_err_matches(
            pe,
            x->Ok_0.headers,
            x->Ok_0.body@,
        ),
    }
}

/// The loop fails at position `k` of the poll sequence with the fatal
/// error `f`: every earlier poll was delivered and decoded, the one at `k`
/// was not, and `f` is the error it raises.
pub open spec fn spec_fails_at(
    polls: Seq<Result<PollResponse, String>>,
    k: int,
    f: FatalError,
) -> bool {
    &&& 0 <= k < polls.len()
    &&& forall|j: int| 0 <= j < k ==> spec_poll_ok(#[trigger] polls[j])
    &&& !spec_poll_ok(polls[k])
    &&& spec_fatal_matches(f, polls[k])
}

/// Runs the invocation cycle over a bounded sequence of poll outcomes:
/// each delivered response is decoded, handed to the handler with a fresh
/// context, and answered with exactly one report, success or error,
/// addressed with the request id that was received. The first poll that
/// fails at the transport or does not decode terminates the loop with a
/// fatal error; a handler error does not.
pub fn run_bounded<H, E>(
    handler: &mut H,
    polls: Vec<Result<PollResponse, String>>,
    config: &Config,
) -> (r: Result<Vec<RequestDescriptor>, FatalError>) where
    H: Handler<serde_json::Value, serde_json::Value, Error = E>,
    E: IntoDiagnostic,

    requires
        forall|e: serde_json::Value, c: Context| old(handler).pre(e, c),
    ensures
        r is Ok ==> r->Ok_0@.len() == polls@.len(),
        r is Ok ==> forall|i: int|
            0 <= i < polls@.len() ==> spec_poll_ok(#[trigger] polls@[i]) && spec_report_matches(
                r->Ok_0@[i],
                polls@[i]->Ok_0,
            ),
        r is Err ==> exists|k: int| #[trigger] spec_fails_at(polls@, k, r->Err_0),
{
    let n = polls.len();
    let mut reports: Vec<RequestDescriptor> = Vec::new();
    let mut i: usize = 0;
    while i < n
        invariant
            i <= n,
            n == polls@.len(),
            reports@.len() == i as int,
            forall|j: int| 0 <= j < i ==> spec_poll_ok(#[trigger] polls@[j]),
            forall|j: int|
                0 <= j < i ==> spec_report_matches(#[trigger] reports@[j], polls@[j]->Ok_0),
            forall|e: serde_json::Value, c: Context| handler.pre(e, c),
        decreases n - i,
    {
        match &polls[i] {
            Err(msg) => {
                let out: Result<Vec<RequestDescriptor>, FatalError> = Err(
                    FatalError::Transport(msg.clone()),
                );
                proof {
                    assert(spec_fails_at(polls@, i as int, out->Err_0));
                }
                return out;
            },
            Ok(resp) => {
                match requests::decode_event(
                    &resp.headers,
                    resp.body.as_str(),
                    config.duplicate(),
                ) {
                    Err(pe) => {
                        let out: Result<Vec<RequestDescriptor>, FatalError> = Err(
                            FatalError::Protocol(pe),
                        );
                        proof {
                            assert(spec_fails_at(polls@, i as int, out->Err_0));
                        }
                        return out;
                    },
                    Ok((ctx, event)) => {
                        let request_id = ctx.request_id.clone();
                        let outcome: Result<serde_json::Value, types::Diagnostic> = match handler
                            .call(event, ctx) {
                            Ok(v) => Ok(v),
                            Err(e) => Err(e.diagnostic()),
                        };
                        let report = requests::report_for(request_id.as_str(), outcome);
                        proof {
                            assert(spec_report_matches(report, polls@[i as int]->Ok_0));
                        }
                        reports.push(report);
                    },
                }
            },
        }
        i = i + 1;
    }
    Ok(reports)
}

/// A closure-backed handler is willing to be invoked exactly where its
/// closure is: its `pre` is the closure's own precondition. Callers of
/// [`run_bounded`] use this to discharge its willingness requirement for a
/// closure without one.
pub proof fn lemma_handler_fn_pre<A, B, E, F: Fn(A, Context) -> Result<B, E>>(
    h: HandlerFn<F>,
    e: A,
    c: Context,
)
    ensures
        h.pre(e, c) == call_requires(h.f, (e, c)),
{
}

} // verus!
