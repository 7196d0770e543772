use lambda_runtime::json::error_body;
use lambda_runtime::parse::{parse_i32, parse_u64};
use lambda_runtime::requests::{
    decode_event, encode_poll_next, encode_report_error, encode_report_success, report_for,
    ProtocolError, RequestDescriptor,
};
use lambda_runtime::types::{Diagnostic, HeaderError, HeaderKey, Headers};
use lambda_runtime::{Config, ConfigError, EnvKey, EnvSnapshot};

fn full_env() -> EnvSnapshot {
    EnvSnapshot {
        runtime_api: Some("127.0.0.1:9001".to_string()),
        function_name: Some("test_fn".to_string()),
        memory: Some("128".to_string()),
        version: Some("$LATEST".to_string()),
        log_stream: Some("stream".to_string()),
        log_group: Some("group".to_string()),
    }
}

fn full_headers() -> Headers {
    Headers {
        request_id: Some("8476a536-e9f4-11e8-9739-2dfe598c3fcd".to_string()),
        deadline_ms: Some("1542409706888".to_string()),
        function_arn: Some("arn:aws:lambda:us-east-1:123456789012:function:custom_runtime".to_string()),
        trace_id: Some("Root=1-5bef4de7-ad49b0e87f6ef6c87fc2e700".to_string()),
        client_context: None,
        identity: None,
    }
}

#[test]
fn parse_u64_accepts_digit_strings() {
    assert_eq!(parse_u64("0"), Some(0));
    assert_eq!(parse_u64("1542409706888"), Some(1542409706888));
    assert_eq!(parse_u64("007"), Some(7));
    assert_eq!(parse_u64("18446744073709551615"), Some(u64::MAX));
}

#[test]
fn parse_u64_rejects_bad_strings() {
    assert_eq!(parse_u64(""), None);
    assert_eq!(parse_u64("12a"), None);
    assert_eq!(parse_u64("-1"), None);
    assert_eq!(parse_u64("+5"), None);
    assert_eq!(parse_u64(" 1"), None);
    assert_eq!(parse_u64("18446744073709551616"), None);
    assert_eq!(parse_u64("99999999999999999999999"), None);
}

#[test]
fn parse_i32_accepts_signed_numerals() {
    assert_eq!(parse_i32("128"), Some(128));
    assert_eq!(parse_i32("+128"), Some(128));
    assert_eq!(parse_i32("-128"), Some(-128));
    assert_eq!(parse_i32("0"), Some(0));
    assert_eq!(parse_i32("2147483647"), Some(i32::MAX));
    assert_eq!(parse_i32("-2147483648"), Some(i32::MIN));
}

#[test]
fn parse_i32_rejects_bad_numerals() {
    assert_eq!(parse_i32(""), None);
    assert_eq!(parse_i32("-"), None);
    assert_eq!(parse_i32("+"), None);
    assert_eq!(parse_i32("--1"), None);
    assert_eq!(parse_i32("1.5"), None);
    assert_eq!(parse_i32("2147483648"), None);
    assert_eq!(parse_i32("-2147483649"), None);
}

#[test]
fn config_loads_from_full_environment() {
    let cfg = Config::from_env(&full_env()).unwrap();
    assert_eq!(cfg.endpoint, "127.0.0.1:9001");
    assert_eq!(cfg.function_name, "test_fn");
    assert_eq!(cfg.memory, 128);
    assert_eq!(cfg.version, "$LATEST");
    assert_eq!(cfg.log_stream, "stream");
    assert_eq!(cfg.log_group, "group");
}

#[test]
fn config_applies_log_defaults() {
    let mut env = full_env();
    env.log_stream = None;
    env.log_group = None;
    let cfg = Config::from_env(&env).unwrap();
    assert_eq!(cfg.log_stream, "$LATEST");
    assert_eq!(cfg.log_group, "/aws/lambda/Functions");
}

#[test]
fn config_loading_is_deterministic() {
    let c1 = Config::from_env(&full_env()).unwrap();
    let c2 = Config::from_env(&full_env()).unwrap();
    assert!(c1 == c2);
}

#[test]
fn config_missing_required_entry_fails() {
    let mut env = full_env();
    env.runtime_api = None;
    assert_eq!(
        Config::from_env(&env).unwrap_err(),
        ConfigError::Missing(EnvKey::RuntimeApi)
    );
    let mut env = full_env();
    env.function_name = None;
    assert_eq!(
        Config::from_env(&env).unwrap_err(),
        ConfigError::Missing(EnvKey::FunctionName)
    );
    let mut env = full_env();
    env.memory = None;
    assert_eq!(
        Config::from_env(&env).unwrap_err(),
        ConfigError::Missing(EnvKey::MemorySize)
    );
    let mut env = full_env();
    env.version = None;
    assert_eq!(
        Config::from_env(&env).unwrap_err(),
        ConfigError::Missing(EnvKey::Version)
    );
}

#[test]
fn config_accepts_any_i32_memory_value() {
    let mut env = full_env();
    env.memory = Some("-5".to_string());
    assert_eq!(Config::from_env(&env).unwrap().memory, -5);
}

#[test]
fn config_malformed_memory_fails() {
    let mut env = full_env();
    env.memory = Some("128MB".to_string());
    assert_eq!(
        Config::from_env(&env).unwrap_err(),
        ConfigError::Malformed(EnvKey::MemorySize)
    );
}

#[test]
fn context_built_from_full_headers() {
    let cfg = Config::from_env(&full_env()).unwrap();
    let ctx = lambda_runtime::Context::from_headers(&full_headers(), cfg).unwrap();
    assert_eq!(ctx.request_id, "8476a536-e9f4-11e8-9739-2dfe598c3fcd");
    assert_eq!(ctx.deadline, 1542409706888);
    assert_eq!(
        ctx.invoked_function_arn,
        "arn:aws:lambda:us-east-1:123456789012:function:custom_runtime"
    );
    assert_eq!(
        ctx.trace_id.as_deref(),
        Some("Root=1-5bef4de7-ad49b0e87f6ef6c87fc2e700")
    );
    assert!(ctx.client_context.is_none());
    assert!(ctx.identity.is_none());
    assert_eq!(ctx.env_config.function_name, "test_fn");
}

#[test]
fn context_optional_headers_may_be_absent() {
    let cfg = Config::from_env(&full_env()).unwrap();
    let mut h = full_headers();
    h.trace_id = None;
    let ctx = lambda_runtime::Context::from_headers(&h, cfg).unwrap();
    assert!(ctx.trace_id.is_none());
}

#[test]
fn context_parses_json_headers() {
    let cfg = Config::from_env(&full_env()).unwrap();
    let mut h = full_headers();
    h.client_context = Some("{\"client\":{\"app_title\":\"demo\"}}".to_string());
    h.identity = Some("{\"identity_id\":\"id-1\"}".to_string());
    let ctx = lambda_runtime::Context::from_headers(&h, cfg).unwrap();
    let cc = ctx.client_context.unwrap();
    assert_eq!(cc["client"]["app_title"], serde_json::Value::from("demo"));
    let id = ctx.identity.unwrap();
    assert_eq!(id["identity_id"], serde_json::Value::from("id-1"));
}

#[test]
fn context_missing_request_id_fails_whatever_else_holds() {
    let cfg = Config::from_env(&full_env()).unwrap();
    let mut h = full_headers();
    h.request_id = None;
    let err = lambda_runtime::Context::from_headers(&h, cfg.duplicate()).unwrap_err();
    assert_eq!(err, HeaderError::Missing(HeaderKey::RequestId));
    // The same error comes even when every other header is also bad.
    let h = Headers {
        request_id: None,
        deadline_ms: Some("not-a-number".to_string()),
        function_arn: None,
        trace_id: None,
        client_context: Some("not json".to_string()),
        identity: Some("{".to_string()),
    };
    let err = lambda_runtime::Context::from_headers(&h, cfg).unwrap_err();
    assert_eq!(err, HeaderError::Missing(HeaderKey::RequestId));
}

#[test]
fn context_header_errors_are_reported_precisely() {
    let cfg = Config::from_env(&full_env()).unwrap();
    let mut h = full_headers();
    h.request_id = Some(String::new());
    assert_eq!(
        lambda_runtime::Context::from_headers(&h, cfg.duplicate()).unwrap_err(),
        HeaderError::Malformed(HeaderKey::RequestId)
    );
    let mut h = full_headers();
    h.deadline_ms = None;
    assert_eq!(
        lambda_runtime::Context::from_headers(&h, cfg.duplicate()).unwrap_err(),
        HeaderError::Missing(HeaderKey::DeadlineMs)
    );
    let mut h = full_headers();
    h.deadline_ms = Some("soon".to_string());
    assert_eq!(
        lambda_runtime::Context::from_headers(&h, cfg.duplicate()).unwrap_err(),
        HeaderError::Malformed(HeaderKey::DeadlineMs)
    );
    let mut h = full_headers();
    h.function_arn = None;
    assert_eq!(
        lambda_runtime::Context::from_headers(&h, cfg.duplicate()).unwrap_err(),
        HeaderError::Missing(HeaderKey::FunctionArn)
    );
    let mut h = full_headers();
    h.client_context = Some("not json".to_string());
    assert_eq!(
        lambda_runtime::Context::from_headers(&h, cfg.duplicate()).unwrap_err(),
        HeaderError::Malformed(HeaderKey::ClientContext)
    );
    let mut h = full_headers();
    h.identity = Some("{\"unterminated\":".to_string());
    assert_eq!(
        lambda_runtime::Context::from_headers(&h, cfg).unwrap_err(),
        HeaderError::Malformed(HeaderKey::Identity)
    );
}

#[test]
fn poll_next_descriptor_is_a_bodyless_read() {
    let d = encode_poll_next();
    assert!(matches!(d, RequestDescriptor::PollNext));
    assert_eq!(d.method(), "GET");
    assert_eq!(d.path(), "/2018-06-01/runtime/invocation/next");
    assert!(d.body().is_none());
}

#[test]
fn success_report_addresses_and_round_trips_the_payload() {
    let payload: serde_json::Value = serde_json::from_str("{\"n\": 5}").unwrap();
    let d = encode_report_success("id-1", &payload).unwrap();
    assert_eq!(d.method(), "POST");
    assert_eq!(d.path(), "/2018-06-01/runtime/invocation/id-1/response");
    let body = d.body().unwrap().clone();
    assert_eq!(body, "{\"n\":5}");
    let back: serde_json::Value = serde_json::from_str(&body).unwrap();
    assert_eq!(back, payload);
}

#[test]
fn error_report_carries_the_diagnostic_object() {
    let diag = Diagnostic {
        error_message: "boom".to_string(),
        error_type: "CustomError".to_string(),
    };
    let d = encode_report_error("id-1", &diag).unwrap();
    assert_eq!(d.method(), "POST");
    assert_eq!(d.path(), "/2018-06-01/runtime/invocation/id-1/error");
    assert_eq!(
        d.body().unwrap(),
        "{\"errorMessage\":\"boom\",\"errorType\":\"CustomError\"}"
    );
}

#[test]
fn error_body_escapes_into_valid_json() {
    let message = "a\"b\\c\nd\re\tf\u{1}g";
    let body = error_body(message, "CustomError");
    assert_eq!(
        body,
        "{\"errorMessage\":\"a\\\"b\\\\c\\nd\\re\\tf\\u0001g\",\"errorType\":\"CustomError\"}"
    );
    // The escaped text must parse back to the original message.
    let v: serde_json::Value = serde_json::from_str(&body).unwrap();
    assert_eq!(v["errorMessage"], serde_json::Value::from(message));
    assert_eq!(v["errorType"], serde_json::Value::from("CustomError"));
}

#[test]
fn report_for_follows_the_outcome() {
    let payload: serde_json::Value = serde_json::from_str("{\"n\": 5}").unwrap();
    match report_for("id-1", Ok(payload)) {
        RequestDescriptor::ReportSuccess { request_id, body } => {
            assert_eq!(request_id, "id-1");
            assert_eq!(body, "{\"n\":5}");
        }
        other => panic!("expected a success report, got {:?}", other),
    }
    let diag = Diagnostic {
        error_message: "boom".to_string(),
        error_type: "CustomError".to_string(),
    };
    match report_for("id-1", Err(diag)) {
        RequestDescriptor::ReportError { request_id, body } => {
            assert_eq!(request_id, "id-1");
            assert_eq!(
                body,
                "{\"errorMessage\":\"boom\",\"errorType\":\"CustomError\"}"
            );
        }
        other => panic!("expected an error report, got {:?}", other),
    }
}

#[test]
fn a_deeply_nested_payload_serializes_but_does_not_parse_back() {
    // The serializer has no nesting limit; the parser refuses nesting this
    // deep, so the round trip holds only within the parser's limit.
    let mut v = serde_json::Value::from(0);
    for _ in 0..200 {
        v = serde_json::Value::Array(vec![v]);
    }
    let d = encode_report_success("id-1", &v).unwrap();
    match &d {
        RequestDescriptor::ReportSuccess { body, .. } => {
            assert!(serde_json::from_str::<serde_json::Value>(body).is_err());
        }
        other => panic!("expected a success report, got {:?}", other),
    }
}

#[test]
fn decode_event_yields_context_and_payload() {
    let cfg = Config::from_env(&full_env()).unwrap();
    let (ctx, event) = decode_event(&full_headers(), "{\"n\": 5}", cfg).unwrap();
    assert_eq!(ctx.request_id, "8476a536-e9f4-11e8-9739-2dfe598c3fcd");
    assert_eq!(event, serde_json::from_str::<serde_json::Value>("{\"n\":5}").unwrap());
}

#[test]
fn decode_event_rejects_bad_body_and_bad_headers() {
    let cfg = Config::from_env(&full_env()).unwrap();
    match decode_event(&full_headers(), "not json", cfg.duplicate()) {
        Err(ProtocolError::Deserialize(_)) => {}
        other => panic!("expected a deserialize error, got {:?}", other),
    }
    let mut h = full_headers();
    h.request_id = None;
    match decode_event(&h, "{}", cfg) {
        Err(ProtocolError::Header(e)) => {
            assert_eq!(e, HeaderError::Missing(HeaderKey::RequestId));
        }
        other => panic!("expected a header error, got {:?}", other),
    }
}
