use lambda_extension::dsn::{upstream_of_parts, upstream_url, DsnParts, Scheme};
use lambda_extension::endpoints::{base_url, healthcheck_url, next_event_url, register_url};
use lambda_extension::register::{
    base_endpoint, interpret_register_response, poll_request, register_request, RegistrationHandle,
    StartupError,
};
use lambda_extension::supervisor::{make_overrides, supervise, SupervisionAction};

#[test]
fn missing_base_endpoint_is_fatal_before_any_request() {
    assert_eq!(
        base_endpoint(None),
        Err(StartupError::MissingBaseEndpoint)
    );
}

#[test]
fn base_endpoint_is_derived_from_the_runtime_host() {
    let u = base_endpoint(Some("127.0.0.1:9001")).unwrap();
    assert_eq!(u, "http://127.0.0.1:9001/2020-01-01/extension");
    assert_eq!(
        base_url("127.0.0.1:9001"),
        "http://127.0.0.1:9001/2020-01-01/extension"
    );
}

#[test]
fn endpoint_urls_extend_the_base() {
    let base = "http://h/2020-01-01/extension";
    assert_eq!(register_url(base), "http://h/2020-01-01/extension/register");
    assert_eq!(
        next_event_url(base),
        "http://h/2020-01-01/extension/event/next"
    );
    assert_eq!(
        healthcheck_url("127.0.0.1:3000"),
        "http://127.0.0.1:3000/api/relay/healthcheck/ready/"
    );
}

#[test]
fn register_request_declares_both_event_classes() {
    let r = register_request("http://h/2020-01-01/extension");
    assert_eq!(r.url, "http://h/2020-01-01/extension/register");
    assert_eq!(r.header_name, "Lambda-Extension-Name");
    assert_eq!(r.header_value, "aws-lambda-extension");
    assert_eq!(
        r.body.as_deref(),
        Some("{\"events\":[\"INVOKE\",\"SHUTDOWN\"]}")
    );
}

#[test]
fn ok_response_with_header_yields_the_handle() {
    let h = interpret_register_response(200, Some("abc123".to_string())).unwrap();
    assert_eq!(h.session_id, "abc123");
}

#[test]
fn poll_request_carries_the_session_header() {
    let h = RegistrationHandle { session_id: "abc123".to_string() };
    let p = poll_request("http://h/2020-01-01/extension", &h);
    assert_eq!(p.url, "http://h/2020-01-01/extension/event/next");
    assert_eq!(p.header_name, "Lambda-Extension-Identifier");
    assert_eq!(p.header_value, "abc123");
    assert!(p.body.is_none());
}

#[test]
fn non_ok_registration_never_yields_a_handle() {
    assert_eq!(
        interpret_register_response(403, Some("abc123".to_string())),
        Err(StartupError::RegistrationStatus(403))
    );
    assert_eq!(
        interpret_register_response(500, None),
        Err(StartupError::RegistrationStatus(500))
    );
}

#[test]
fn ok_registration_without_header_is_fatal() {
    assert_eq!(
        interpret_register_response(200, None),
        Err(StartupError::RegistrationMissingHeader)
    );
}

#[test]
fn reachable_forwarder_is_never_launched() {
    assert_eq!(supervise(true), SupervisionAction::AlreadyRunning);
}

#[test]
fn unreachable_forwarder_is_launched_once_per_pass() {
    assert_eq!(supervise(false), SupervisionAction::Launch);
}

#[test]
fn upstream_is_derived_with_default_port_omitted() {
    let u = upstream_url(Some("https://abcd@o1.ingest.example.com/1"));
    assert_eq!(u.as_deref(), Some("https://o1.ingest.example.com"));
}

#[test]
fn upstream_keeps_an_explicit_unconventional_port() {
    let u = upstream_url(Some("http://abcd@relay.example.com:9000/17"));
    assert_eq!(u.as_deref(), Some("http://relay.example.com:9000"));
}

#[test]
fn upstream_omits_an_explicit_conventional_port() {
    let u = upstream_url(Some("https://abcd@relay.example.com:443/17"));
    assert_eq!(u.as_deref(), Some("https://relay.example.com"));
}

#[test]
fn absent_or_invalid_identifier_yields_no_upstream() {
    assert_eq!(upstream_url(None), None);
    assert_eq!(upstream_url(Some("not a dsn")), None);
    assert_eq!(upstream_url(Some("https://example.com/")), None);
}

#[test]
fn upstream_text_is_built_from_the_parts() {
    let p = DsnParts { scheme: Scheme::Http, host: "h.example".to_string(), port: 80 };
    assert_eq!(upstream_of_parts(&p), "http://h.example");
    let q = DsnParts { scheme: Scheme::Https, host: "h.example".to_string(), port: 8443 };
    assert_eq!(upstream_of_parts(&q), "https://h.example:8443");
}

#[test]
fn overrides_force_proxy_mode_and_the_drain_timeout() {
    let c = make_overrides(Some("https://abcd@o1.ingest.example.com/1"));
    assert_eq!(c.mode, "proxy");
    assert_eq!(c.shutdown_timeout, "2");
    assert_eq!(c.upstream.as_deref(), Some("https://o1.ingest.example.com"));
    let none = make_overrides(None);
    assert_eq!(none.upstream, None);
}
