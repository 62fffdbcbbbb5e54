use limitador_quota::backend::{BackendError, CheckOutcome, QuotaBackend};
use limitador_quota::client::{received, LimitadorClient, CHECK_PROBE_DELTA};
use limitador_quota::transport::reply;
use std::time::Duration;

fn client() -> LimitadorClient {
    LimitadorClient::new(
        "http://127.0.0.1:1234",
        "grid-tokens",
        Duration::from_secs(5),
    )
    .expect("client builds")
}

fn parsed(text: &str) -> serde_json::Value {
    serde_json::from_str(text).expect("valid JSON")
}

#[test]
fn check_200_is_within_limit() {
    let c = client();
    let call = c.check_call("sub", "bob");
    assert_eq!(call.url, "http://127.0.0.1:1234/check");
    let outcome = c.check_outcome(Ok(200)).unwrap();
    assert_eq!(outcome, CheckOutcome::WithinLimit);
}

#[test]
fn check_429_is_over_limit() {
    let c = client();
    let call = c.check_call("sub", "bob");
    assert_eq!(call.url, "http://127.0.0.1:1234/check");
    let outcome = c.check_outcome(Ok(429)).unwrap();
    assert_eq!(outcome, CheckOutcome::OverLimit);
}

#[test]
fn check_sends_namespace_and_descriptor() {
    let c = client();
    let call = c.check_call("sub", "bob");
    assert_eq!(call.url, "http://127.0.0.1:1234/check");
    assert_eq!(
        serde_json::Value::Object(call.body),
        parsed(r#"{"namespace":"grid-tokens","values":{"sub":"bob"},"delta":1}"#)
    );
    assert!(c.check_outcome(Ok(200)).is_ok());
}

#[test]
fn check_unexpected_status_is_an_error() {
    let err = client().check_outcome(Ok(500)).unwrap_err();
    assert!(err.message.contains("500"), "{}", err.message);
    assert_eq!(
        err.message,
        "Limitador /check returned unexpected status 500 Internal Server Error"
    );
}

#[test]
fn report_sends_delta() {
    let c = client();
    let call = c.report_call("sub", "bob", 42);
    assert_eq!(call.url, "http://127.0.0.1:1234/report");
    assert_eq!(
        serde_json::Value::Object(call.body),
        parsed(r#"{"namespace":"grid-tokens","values":{"sub":"bob"},"delta":42}"#)
    );
    assert!(c.report_outcome(Ok(200)).is_ok());
}

#[test]
fn report_treats_a_non_200_as_an_error() {
    // /report increments unconditionally and answers 200. Anything else is a real failure
    // the caller logs.
    let c = client();
    let call = c.report_call("sub", "bob", 10);
    assert_eq!(call.url, "http://127.0.0.1:1234/report");
    let err = c.report_outcome(Ok(500)).unwrap_err();
    assert!(err.message.contains("500"), "{}", err.message);
    assert_eq!(
        err.message,
        "Limitador /report returned unexpected status 500 Internal Server Error"
    );
}

#[test]
fn a_call_to_a_dead_endpoint_errors() {
    let c = LimitadorClient::new("http://127.0.0.1:1", "ns", Duration::from_millis(200))
        .expect("client builds");
    let call = c.check_call("sub", "bob");
    assert_eq!(call.url, "http://127.0.0.1:1/check");
    let err = c
        .check_outcome(Err("connection refused".to_owned()))
        .unwrap_err();
    assert!(err.message.contains("failed"), "{}", err.message);
    assert_eq!(
        err.message,
        "Limitador POST http://127.0.0.1:1/check failed: connection refused"
    );
}

#[test]
fn a_report_to_a_dead_endpoint_errors() {
    let err = client()
        .report_outcome(Err("timed out".to_owned()))
        .unwrap_err();
    assert_eq!(
        err.message,
        "Limitador POST http://127.0.0.1:1234/report failed: timed out"
    );
}

#[test]
fn a_report_is_never_over_the_limit() {
    let err = client().report_outcome(Ok(429)).unwrap_err();
    assert_eq!(
        err.message,
        "Limitador /report returned unexpected status 429 Too Many Requests"
    );
}

#[test]
fn a_success_other_than_200_is_unexpected() {
    let err = client().check_outcome(Ok(204)).unwrap_err();
    assert_eq!(
        err.message,
        "Limitador /check returned unexpected status 204 No Content"
    );
    let err = client().report_outcome(Ok(202)).unwrap_err();
    assert_eq!(
        err.message,
        "Limitador /report returned unexpected status 202 Accepted"
    );
}

#[test]
fn a_status_without_a_reason_is_named_by_its_number() {
    let err = client().check_outcome(Ok(599)).unwrap_err();
    assert_eq!(
        err.message,
        "Limitador /check returned unexpected status 599 <unknown status code>"
    );
    for code in [100u16, 999u16] {
        let err = client().check_outcome(Ok(code)).unwrap_err();
        assert!(err.message.contains(&format!(" status {code} ")));
    }
}

#[test]
fn trailing_slashes_are_trimmed() {
    for endpoint in ["http://limitador:8080", "http://limitador:8080/", "http://limitador:8080///"] {
        let c = LimitadorClient::new(endpoint, "ns", Duration::from_secs(1)).unwrap();
        assert_eq!(c.check_call("a", "b").url, "http://limitador:8080/check");
        assert_eq!(
            c.report_call("a", "b", 2).url,
            "http://limitador:8080/report"
        );
    }
}

#[test]
fn slashes_within_an_endpoint_are_kept() {
    let c = LimitadorClient::new("http://gw/é/v1//", "ns", Duration::from_secs(1)).unwrap();
    assert_eq!(c.check_call("a", "b").url, "http://gw/é/v1/check");
    let c = LimitadorClient::new("", "ns", Duration::from_secs(1)).unwrap();
    assert_eq!(c.check_call("a", "b").url, "/check");
    let c = LimitadorClient::new("//", "ns", Duration::from_secs(1)).unwrap();
    assert_eq!(c.report_call("a", "b", 0).url, "/report");
}

#[test]
fn the_timeout_is_that_of_the_http_client() {
    let c = LimitadorClient::new("http://limitador", "ns", Duration::from_secs(7)).unwrap();
    let shown = format!("{:?}", c.http());
    assert!(shown.contains("TotalTimeout: 7s"), "{shown}");
}

#[test]
fn a_client_that_cannot_be_built_is_a_message() {
    let message = LimitadorClient::from_build(
        Err("no certificates".to_owned()),
        "http://limitador",
        "ns",
    )
    .unwrap_err();
    assert_eq!(
        message,
        "Limitador HTTP client build failed: no certificates"
    );
}

#[test]
fn a_client_is_built_around_an_http_client() {
    let http = reqwest::Client::new();
    let c = LimitadorClient::from_build(Ok(http), "http://limitador/", "ns").unwrap();
    assert_eq!(c.check_call("a", "b").url, "http://limitador/check");
}

#[test]
fn any_text_is_carried_as_it_is() {
    let c = LimitadorClient::new("http://l", "n\"s\\", Duration::from_secs(1)).unwrap();
    let call = c.report_call("k\n", "\u{1F980}", u64::MAX);
    assert_eq!(
        serde_json::to_string(&call.body).unwrap(),
        "{\"delta\":18446744073709551615,\"namespace\":\"n\\\"s\\\\\",\"values\":{\"k\\n\":\"\u{1F980}\"}}"
    );
}

#[test]
fn a_descriptor_may_be_named_like_a_member() {
    let call = client().check_call("delta", "namespace");
    assert_eq!(
        serde_json::Value::Object(call.body),
        parsed(r#"{"namespace":"grid-tokens","values":{"delta":"namespace"},"delta":1}"#)
    );
}

#[test]
fn a_check_is_a_debit_of_one_at_another_path() {
    let c = client();
    let check = c.check_call("sub", "bob");
    let report = c.report_call("sub", "bob", CHECK_PROBE_DELTA);
    assert_eq!(CHECK_PROBE_DELTA, 1);
    assert_eq!(check.body, report.body);
    assert_ne!(check.url, report.url);
    assert_ne!(check.body, c.check_call("sub", "alice").body);
    assert!(!check.url.ends_with("/check_and_report"));
    assert!(!report.url.ends_with("/check_and_report"));
}

#[test]
fn an_error_is_shown_as_its_message() {
    let error = BackendError {
        message: "no route".to_owned(),
    };
    assert_eq!(error.to_string(), "no route");
}

/// The error of a request that cannot be made.
fn unsendable() -> reqwest::Error {
    reqwest::Client::new()
        .post("not a url")
        .build()
        .expect_err("no such URL")
}

#[test]
fn every_status_is_handed_on() {
    for code in [100u16, 200, 204, 302, 404, 429, 500, 599, 999] {
        let status = received("http://limitador/check", reply(Ok(code))).unwrap();
        assert_eq!(status, code);
    }
}

#[test]
fn a_failed_exchange_is_shown_in_the_error() {
    let cause = reply(Err(unsendable())).unwrap_err();
    assert_eq!(cause, unsendable().to_string());
    assert_eq!(cause, "builder error");
    let err = received("http://limitador/check", Err(cause)).unwrap_err();
    assert_eq!(
        err.message,
        "Limitador POST http://limitador/check failed: builder error"
    );
    let err = client().report_outcome(reply(Err(unsendable()))).unwrap_err();
    assert_eq!(
        err.message,
        "Limitador POST http://127.0.0.1:1234/report failed: builder error"
    );
}
