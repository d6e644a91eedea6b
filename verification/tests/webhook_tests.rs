use std::collections::HashMap;

use devtoolbox::webhook::{
    bind_address, bind_failed, build_send_response, build_webhook_reply, build_webhook_request,
    check_credentials, handle_webhook, health_check, method_from_upper, send_failed,
    send_webhook_request, webhook_url, HttpMethod, WebhookState,
};

fn headers(pairs: &[(&str, &str)]) -> HashMap<String, String> {
    pairs.iter().map(|(k, v)| (k.to_string(), v.to_string())).collect()
}

#[test]
fn nothing_is_asked_without_a_scheme_or_a_value() {
    assert!(check_credentials("", "secret", None, None));
    assert!(check_credentials("bearer", "", None, None));
    assert!(check_credentials("", "", Some("x"), Some("y")));
}

#[test]
fn bearer_credentials() {
    assert!(check_credentials("bearer", "secret", Some("Bearer secret"), None));
    assert!(check_credentials("bearer", "secret", Some("secret"), None));
    assert!(!check_credentials("bearer", "secret", Some("bearer secret"), None));
    assert!(!check_credentials("bearer", "secret", Some("Basic secret"), None));
    assert!(!check_credentials("bearer", "secret", Some("Bearer secret "), None));
    assert!(!check_credentials("bearer", "secret", None, Some("secret")));
}

#[test]
fn api_key_credentials() {
    assert!(check_credentials("api-key", "k1", None, Some("k1")));
    assert!(check_credentials("api-key", "k1", Some("other"), Some("k1")));
    assert!(!check_credentials("api-key", "k1", Some("k1"), None));
    assert!(!check_credentials("api-key", "k1", None, Some("k2")));
    assert!(!check_credentials("api-key", "k1", None, Some("")));
}

#[test]
fn basic_credentials() {
    assert!(check_credentials("basic", "dXNlcjpwdw==", Some("Basic dXNlcjpwdw=="), None));
    assert!(check_credentials("basic", "dXNlcjpwdw==", Some("dXNlcjpwdw=="), None));
    assert!(!check_credentials("basic", "dXNlcjpwdw==", Some("Bearer dXNlcjpwdw=="), None));
    assert!(!check_credentials("basic", "dXNlcjpwdw==", None, None));
}

#[test]
fn an_unknown_scheme_asks_nothing() {
    assert!(check_credentials("digest", "secret", None, None));
    assert!(check_credentials("Bearer", "secret", None, None));
}

#[test]
fn record_of_an_accepted_delivery() {
    let record = build_webhook_request(
        "id-1".to_string(),
        "2024-01-02 03:04:05".to_string(),
        true,
        headers(&[("content-type", "application/json")]),
        "{\"a\":1}".to_string(),
    );
    assert_eq!(record.id, "id-1");
    assert_eq!(record.timestamp, "2024-01-02 03:04:05");
    assert_eq!(record.method, "POST");
    assert_eq!(record.path, "/webhook");
    assert_eq!(record.headers, headers(&[("content-type", "application/json")]));
    assert_eq!(record.body, "{\"a\":1}");
    assert_eq!(record.status_code, 200);
    assert_eq!(record.error_reason, None);
}

#[test]
fn record_of_a_refused_delivery() {
    let record = build_webhook_request(
        "id-2".to_string(),
        "now".to_string(),
        false,
        HashMap::new(),
        String::new(),
    );
    assert_eq!(record.status_code, 401);
    assert_eq!(
        record.error_reason,
        Some("Authentication failed: Invalid credentials".to_string())
    );
}

#[test]
fn replies_to_a_delivery() {
    let accepted = build_webhook_reply(true);
    assert_eq!(
        (accepted.status_code, accepted.success, accepted.text.as_str()),
        (200, true, "Webhook received successfully")
    );
    let refused = build_webhook_reply(false);
    assert_eq!(
        (refused.status_code, refused.success, refused.text.as_str()),
        (401, false, "Authentication failed: Invalid credentials")
    );
}

#[test]
fn a_delivery_is_received() {
    let sent = headers(&[("authorization", "Bearer secret"), ("x-b", "2")]);
    let (record, reply) = handle_webhook(
        "bearer",
        "secret",
        Some("Bearer secret"),
        None,
        sent.clone(),
        "payload".to_string(),
    );
    assert_eq!(record.status_code, 200);
    assert_eq!(record.error_reason, None);
    assert_eq!(record.method, "POST");
    assert_eq!(record.path, "/webhook");
    assert_eq!(record.headers, sent);
    assert_eq!(record.body, "payload");
    assert!(reply.success);
    assert_eq!(reply.status_code, 200);
}

#[test]
fn a_delivery_without_credentials_is_recorded_as_refused() {
    let (record, reply) =
        handle_webhook("api-key", "k1", None, None, HashMap::new(), "payload".to_string());
    assert_eq!(record.status_code, 401);
    assert_eq!(
        record.error_reason,
        Some("Authentication failed: Invalid credentials".to_string())
    );
    assert_eq!(record.body, "payload");
    assert!(!reply.success);
    assert_eq!(reply.status_code, 401);
    assert_eq!(reply.text, "Authentication failed: Invalid credentials");
}

#[test]
fn each_delivery_gets_a_fresh_identifier_and_a_time() {
    let (first, _) = handle_webhook("", "", None, None, HashMap::new(), String::new());
    let (second, _) = handle_webhook("", "", None, None, HashMap::new(), String::new());
    assert_eq!(first.id.len(), 36);
    assert_eq!(second.id.len(), 36);
    assert_ne!(first.id, second.id);
    let shape: String = first
        .timestamp
        .chars()
        .map(|c| if c.is_ascii_digit() { '9' } else { c })
        .collect();
    assert_eq!(shape, "9999-99-99 99:99:99");
}

#[test]
fn health() {
    assert_eq!(health_check(), "Webhook server is running");
}

#[test]
fn methods_by_upper_case_name() {
    assert_eq!(method_from_upper("GET"), Some(HttpMethod::Get));
    assert_eq!(method_from_upper("POST"), Some(HttpMethod::Post));
    assert_eq!(method_from_upper("PUT"), Some(HttpMethod::Put));
    assert_eq!(method_from_upper("DELETE"), Some(HttpMethod::Delete));
    assert_eq!(method_from_upper("PATCH"), Some(HttpMethod::Patch));
    assert_eq!(method_from_upper("get"), None);
    assert_eq!(method_from_upper("HEAD"), None);
    assert_eq!(method_from_upper(""), None);
    assert_eq!(method_from_upper("GET "), None);
}

#[test]
fn a_request_is_prepared_whatever_the_case_of_its_method() {
    for (name, method) in [
        ("post", HttpMethod::Post),
        ("Put", HttpMethod::Put),
        ("dELETE", HttpMethod::Delete),
        ("PATCH", HttpMethod::Patch),
    ] {
        let plan = send_webhook_request(
            "http://localhost:1/x".to_string(),
            name.to_string(),
            headers(&[("a", "b")]),
            "{}".to_string(),
        );
        match plan {
            Ok(plan) => {
                assert_eq!(plan.method, method);
                assert_eq!(plan.url, "http://localhost:1/x");
                assert_eq!(plan.headers, headers(&[("a", "b")]));
                assert_eq!(plan.body, Some("{}".to_string()));
            }
            Err(message) => panic!("refused: {}", message),
        }
    }
}

#[test]
fn a_get_or_an_empty_body_carries_nothing() {
    let get = send_webhook_request(
        "u".to_string(),
        "get".to_string(),
        HashMap::new(),
        "{}".to_string(),
    );
    match get {
        Ok(plan) => {
            assert_eq!(plan.method, HttpMethod::Get);
            assert_eq!(plan.body, None);
        }
        Err(message) => panic!("refused: {}", message),
    }
    let empty =
        send_webhook_request("u".to_string(), "POST".to_string(), HashMap::new(), String::new());
    match empty {
        Ok(plan) => assert_eq!(plan.body, None),
        Err(message) => panic!("refused: {}", message),
    }
}

#[test]
fn an_unknown_method_is_refused() {
    for name in ["HEAD", "", "options", "GET POST"] {
        let out = send_webhook_request(
            "u".to_string(),
            name.to_string(),
            HashMap::new(),
            String::new(),
        );
        match out {
            Ok(plan) => panic!("prepared: {:?}", plan),
            Err(message) => assert_eq!(message, format!("Unsupported HTTP method: {}", name)),
        }
    }
}

#[test]
fn an_answer_below_400_has_no_error_reason() {
    for status in [100u16, 200, 204, 302, 399] {
        let out = build_send_response(status, headers(&[("k", "v")]), "fine".to_string());
        assert_eq!(out.status_code, status);
        assert_eq!(out.headers, headers(&[("k", "v")]));
        assert_eq!(out.body, "fine");
        assert_eq!(out.error_reason, None);
    }
}

#[test]
fn an_answer_from_400_quotes_its_body() {
    let out = build_send_response(400, HashMap::new(), "bad".to_string());
    assert_eq!(out.error_reason, Some("HTTP 400: bad".to_string()));
    let out = build_send_response(503, HashMap::new(), String::new());
    assert_eq!(out.error_reason, Some("HTTP 503: ".to_string()));
    assert_eq!(out.body, "");
}

#[test]
fn an_error_reason_quotes_200_characters_at_most() {
    let exact = "é".repeat(200);
    let out = build_send_response(404, HashMap::new(), exact.clone());
    assert_eq!(out.error_reason, Some(format!("HTTP 404: {}", exact)));
    let long = format!("{}tail", exact);
    let out = build_send_response(500, HashMap::new(), long.clone());
    assert_eq!(out.error_reason, Some(format!("HTTP 500: {}", exact)));
    assert_eq!(out.body, long);
}

#[test]
fn messages_and_addresses() {
    assert_eq!(send_failed("timed out"), "Request failed: timed out");
    assert_eq!(bind_address(8080), "0.0.0.0:8080");
    assert_eq!(bind_address(0), "0.0.0.0:0");
    assert_eq!(bind_address(65535), "0.0.0.0:65535");
    assert_eq!(
        bind_failed("0.0.0.0:80", "Permission denied"),
        "Failed to bind to 0.0.0.0:80: Permission denied"
    );
    assert_eq!(webhook_url(3000), "http://localhost:3000/webhook");
}

#[test]
fn the_listener_starts_once() {
    let mut state = WebhookState::new();
    assert_eq!(state.auth_method(), "");
    assert_eq!(state.auth_value(), "");
    assert!(state.get_webhook_requests().is_empty());
    assert_eq!(state.start_webhook_server("bearer".to_string(), "s".to_string()), Ok(()));
    assert_eq!(state.auth_method(), "bearer");
    assert_eq!(state.auth_value(), "s");
    assert_eq!(
        state.start_webhook_server("basic".to_string(), "t".to_string()),
        Err("Server is already running".to_string())
    );
    assert_eq!(state.auth_method(), "bearer");
    assert_eq!(state.auth_value(), "s");
}

#[test]
fn the_listener_stops_once() {
    let mut state = WebhookState::new();
    assert_eq!(state.stop_webhook_server(), Err("No server is running".to_string()));
    assert_eq!(state.start_webhook_server(String::new(), String::new()), Ok(()));
    assert_eq!(state.stop_webhook_server(), Ok(()));
    assert_eq!(state.stop_webhook_server(), Err("No server is running".to_string()));
    assert_eq!(state.start_webhook_server(String::new(), String::new()), Ok(()));
}

#[test]
fn a_start_that_could_not_bind_is_taken_back() {
    let mut state = WebhookState::new();
    assert_eq!(state.start_webhook_server("bearer".to_string(), "s".to_string()), Ok(()));
    state.start_failed();
    assert_eq!(state.stop_webhook_server(), Err("No server is running".to_string()));
    assert_eq!(state.start_webhook_server("basic".to_string(), "t".to_string()), Ok(()));
}

#[test]
fn deliveries_are_kept_in_order_until_cleared_or_restarted() {
    let mut state = WebhookState::new();
    assert_eq!(state.start_webhook_server(String::new(), String::new()), Ok(()));
    for body in ["one", "two", "three"] {
        let (record, _) = handle_webhook(
            state.auth_method(),
            state.auth_value(),
            None,
            None,
            HashMap::new(),
            body.to_string(),
        );
        state.record(record);
    }
    let bodies: Vec<&str> =
        state.get_webhook_requests().iter().map(|r| r.body.as_str()).collect();
    assert_eq!(bodies, vec!["one", "two", "three"]);
    state.clear_webhook_requests();
    assert!(state.get_webhook_requests().is_empty());

    let (record, _) = handle_webhook("", "", None, None, HashMap::new(), "four".to_string());
    state.record(record);
    assert_eq!(state.stop_webhook_server(), Ok(()));
    assert_eq!(state.get_webhook_requests().len(), 1);
    assert_eq!(state.start_webhook_server(String::new(), String::new()), Ok(()));
    assert!(state.get_webhook_requests().is_empty());
}
