//! Tests for the Prometheus metrics endpoint: request routing and the bytes
//! of the responses, with the body encoded from a real registry.

use bpfagent::metrics::{metrics_response, not_found_response, request_path, route_request, Route};
use prometheus::{Encoder, IntGauge, Registry, TextEncoder};

/// Answer `request` the way the server does: the encoded registry for
/// `/metrics`, 404 for anything else.
fn serve(request: &str, registry: &Registry) -> String {
    match route_request(request) {
        Route::Metrics => {
            let mut body = Vec::new();
            TextEncoder::new()
                .encode(&registry.gather(), &mut body)
                .expect("encode");
            metrics_response(body.len(), &String::from_utf8_lossy(&body))
        }
        Route::NotFound => not_found_response().to_string(),
    }
}

fn registry_with_metric() -> Registry {
    let registry = Registry::new();
    let gauge = IntGauge::new("test_metric", "a test metric").expect("create gauge");
    gauge.set(42);
    registry.register(Box::new(gauge)).expect("register gauge");
    registry
}

#[test]
fn metrics_path_returns_200_with_metrics_body() {
    let response = serve(
        "GET /metrics HTTP/1.1\r\nHost: localhost\r\n\r\n",
        &registry_with_metric(),
    );
    assert!(response.starts_with("HTTP/1.1 200 OK"), "got: {}", response);
    assert!(response.contains("test_metric 42"), "got: {}", response);
}

#[test]
fn unknown_path_returns_404() {
    let response = serve("GET /nope HTTP/1.1\r\n\r\n", &Registry::new());
    assert!(response.starts_with("HTTP/1.1 404"), "got: {}", response);
    assert!(response.ends_with("Not Found"), "got: {}", response);
}

#[test]
fn empty_registry_still_returns_200() {
    let response = serve("GET /metrics HTTP/1.1\r\n\r\n", &Registry::new());
    assert!(response.starts_with("HTTP/1.1 200 OK"), "got: {}", response);
}

#[test]
fn request_path_is_the_second_word_of_the_first_line() {
    assert_eq!(request_path("GET /metrics HTTP/1.1\r\nHost: x\r\n\r\n"), "/metrics");
    assert_eq!(request_path("GET\r\n/metrics"), "/");
    assert_eq!(request_path(""), "/");
    assert_eq!(request_path("GET /metrics"), "/metrics");
    assert_eq!(route_request("GET /metrics/ HTTP/1.1"), Route::NotFound);
    assert_eq!(route_request(""), Route::NotFound);
}

#[test]
fn content_length_counts_body_bytes() {
    let response = metrics_response(5, "");
    assert_eq!(
        response,
        "HTTP/1.1 200 OK\r\nContent-Type: text/plain; charset=utf-8\r\nContent-Length: 5\r\n\r\n"
    );
    let body = "a_metric 1\n";
    let response = metrics_response(body.len(), body);
    assert!(response.ends_with("Content-Length: 11\r\n\r\na_metric 1\n"));
    assert_eq!(
        not_found_response(),
        "HTTP/1.1 404 Not Found\r\nContent-Type: text/plain\r\nContent-Length: 9\r\n\r\nNot Found"
    );
}
