use backend_supervisor::config::Config;
use backend_supervisor::http::{probe_succeeded, readiness_request, request_for, response_status};

#[test]
fn request_names_path_host_and_port() {
    let request = readiness_request("127.0.0.1", 8000, "/health");
    assert_eq!(
        request,
        b"GET /health HTTP/1.1\r\nHost: 127.0.0.1:8000\r\nConnection: close\r\n\r\n".to_vec()
    );
}

#[test]
fn request_adds_a_missing_leading_slash() {
    assert_eq!(
        readiness_request("localhost", 80, "ready"),
        b"GET /ready HTTP/1.1\r\nHost: localhost:80\r\nConnection: close\r\n\r\n".to_vec()
    );
    assert_eq!(
        readiness_request("localhost", 80, ""),
        b"GET / HTTP/1.1\r\nHost: localhost:80\r\nConnection: close\r\n\r\n".to_vec()
    );
}

#[test]
fn request_writes_every_port_in_decimal() {
    for &(port, text) in &[(0u16, "0"), (7, "7"), (10, "10"), (443, "443"), (8080, "8080"), (65535, "65535")] {
        let expected = format!("GET / HTTP/1.1\r\nHost: h:{}\r\nConnection: close\r\n\r\n", text);
        assert_eq!(readiness_request("h", port, "/"), expected.into_bytes());
    }
}

#[test]
fn request_for_a_configuration_uses_its_endpoint() {
    let config = Config {
        command: String::from("python"),
        args: vec![String::from("-m"), String::from("uvicorn")],
        cwd: String::from("."),
        host: String::from("127.0.0.1"),
        port: 8000,
        readiness_path: String::from("/docs"),
        poll_interval_ms: 100,
        ready_timeout_ms: 2_000,
        health_interval_ms: 1_000,
        max_restart_attempts: 3,
        base_delay_ms: 100,
        max_delay_ms: 1_000,
        min_uptime_ms: 5_000,
        shutdown_grace_ms: 2_000,
    };
    assert_eq!(
        request_for(&config),
        b"GET /docs HTTP/1.1\r\nHost: 127.0.0.1:8000\r\nConnection: close\r\n\r\n".to_vec()
    );
}

#[test]
fn status_is_read_off_the_status_line() {
    assert_eq!(response_status(b"HTTP/1.1 200 OK\r\n\r\n"), Some(200));
    assert_eq!(response_status(b"HTTP/1.0 404 Not Found\r\n"), Some(404));
    assert_eq!(response_status(b"HTTP/1.1 503"), Some(503));
    assert_eq!(response_status(b"HTTP/2.0 299 Odd"), Some(299));
    assert_eq!(response_status(b"HTTP/1.1 007 Bond"), Some(7));
}

#[test]
fn status_of_a_malformed_response_is_none() {
    assert_eq!(response_status(b""), None);
    assert_eq!(response_status(b"HTTP/1.1 20"), None);
    assert_eq!(response_status(b"http/1.1 200 OK"), None);
    assert_eq!(response_status(b"HTTP/1.1  200 OK"), None);
    assert_eq!(response_status(b"HTTP/1,1 200 OK"), None);
    assert_eq!(response_status(b"HTTP/x.1 200 OK"), None);
    assert_eq!(response_status(b"HTTP/1.1 2x0 OK"), None);
    assert_eq!(response_status(b"ICY 200 OK\r\n\r\n"), None);
    assert_eq!(response_status(b" HTTP/1.1 200 OK"), None);
}

#[test]
fn only_status_two_hundred_to_two_ninety_nine_succeeds() {
    assert!(probe_succeeded(b"HTTP/1.1 200 OK\r\n\r\n"));
    assert!(probe_succeeded(b"HTTP/1.1 204 No Content\r\n\r\n"));
    assert!(probe_succeeded(b"HTTP/1.1 299 Custom\r\n\r\n"));
    assert!(!probe_succeeded(b"HTTP/1.1 199 Early\r\n\r\n"));
    assert!(!probe_succeeded(b"HTTP/1.1 300 Multiple Choices\r\n\r\n"));
    assert!(!probe_succeeded(b"HTTP/1.1 404 Not Found\r\n\r\n"));
    assert!(!probe_succeeded(b"HTTP/1.1 500 Internal Server Error\r\n\r\n"));
    assert!(!probe_succeeded(b""));
    assert!(!probe_succeeded(b"garbage that is long enough"));
}
