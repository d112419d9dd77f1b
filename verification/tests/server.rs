use microhttp::error::Phase;
use microhttp::server::{DefaultHttpServer, HttpServer, ServerTimeouts, SmallHttpServer};

#[test]
fn test_http_server_creation() {
    let server: DefaultHttpServer = HttpServer::new(8080);
    assert_eq!(server.port, 8080);
    assert_eq!(server.timeouts.accept_timeout, 10);
    assert_eq!(server.timeouts.read_timeout, 30);
    assert_eq!(server.timeouts.handler_timeout, 60);

    let server: SmallHttpServer = HttpServer::new(3000);
    assert_eq!(server.port, 3000);
}

#[test]
fn test_server_timeouts() {
    // Test default timeouts
    let timeouts = ServerTimeouts::default();
    assert_eq!(timeouts.accept_timeout, 10);
    assert_eq!(timeouts.read_timeout, 30);
    assert_eq!(timeouts.handler_timeout, 60);

    // Test custom timeouts
    let custom_timeouts = ServerTimeouts::new(5, 15, 45);
    assert_eq!(custom_timeouts.accept_timeout, 5);
    assert_eq!(custom_timeouts.read_timeout, 15);
    assert_eq!(custom_timeouts.handler_timeout, 45);

    // Test server with custom timeouts
    let server = HttpServer::<1024, 1024, 1024, 1024>::with_timeouts(8080, custom_timeouts);
    assert_eq!(server.port, 8080);
    assert_eq!(server.timeouts.accept_timeout, 5);
    assert_eq!(server.timeouts.read_timeout, 15);
    assert_eq!(server.timeouts.handler_timeout, 45);
}

#[test]
fn test_max_response_size() {
    let server: SmallHttpServer = HttpServer::new(80);
    assert_eq!(server.max_response_size(), 1024);
    let server: DefaultHttpServer = HttpServer::new(80);
    assert_eq!(server.max_response_size(), 4096);
}

#[test]
fn test_phase_budgets() {
    let timeouts = ServerTimeouts::new(7, 11, 13);
    assert_eq!(timeouts.for_phase(Phase::Accept), 7);
    assert_eq!(timeouts.for_phase(Phase::Read), 11);
    assert_eq!(timeouts.for_phase(Phase::Handler), 13);
}
