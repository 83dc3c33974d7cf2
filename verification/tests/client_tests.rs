use llm_backend::client::{
    endpoint, failure_message, unreachable_message, ServiceInfo, ServiceManager,
};
use llm_backend::service::{Operation, StatusResponse};

#[test]
fn the_base_address_is_on_the_loopback_interface() {
    assert_eq!(ServiceInfo { port: 49152, started_at: 0 }.base_url(), "http://127.0.0.1:49152");
    assert_eq!(ServiceInfo { port: 1, started_at: 9 }.base_url(), "http://127.0.0.1:1");
}

#[test]
fn an_operation_is_called_below_the_base_address() {
    let base = ServiceInfo { port: 8080, started_at: 0 }.base_url();
    assert_eq!(endpoint(&base, Operation::Status), "http://127.0.0.1:8080/status");
    assert_eq!(endpoint(&base, Operation::Load), "http://127.0.0.1:8080/load");
    assert_eq!(endpoint(&base, Operation::Infer), "http://127.0.0.1:8080/infer");
    assert_eq!(endpoint(&base, Operation::Download), "http://127.0.0.1:8080/download");
}

#[test]
fn an_error_answer_is_quoted_by_its_message() {
    assert_eq!(
        failure_message("400 Bad Request", "{\"error\":\"No embedded model loaded\"}", Some("No embedded model loaded")),
        "Embedded service error (400 Bad Request): No embedded model loaded"
    );
}

#[test]
fn another_body_is_quoted_as_it_is() {
    assert_eq!(
        failure_message("502 Bad Gateway", "upstream down", None),
        "Embedded service responded with status 502 Bad Gateway: upstream down"
    );
    assert_eq!(
        failure_message("500 Internal Server Error", "", None),
        "Embedded service responded with status 500 Internal Server Error"
    );
}

#[test]
fn a_call_that_does_not_arrive_is_reported() {
    assert_eq!(
        unreachable_message("http://127.0.0.1:8080/status"),
        "Failed to call http://127.0.0.1:8080/status"
    );
}

#[test]
fn the_service_is_started_once() {
    let mut manager = ServiceManager::new();
    assert_eq!(manager.current_info(), None);
    let first = ServiceInfo { port: 40000, started_at: 1 };
    let second = ServiceInfo { port: 40001, started_at: 2 };
    assert_eq!(manager.ensure_service(first), first);
    assert_eq!(manager.current_info(), Some(first));
    assert_eq!(manager.ensure_service(second), first);
    assert_eq!(manager.current_info(), Some(first));
}

#[test]
fn a_snapshot_names_the_address_that_was_asked() {
    let status = StatusResponse { ready: true, model: None, uptime_s: 3, downloads: Vec::new() };
    let snapshot = ServiceInfo { port: 4711, started_at: 0 }.snapshot(status.clone());
    assert_eq!(snapshot.base_url, "http://127.0.0.1:4711");
    assert_eq!(snapshot.status, status);
}
