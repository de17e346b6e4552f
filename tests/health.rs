use chitchats::health::is_healthy_response;

#[test]
fn success_class_is_healthy() {
    assert!(is_healthy_response(Some(200)));
    assert!(is_healthy_response(Some(204)));
    assert!(is_healthy_response(Some(299)));
}

#[test]
fn other_statuses_are_unhealthy() {
    assert!(!is_healthy_response(Some(199)));
    assert!(!is_healthy_response(Some(300)));
    assert!(!is_healthy_response(Some(404)));
    assert!(!is_healthy_response(Some(500)));
    assert!(!is_healthy_response(Some(503)));
}

#[test]
fn failed_request_is_unhealthy() {
    assert!(!is_healthy_response(None));
}
