use demo_lambda_axum::infra::InfraError;
use demo_lambda_axum::lease::{LeaseAction, LeaseEvent, LeasePool, LeaseState, POOL_MAX_SIZE};

#[test]
fn pool_holds_one_connection() {
    assert_eq!(POOL_MAX_SIZE, 1);
    let pool = LeasePool::new();
    assert_eq!(pool.state(), LeaseState { max_size: 1, held: 0, waiting: 0 });
}

#[test]
fn pool_without_room_is_refused() {
    assert!(LeasePool::with_max_size(0).is_none());
    let pool = LeasePool::with_max_size(3).unwrap();
    assert_eq!(pool.state(), LeaseState { max_size: 3, held: 0, waiting: 0 });
}

#[test]
fn first_lease_is_granted() {
    let mut pool = LeasePool::new();
    assert_eq!(pool.step(LeaseEvent::Acquire), LeaseAction::Grant);
    assert_eq!(pool.state(), LeaseState { max_size: 1, held: 1, waiting: 0 });
}

#[test]
fn second_lease_waits_until_release() {
    let mut pool = LeasePool::new();
    assert_eq!(pool.step(LeaseEvent::Acquire), LeaseAction::Grant);
    assert_eq!(pool.step(LeaseEvent::Acquire), LeaseAction::Wait);
    assert_eq!(pool.state(), LeaseState { max_size: 1, held: 1, waiting: 1 });
    assert_eq!(pool.step(LeaseEvent::Release), LeaseAction::HandOver);
    assert_eq!(pool.state(), LeaseState { max_size: 1, held: 1, waiting: 0 });
    assert_eq!(pool.step(LeaseEvent::Release), LeaseAction::Return);
    assert_eq!(pool.state(), LeaseState { max_size: 1, held: 0, waiting: 0 });
}

#[test]
fn released_connection_serves_the_next_request() {
    let mut pool = LeasePool::new();
    for _ in 0..5 {
        assert_eq!(pool.step(LeaseEvent::Acquire), LeaseAction::Grant);
        assert_eq!(pool.step(LeaseEvent::Release), LeaseAction::Return);
    }
    assert_eq!(pool.state(), LeaseState { max_size: 1, held: 0, waiting: 0 });
}

#[test]
fn release_without_a_lease_is_ignored() {
    let mut pool = LeasePool::new();
    assert_eq!(pool.step(LeaseEvent::Release), LeaseAction::Ignore);
    assert_eq!(pool.state(), LeaseState { max_size: 1, held: 0, waiting: 0 });
}

#[test]
fn never_more_than_one_lease_is_out() {
    let mut pool = LeasePool::new();
    let events = [
        LeaseEvent::Acquire,
        LeaseEvent::Acquire,
        LeaseEvent::Acquire,
        LeaseEvent::Release,
        LeaseEvent::Acquire,
        LeaseEvent::Release,
        LeaseEvent::Release,
        LeaseEvent::Release,
        LeaseEvent::Release,
        LeaseEvent::Acquire,
    ];
    for event in events {
        pool.step(event);
        assert!(pool.state().held <= 1);
    }
    assert_eq!(pool.state(), LeaseState { max_size: 1, held: 1, waiting: 0 });
}

#[test]
fn larger_pool_grants_up_to_its_size() {
    let mut pool = LeasePool::with_max_size(2).unwrap();
    assert_eq!(pool.step(LeaseEvent::Acquire), LeaseAction::Grant);
    assert_eq!(pool.step(LeaseEvent::Acquire), LeaseAction::Grant);
    assert_eq!(pool.step(LeaseEvent::Acquire), LeaseAction::Wait);
    assert_eq!(pool.state(), LeaseState { max_size: 2, held: 2, waiting: 1 });
}

#[test]
fn infrastructure_error_tells_the_client_nothing() {
    let errors = [
        InfraError::PoolAcquisition { detail: "postgres://user:pw@host/db timed out".to_owned() },
        InfraError::CertificateLoad { detail: "/etc/ca.pem: no such file".to_owned() },
        InfraError::CookieKeyDecode { detail: "invalid byte 0x21".to_owned() },
    ];
    for error in errors {
        let response = error.to_response();
        assert_eq!(response.status, 500);
        assert_eq!(response.content_type, "text/plain; charset=utf-8");
        assert_eq!(response.body, "Internal Server Error");
    }
}

#[test]
fn infrastructure_error_keeps_its_detail_for_the_log() {
    let error = InfraError::CertificateLoad { detail: "/etc/ca.pem: no such file".to_owned() };
    assert_eq!(error.detail(), "/etc/ca.pem: no such file");
    let error = InfraError::PoolAcquisition { detail: "a".to_owned() };
    assert_eq!(error.detail(), "a");
    let error = InfraError::CookieKeyDecode { detail: "b".to_owned() };
    assert_eq!(error.detail(), "b");
}

#[test]
fn infrastructure_error_is_logged_with_kind_and_detail() {
    let error = InfraError::PoolAcquisition { detail: "timed out".to_owned() };
    assert_eq!(error.kind(), "pool acquisition failed");
    assert_eq!(error.to_string(), "pool acquisition failed: timed out");
    let error = InfraError::CertificateLoad { detail: "no such file".to_owned() };
    assert_eq!(error.to_string(), "certificate load failed: no such file");
    let error = InfraError::CookieKeyDecode { detail: String::new() };
    assert_eq!(error.to_string(), "cookie key decode failed: ");
}
