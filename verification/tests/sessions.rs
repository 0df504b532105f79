use vpx::Kind;
use vpx::SessionGuard;

#[test]
fn teardown_is_handed_out_exactly_once() {
    let mut guard = SessionGuard::new();
    assert!(guard.release());
    assert!(!guard.release());
    assert!(!guard.release());
    assert!(!guard.release());
}

#[test]
fn each_session_has_its_own_guard() {
    let mut first = SessionGuard::new();
    let mut second = SessionGuard::new();
    assert!(first.release());
    assert!(second.release());
    assert!(!first.release());
    assert!(!second.release());
}

#[test]
fn interface_kinds_are_distinct() {
    assert_ne!(Kind::Encoder, Kind::Decoder);
    assert_eq!(Kind::Encoder, Kind::Encoder);
}
