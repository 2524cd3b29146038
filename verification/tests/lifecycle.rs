use skinbridge::session::FeedPhase;
use skinbridge::session::FeedSession;

#[test]
fn session_reaches_subscribed() {
    let mut s = FeedSession::new();
    assert_eq!(s.current_phase(), FeedPhase::Starting);
    s.on_sdb_connected();
    assert_eq!(s.current_phase(), FeedPhase::Connected);
    s.on_subscription_applied();
    assert_eq!(s.current_phase(), FeedPhase::Subscribed);
}

#[test]
fn connect_error_exits_with_one() {
    let mut s = FeedSession::new();
    let code = s.on_sdb_connect_error();
    assert_eq!(code, 1);
    assert_eq!(s.current_phase(), FeedPhase::Exited { code: 1 });
}

#[test]
fn graceful_disconnect_exits_with_zero() {
    let mut s = FeedSession::new();
    s.on_sdb_connected();
    s.on_subscription_applied();
    let code = s.on_sdb_disconnected(false);
    assert_eq!(code, 0);
    assert_eq!(s.current_phase(), FeedPhase::Exited { code: 0 });
}

#[test]
fn disconnect_with_error_exits_with_one() {
    let mut s = FeedSession::new();
    s.on_sdb_connected();
    let code = s.on_sdb_disconnected(true);
    assert_eq!(code, 1);
    assert_eq!(s.current_phase(), FeedPhase::Exited { code: 1 });
}

#[test]
fn subscription_error_is_not_fatal() {
    let mut s = FeedSession::new();
    s.on_sdb_connected();
    s.on_subscription_error();
    assert_eq!(s.current_phase(), FeedPhase::Connected);
}
