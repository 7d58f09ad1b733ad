use tarssh::metrics::{ClientError, Metrics, Token};
use tarssh::session::{Session, SessionAction, SessionEvent, SessionState, BANNER};

#[test]
fn session_waits_then_writes_each_delay() {
    let mut m = Metrics::new(0);
    let (_, t) = m.connect(10, 0).unwrap();
    let mut s = Session::new(t, 10);
    assert_eq!(s.state, SessionState::Connecting);
    assert_eq!(s.step(&mut m, SessionEvent::Accepted, 0), SessionAction::Sleep(10));
    for round in 1..=3u64 {
        assert_eq!(s.step(&mut m, SessionEvent::DelayElapsed, round * 10_000), SessionAction::Write);
        assert_eq!(s.step(&mut m, SessionEvent::Written, round * 10_000), SessionAction::Flush);
        assert_eq!(s.step(&mut m, SessionEvent::Flushed, round * 10_000), SessionAction::Sleep(10));
        let c = m.client(&t).unwrap();
        assert_eq!(c.sent_chunks, round);
        assert_eq!(c.sent_banners, round);
        assert_eq!(c.sent_eastereggs, 0);
    }
    assert_eq!(
        s.step(&mut m, SessionEvent::Failed, 35_000),
        SessionAction::Close(Ok((0, 35)))
    );
    assert_eq!(s.state, SessionState::Terminated);
    assert_eq!(m.connections(), 0);
    assert_eq!(m.client(&t), Err(ClientError::AlreadyDisconnected));
    assert_eq!(m.former().sent_banners_sum, 3);
    assert_eq!(m.former().connection_time, 35);
}

#[test]
fn session_fails_during_write() {
    let mut m = Metrics::new(0);
    let (_, t) = m.connect(10, 2000).unwrap();
    let mut s = Session::new(t, 1);
    s.step(&mut m, SessionEvent::Accepted, 2000);
    s.step(&mut m, SessionEvent::DelayElapsed, 3000);
    assert_eq!(s.step(&mut m, SessionEvent::Failed, 3500), SessionAction::Close(Ok((0, 1))));
    assert_eq!(m.former().sent_chunks_sum, 0);
    assert!(!s.expects(SessionEvent::Failed));
    assert!(!s.expects(SessionEvent::Accepted));
}

#[test]
fn session_close_reports_registry_fault() {
    let mut m = Metrics::new(0);
    let mut s = Session::new(Token { uid: 4 }, 1);
    s.step(&mut m, SessionEvent::Accepted, 0);
    assert_eq!(
        s.step(&mut m, SessionEvent::Failed, 0),
        SessionAction::Close(Err(ClientError::InvalidToken))
    );
    assert_eq!(m.former(), Metrics::new(0).former());
}

#[test]
fn session_expected_events() {
    let mut m = Metrics::new(0);
    let (_, t) = m.connect(1, 0).unwrap();
    let mut s = Session::new(t, 3);
    assert!(s.expects(SessionEvent::Accepted));
    assert!(!s.expects(SessionEvent::DelayElapsed));
    s.step(&mut m, SessionEvent::Accepted, 0);
    assert!(s.expects(SessionEvent::DelayElapsed));
    assert!(s.expects(SessionEvent::Failed));
    assert!(!s.expects(SessionEvent::Written));
    s.step(&mut m, SessionEvent::DelayElapsed, 3000);
    assert!(s.expects(SessionEvent::Written));
    assert!(!s.expects(SessionEvent::Flushed));
    s.step(&mut m, SessionEvent::Written, 3000);
    assert!(s.expects(SessionEvent::Flushed));
    assert!(!s.expects(SessionEvent::DelayElapsed));
}

#[test]
fn banner_is_ascii_line() {
    assert_eq!(BANNER, "bleep bloop\r\n");
}
