use telemetry::vendor::SdkSession;
use telemetry::unsupported_gpu_percent;

/// One query against a session of a mocked SDK whose opening always fails.
fn query(session: &mut SdkSession<u8>, opens: &mut u32) -> Option<u8> {
    if session.needs_open() {
        *opens += 1;
        session.record_open(None);
    }
    session.handle().copied()
}

#[test]
fn failed_open_is_not_retried() {
    let mut session: SdkSession<u8> = SdkSession::new();
    let mut opens = 0;
    assert_eq!(query(&mut session, &mut opens), None);
    assert_eq!(opens, 1);
    assert_eq!(query(&mut session, &mut opens), None);
    assert_eq!(opens, 1);
    assert!(!session.needs_open());
}

#[test]
fn open_session_keeps_its_handle() {
    let mut session: SdkSession<u8> = SdkSession::new();
    assert!(session.needs_open());
    session.record_open(Some(9));
    assert!(!session.needs_open());
    assert_eq!(session.handle(), Some(&9));
}

#[test]
fn nvml_session_is_opened_once() {
    let mut session = SdkSession::new();
    let first = session.current_gpu_percent();
    assert!(!session.needs_open());
    let second = session.current_gpu_percent();
    assert!(!session.needs_open());
    if session.handle().is_none() {
        assert_eq!(first, None);
        assert_eq!(second, None);
    }
}

#[test]
fn unsupported_platform_has_no_gpu_reading() {
    for _ in 0..3 {
        assert_eq!(unsupported_gpu_percent(), None);
    }
}
