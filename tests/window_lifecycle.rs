use browser_window::window::{WindowError, WindowPhase, WindowState};

#[test]
fn open_window_is_usable() {
    let w = WindowState::open();
    assert_eq!(w.phase_now(), WindowPhase::Open);
    assert_eq!(w.handle_count(), 1);
    assert_eq!(w.check_access(), Ok(()));
}

#[test]
fn closed_window_with_handles_gives_defined_error() {
    let mut w = WindowState::open();
    assert!(w.acquire());
    w.request_close();
    assert_eq!(w.phase_now(), WindowPhase::CloseRequested);
    assert_eq!(w.check_access(), Err(WindowError::Closed));
    assert!(!w.confirm_closed());
    assert_eq!(w.check_access(), Err(WindowError::Closed));
    assert!(!w.release());
    assert_eq!(w.check_access(), Err(WindowError::Closed));
    assert!(w.release());
    assert_eq!(w.check_access(), Err(WindowError::Destroyed));
}

#[test]
fn freed_when_closed_after_last_handle_dropped() {
    let mut w = WindowState::open();
    assert!(!w.release());
    assert_eq!(w.handle_count(), 0);
    assert_eq!(w.check_access(), Ok(()));
    assert!(w.confirm_closed());
    assert_eq!(w.check_access(), Err(WindowError::Destroyed));
    assert!(!w.confirm_closed());
}

#[test]
fn destroyed_window_stays_destroyed() {
    let mut w = WindowState::open();
    w.confirm_closed();
    assert!(w.release());
    assert!(!w.acquire());
    assert!(!w.release());
    w.request_close();
    assert_eq!(w.phase_now(), WindowPhase::Closed);
    assert_eq!(w.check_access(), Err(WindowError::Destroyed));
}
