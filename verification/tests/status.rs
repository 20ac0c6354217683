use bb8_oracle::{is_broken, SessionStatus, StatusReading};

#[test]
fn normal_status_is_not_broken() {
    let reading: StatusReading = Ok(SessionStatus::Normal);
    assert!(!is_broken(&reading));
}

#[test]
fn not_connected_status_is_broken() {
    let reading: StatusReading = Ok(SessionStatus::NotConnected);
    assert!(is_broken(&reading));
}

#[test]
fn closed_status_is_broken() {
    let reading: StatusReading = Ok(SessionStatus::Closed);
    assert!(is_broken(&reading));
}

#[test]
fn unreadable_status_is_broken() {
    let reading: StatusReading = Err(oracle::Error::new(
        oracle::ErrorKind::InternalError,
        "unexpected server status 7",
    ));
    assert!(is_broken(&reading));
}

#[test]
fn status_values_compare_by_variant() {
    assert_eq!(SessionStatus::Normal, SessionStatus::Normal);
    assert_ne!(SessionStatus::Normal, SessionStatus::NotConnected);
    assert_ne!(SessionStatus::NotConnected, SessionStatus::Closed);
    let copy = SessionStatus::Closed;
    assert_eq!(copy, SessionStatus::Closed);
}
