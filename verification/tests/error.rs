use bb8_oracle::PoolError;

fn fault_of_a_task_that_panics() -> tokio::task::JoinError {
    let runtime = tokio::runtime::Builder::new_current_thread()
        .build()
        .expect("a runtime without drivers can always be built");
    let joined: Result<(), tokio::task::JoinError> =
        runtime.block_on(runtime.spawn_blocking(|| panic!("the task gives up")));
    match joined {
        Err(fault) => fault,
        Ok(()) => unreachable!("the task panics"),
    }
}

#[test]
fn database_error_message() {
    let error = PoolError::Database(oracle::Error::new(
        oracle::ErrorKind::Other,
        "ORA-01017: invalid username/password",
    ));
    assert_eq!(
        error.message(),
        "database error: ORA-01017: invalid username/password"
    );
}

#[test]
fn database_error_message_with_blank_detail() {
    let error = PoolError::Database(oracle::Error::new(oracle::ErrorKind::Other, ""));
    assert_eq!(error.message(), "database error: blank error message");
}

#[test]
fn panic_error_message() {
    let fault = fault_of_a_task_that_panics();
    let detail = fault.to_string();
    let error = PoolError::Panic(fault);
    let message = error.message();
    assert_eq!(message, format!("operation panicked: {}", detail));
    assert!(message.starts_with("operation panicked: task "));
    assert!(message.contains("panicked"));
}

#[test]
fn the_two_kinds_read_differently() {
    let database = PoolError::Database(oracle::Error::new(oracle::ErrorKind::Other, "x"));
    let panic = PoolError::Panic(fault_of_a_task_that_panics());
    assert!(database.message().starts_with("database error: "));
    assert!(panic.message().starts_with("operation panicked: "));
    assert!(!panic.message().starts_with("database error: "));
}

#[test]
fn error_has_a_debug_form() {
    let database = PoolError::Database(oracle::Error::new(oracle::ErrorKind::Other, "x"));
    assert!(format!("{:?}", database).starts_with("Database("));
    let panic = PoolError::Panic(fault_of_a_task_that_panics());
    assert!(format!("{:?}", panic).starts_with("Panic("));
}

#[test]
fn database_message_of_a_driver_failure() {
    let failure = oracle::Error::new(oracle::ErrorKind::Other, "ORA-12541: no listener");
    assert_eq!(
        bb8_oracle::database_message(&failure),
        "database error: ORA-12541: no listener"
    );
    assert_eq!(
        PoolError::Database(failure).message(),
        "database error: ORA-12541: no listener"
    );
}

#[test]
fn panic_message_of_an_unfinished_task() {
    let fault = fault_of_a_task_that_panics();
    let expected = format!("operation panicked: {}", fault);
    assert_eq!(bb8_oracle::panic_message(&fault), expected);
    assert_eq!(PoolError::Panic(fault).message(), expected);
}
