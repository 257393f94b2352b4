use deno_rider::error::{Error, ErrorKind};

#[test]
fn execution_error_carries_the_diagnostic() {
    let error = Error::execution_error(Some(String::from("ReferenceError: x is not defined")));
    assert_eq!(
        error,
        Error {
            message: Some(String::from("ReferenceError: x is not defined")),
            name: ErrorKind::ExecutionError,
            value: None,
        }
    );
}

#[test]
fn execution_error_may_lack_a_diagnostic() {
    let error = Error::execution_error(None);
    assert_eq!(error, Error { message: None, name: ErrorKind::ExecutionError, value: None });
}

#[test]
fn conversion_error_has_no_payload() {
    let error = Error::conversion_error();
    assert_eq!(error, Error { message: None, name: ErrorKind::ConversionError, value: None });
}

#[test]
fn dead_runtime_error_has_no_payload() {
    let error = Error::dead_runtime_error();
    assert_eq!(error, Error { message: None, name: ErrorKind::DeadRuntimeError, value: None });
}

#[test]
fn promise_rejection_carries_the_value() {
    let error = Error::promise_rejection(String::from("\"boom\""));
    assert_eq!(
        error,
        Error {
            message: None,
            name: ErrorKind::PromiseRejection,
            value: Some(String::from("\"boom\"")),
        }
    );
}

#[test]
fn kinds_have_their_atoms() {
    assert_eq!(ErrorKind::ExecutionError.atom(), "execution_error");
    assert_eq!(ErrorKind::ConversionError.atom(), "conversion_error");
    assert_eq!(ErrorKind::DeadRuntimeError.atom(), "dead_runtime_error");
    assert_eq!(ErrorKind::PromiseRejection.atom(), "promise_rejection");
}

#[test]
fn errors_can_be_cloned_and_compared() {
    let error = Error::promise_rejection(String::from("1"));
    let copy = error.clone();
    assert_eq!(error, copy);
    assert_ne!(error, Error::conversion_error());
}
