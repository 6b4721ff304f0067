use std::io::{Error as SystemError, ErrorKind};

use task_runner::error::{render_debug, Cause, CustomError, RequestCause};

fn missing_file() -> SystemError {
    SystemError::from_raw_os_error(2)
}

fn transport_error() -> reqwest::Error {
    match reqwest::blocking::get("no scheme in this address") {
        Err(e) => e,
        Ok(_) => panic!("an address without a scheme was accepted"),
    }
}

#[test]
fn display_of_read_failure_is_its_sentence() {
    let failure = CustomError::FileReadError(missing_file());
    assert_eq!(failure.display_text(), "failed to read the key file");
}

#[test]
fn display_of_request_failure_is_its_sentence() {
    let failure = CustomError::RequestError(RequestCause::Client(transport_error()));
    assert_eq!(failure.display_text(), "failed to request on the url");
    let failure = CustomError::RequestError(RequestCause::Status(304));
    assert_eq!(failure.display_text(), "failed to request on the url");
}

#[test]
fn display_of_delete_failure_is_its_sentence() {
    let failure = CustomError::FileDeleteError(missing_file());
    assert_eq!(failure.display_text(), "failed to delete the key file");
}

#[test]
fn display_does_not_depend_on_the_cause() {
    let one = CustomError::FileReadError(SystemError::new(ErrorKind::NotFound, "first"));
    let other = CustomError::FileReadError(SystemError::new(ErrorKind::PermissionDenied, "second"));
    assert_eq!(one.display_text(), other.display_text());
}

#[test]
fn debug_of_read_failure_adds_the_cause() {
    let failure = CustomError::FileReadError(SystemError::new(ErrorKind::NotFound, "no key here"));
    assert_eq!(
        failure.debug_text(),
        "failed to read the key file\nThis is caused by: no key here\n"
    );
}

#[test]
fn debug_of_delete_failure_adds_the_cause() {
    let failure = CustomError::FileDeleteError(SystemError::new(ErrorKind::Other, "still open"));
    assert_eq!(
        failure.debug_text(),
        "failed to delete the key file\nThis is caused by: still open\n"
    );
}

#[test]
fn debug_of_request_failure_adds_the_cause() {
    let cause = transport_error();
    let message = cause.to_string();
    assert!(!message.is_empty());
    let failure = CustomError::RequestError(RequestCause::Client(cause));
    assert_eq!(
        failure.debug_text(),
        format!("failed to request on the url\nThis is caused by: {}\n", message)
    );
}

#[test]
fn debug_of_an_operating_system_failure_names_it() {
    let failure = CustomError::FileReadError(missing_file());
    let expected = format!(
        "failed to read the key file\nThis is caused by: {}\n",
        missing_file()
    );
    assert_eq!(failure.debug_text(), expected);
}

#[test]
fn debug_puts_the_cause_on_the_second_line() {
    let failure = CustomError::FileReadError(SystemError::new(ErrorKind::NotFound, "boom"));
    let text = failure.debug_text();
    let mut lines = text.lines();
    assert_eq!(lines.next(), Some("failed to read the key file"));
    assert_eq!(lines.next(), Some("This is caused by: boom"));
    assert_eq!(lines.next(), None);
}

#[test]
fn debug_of_an_unsuccessful_status_names_the_status() {
    let failure = CustomError::RequestError(RequestCause::Status(304));
    assert_eq!(
        failure.debug_text(),
        "failed to request on the url\nThis is caused by: unsuccessful HTTP status 304\n"
    );
}

#[test]
fn the_message_of_a_status_holds_its_decimal_digits() {
    assert_eq!(Cause::Status(304).message(), "unsuccessful HTTP status 304");
    assert_eq!(Cause::Status(100).message(), "unsuccessful HTTP status 100");
    assert_eq!(Cause::Status(999).message(), "unsuccessful HTTP status 999");
    assert_eq!(Cause::Status(0).message(), "unsuccessful HTTP status 0");
    assert_eq!(Cause::Status(7).message(), "unsuccessful HTTP status 7");
    assert_eq!(Cause::Status(10).message(), "unsuccessful HTTP status 10");
    assert_eq!(Cause::Status(65535).message(), "unsuccessful HTTP status 65535");
}

#[test]
fn source_of_a_status_failure_is_the_status() {
    let failure = CustomError::RequestError(RequestCause::Status(302));
    match failure.source() {
        Some(Cause::Status(code)) => assert_eq!(code, 302),
        _ => panic!("a status failure wraps the status"),
    }
}

#[test]
fn debug_starts_with_display() {
    let failure = CustomError::FileDeleteError(missing_file());
    let shown = failure.display_text();
    assert!(failure.debug_text().starts_with(&shown));
}

#[test]
fn render_debug_with_a_cause() {
    assert_eq!(
        render_debug("headline", Some("reason")),
        "headline\nThis is caused by: reason\n"
    );
}

#[test]
fn render_debug_without_a_cause() {
    assert_eq!(render_debug("headline", None), "headline\n");
}

#[test]
fn render_debug_of_empty_texts() {
    assert_eq!(render_debug("", Some("")), "\nThis is caused by: \n");
    assert_eq!(render_debug("", None), "\n");
}

#[test]
fn source_of_read_failure_is_the_system_cause() {
    let failure = CustomError::FileReadError(missing_file());
    match failure.source() {
        Some(Cause::System(e)) => {
            assert_eq!(e.kind(), ErrorKind::NotFound);
            assert_eq!(e.raw_os_error(), Some(2));
        }
        _ => panic!("a read failure wraps a failure of the operating system"),
    }
}

#[test]
fn source_of_delete_failure_is_the_system_cause() {
    let failure = CustomError::FileDeleteError(SystemError::new(ErrorKind::PermissionDenied, "locked"));
    match failure.source() {
        Some(Cause::System(e)) => {
            assert_eq!(e.kind(), ErrorKind::PermissionDenied);
            assert_eq!(e.to_string(), "locked");
        }
        _ => panic!("a delete failure wraps a failure of the operating system"),
    }
}

#[test]
fn source_of_request_failure_is_the_transport_cause() {
    let cause = transport_error();
    let message = cause.to_string();
    let failure = CustomError::RequestError(RequestCause::Client(cause));
    match failure.source() {
        Some(Cause::Transport(e)) => {
            assert!(e.is_builder());
            assert_eq!(e.to_string(), message);
        }
        _ => panic!("a request failure wraps a failure of the HTTP client"),
    }
}

#[test]
fn cause_message_is_its_display_text() {
    let system = SystemError::new(ErrorKind::NotFound, "gone");
    assert_eq!(Cause::System(&system).message(), "gone");
    let transport = transport_error();
    assert_eq!(Cause::Transport(&transport).message(), transport.to_string());
}

#[test]
fn a_transport_error_converts_to_a_request_failure() {
    let cause = transport_error();
    let message = cause.to_string();
    let failure = CustomError::from(cause);
    match failure {
        CustomError::RequestError(RequestCause::Client(e)) => assert_eq!(e.to_string(), message),
        _ => panic!("a transport error becomes a request failure"),
    }
}
