//! The decisions around the pipes.

use mochi::client::pipe::{
    after_failed_open, outcome, Error, FaultKind, IoFault, Retry, PIPE_NAME, PIPE_PREFIX,
    PIPE_SUFFIX,
};
use mochi::client::security::current_user_only;
use mochi::client::subscribe::{Read, Step};
use mochi::client::{
    is_running, validate_pipe_name, Command, Notification, NotificationEvent, Response, Subscription,
    WindowRef,
};

#[test]
fn pipe_name_is_the_real_win32_spelling() {
    assert_eq!(PIPE_NAME, "\\\\.\\pipe\\mochi");
    assert!(PIPE_NAME.starts_with(PIPE_PREFIX));
    assert_eq!(PIPE_NAME, format!("{PIPE_PREFIX}{PIPE_SUFFIX}"));
}

#[test]
fn names_with_separators_are_rejected() {
    for bad in [
        "",
        ".",
        "..",
        "a\\b",
        "a/b",
        "a:b",
        "a\nb",
        // The reason this matters: `\\.\pipe\` + this is a writable file.
        r"..\..\C:\Users\someone\notes.txt",
        r"\\server\pipe\elsewhere",
    ] {
        assert!(validate_pipe_name(bad).is_err(), "{bad:?} should be rejected");
    }
    assert!(validate_pipe_name("mochi-bar").is_ok());
    assert!(validate_pipe_name(&"n".repeat(200)).is_ok());
    assert!(validate_pipe_name(&"n".repeat(201)).is_err());
}

#[test]
fn a_refused_name_is_invalid_input() {
    let refusal = |name: &str| {
        Error::Io(IoFault {
            kind: FaultKind::InvalidInput,
            code: None,
            message: format!("`{name}` is not a usable pipe name"),
        })
    };
    for bad in ["", ".", "..", "a\\b", "a/b", "a:b", "a\nb", PIPE_SUFFIX] {
        assert_eq!(validate_pipe_name(bad), Err(refusal(bad)));
        assert_eq!(Subscription::new(bad), Err(refusal(bad)));
    }
}

#[test]
fn the_command_pipe_is_not_for_subscribers() {
    assert!(validate_pipe_name(PIPE_SUFFIX).is_err());
    assert!(validate_pipe_name("mochi2").is_ok());
    assert!(Subscription::new("mochi").is_err());
}

#[test]
fn a_name_is_measured_in_bytes() {
    assert!(validate_pipe_name(&"\u{fc}".repeat(100)).is_ok());
    assert!(validate_pipe_name(&"\u{fc}".repeat(101)).is_err());
    assert_eq!(
        validate_pipe_name("a/b").unwrap_err().to_string(),
        "pipe I/O failed: `a/b` is not a usable pipe name"
    );
    assert!(validate_pipe_name("a\u{7f}b").is_err());
    assert!(validate_pipe_name("a\u{9f}b").is_err());
    assert!(validate_pipe_name("a\u{a0}b").is_ok());
}

#[test]
fn a_missing_pipe_means_nobody_is_listening() {
    assert_eq!(after_failed_open(Some(2), true), Retry::NotRunning);
    assert_eq!(after_failed_open(Some(3), false), Retry::NotRunning);
    assert_eq!(after_failed_open(Some(231), true), Retry::Again);
    assert_eq!(after_failed_open(Some(231), false), Retry::GiveUp);
    assert_eq!(after_failed_open(Some(5), true), Retry::GiveUp);
    assert_eq!(after_failed_open(None, true), Retry::GiveUp);
}

#[test]
fn something_that_refuses_is_still_running() {
    let denied = IoFault { kind: FaultKind::Other, code: Some(5), message: "denied".to_owned() };
    assert!(is_running(&Ok(())));
    assert!(!is_running(&Err(Error::NotRunning)));
    assert!(is_running(&Err(Error::Io(denied))));
}

#[test]
fn an_exchange_ends_in_an_answer_or_an_error() {
    assert_eq!(outcome(None), Err(Error::NoResponse));
    assert_eq!(outcome(Some(Response::Done)), Ok(Response::Done));
    let answer = Response::Query { answer: serde_json::Value::from(2) };
    assert_eq!(outcome(Some(answer.clone())), Ok(answer));
    let refused = outcome(Some(Response::error("no such monitor")));
    assert_eq!(refused, Err(Error::Daemon("no such monitor".to_owned())));
}

#[test]
fn client_errors_say_what_is_wrong() {
    assert_eq!(
        Error::NotRunning.to_string(),
        "mochi is not running (no pipe at \\\\.\\pipe\\mochi)"
    );
    assert_eq!(
        Error::NoResponse.to_string(),
        "mochi accepted the connection but closed it without answering"
    );
    assert_eq!(Error::Daemon("no".to_owned()).to_string(), "no");
}

#[test]
fn responses_know_whether_they_are_errors() {
    assert!(Response::Done.is_ok());
    assert_eq!(Response::Done.error_message(), None);
    let error = Response::error("boom");
    assert!(!error.is_ok());
    assert_eq!(error.error_message(), Some("boom"));
}

#[test]
fn a_subscription_survives_a_restart_of_the_daemon() {
    let mut subscription = Subscription::new("bar").unwrap();
    assert_eq!(subscription.name(), "bar");
    assert_eq!(subscription.path(), r"\\.\pipe\bar");
    assert_eq!(subscription.subscribe(), Command::SubscribePipe { name: "bar".into() });
    assert_eq!(subscription.unsubscribe(), Command::UnsubscribePipe { name: "bar".into() });
    assert!(subscription.must_wait());
    assert!(!subscription.waited(false));
    assert!(subscription.must_wait());
    assert!(subscription.waited(true));
    assert_eq!(subscription.after_read(Read::Notification), Step::Deliver);
    assert_eq!(subscription.after_read(Read::BadLine), Step::Skip);
    assert_eq!(subscription.after_read(Read::Failed(Some(5))), Step::Report);
    assert!(!subscription.must_wait());
    assert_eq!(subscription.after_read(Read::End), Step::Recycle);
    assert!(subscription.must_wait());
    assert!(subscription.waited(true));
    assert_eq!(subscription.after_read(Read::Failed(Some(109))), Step::Drop);
    assert!(subscription.must_wait());
    assert!(Subscription::new("a/b").is_err());
}

#[test]
fn notifications_carry_their_event() {
    let event = NotificationEvent::Manage { window: WindowRef::new(123, "Terminal", "wt.exe") };
    let plain = Notification::from(event.clone());
    assert_eq!(plain, Notification::new(event.clone()));
    assert_eq!(plain.state, None);
    let state = serde_json::Value::from(2);
    let full = plain.with_state(state.clone());
    assert_eq!(full.event, event);
    assert_eq!(full.state, Some(state));
    assert_eq!(WindowRef::default(), WindowRef::new(0, "", ""));
}

#[test]
fn only_this_account_is_on_the_list() {
    assert_eq!(
        current_user_only("S-1-5-21-1"),
        "D:P(A;;GA;;;SY)(A;;GA;;;BA)(A;;GA;;;S-1-5-21-1)"
    );
}
