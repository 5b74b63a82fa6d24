//! What each error says.

use mochi::error::Error;
use mochi::model::WindowId;
use mochi::rules::ApplicationIdentifier;

#[test]
fn every_error_says_what_is_wrong() {
    let cases: [(Error, &str); 14] = [
        (Error::NoFocusedMonitor, "no monitor is focused"),
        (Error::NoFocusedWorkspace(2), "monitor 2 has no focused workspace"),
        (Error::NoFocusedWindow, "no window is focused"),
        (Error::NoFocusedContainer, "no container is focused"),
        (Error::MonitorNotFound(10), "monitor 10 does not exist"),
        (
            Error::WorkspaceNotFound { monitor: 1, workspace: 7 },
            "workspace 7 does not exist on monitor 1",
        ),
        (
            Error::WorkspaceNameNotFound("say \"hi\"".to_owned()),
            "no workspace is named \"say \\\"hi\\\"\"",
        ),
        (Error::WindowNotFound(WindowId(255)), "window 0xff is not managed"),
        (
            Error::WorkspaceIndexOutOfRange(9),
            "workspace index 9 is out of range, at most 9 workspaces are supported",
        ),
        (Error::NothingToDo("there is only one window"), "there is only one window"),
        (
            Error::Parse { kind: "direction", value: "a\tb".to_owned() },
            "\"a\\tb\" is not a valid direction",
        ),
        (
            Error::InvalidRegex { pattern: "(".to_owned(), message: "unclosed group".to_owned() },
            "invalid regular expression \"(\": unclosed group",
        ),
        (
            Error::EmptyRuleId { kind: ApplicationIdentifier::Class },
            "a Class rule has an empty id, which would match every window",
        ),
        (Error::Json("expected value".to_owned()), "invalid json: expected value"),
    ];
    for (error, message) in cases {
        assert_eq!(error.to_string(), message);
    }
}

#[test]
fn an_error_of_the_json_reader_keeps_its_words() {
    let failure = serde_json::from_str::<u32>("no").unwrap_err();
    let words = failure.to_string();
    assert_eq!(Error::from(failure), Error::Json(words));
}
