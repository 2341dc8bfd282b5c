use termpop::daemon::{
    describe_status, editor_result_from_response, handle_request, response_for_editor,
    ProtocolError, ServerAction,
};
use termpop::editor::EditorResult;
use termpop::ipc::{Request, Response};

#[test]
fn open_request_opens_editor_with_defaults() {
    match handle_request(Request::Open { initial_text: None, title: None }, "Cmd+Shift+I") {
        ServerAction::OpenEditor(t) => {
            assert_eq!(t.initial_text, "");
            assert_eq!(t.title, "TermPop");
        }
        other => panic!("unexpected action {:?}", other),
    }
    match handle_request(Request::Open {
        initial_text: Some("test".to_string()),
        title: Some("Commit".to_string()),
    }, "Cmd+Shift+I") {
        ServerAction::OpenEditor(t) => {
            assert_eq!(t.initial_text, "test");
            assert_eq!(t.title, "Commit");
        }
        other => panic!("unexpected action {:?}", other),
    }
}

#[test]
fn status_request_reports_running() {
    assert_eq!(
        handle_request(Request::Status, "Cmd+Shift+I"),
        ServerAction::Reply(Response::Status { running: true, hotkey: "Cmd+Shift+I".to_string() })
    );
    assert_eq!(
        handle_request(Request::Status, "Ctrl+Alt+T"),
        ServerAction::Reply(Response::Status { running: true, hotkey: "Ctrl+Alt+T".to_string() })
    );
}

#[test]
fn shutdown_request_acknowledges_and_stops() {
    assert_eq!(
        handle_request(Request::Shutdown, "Cmd+Shift+I"),
        ServerAction::ReplyAndShutdown(Response::Acknowledged)
    );
}

#[test]
fn editor_outcomes_become_results() {
    assert_eq!(
        response_for_editor(Some(EditorResult::Submitted("result text".to_string()))),
        Response::Result { text: "result text".to_string(), cancelled: false }
    );
    assert_eq!(
        response_for_editor(Some(EditorResult::Cancelled)),
        Response::Result { text: String::new(), cancelled: true }
    );
    assert_eq!(
        response_for_editor(None),
        Response::Result { text: String::new(), cancelled: true }
    );
}

#[test]
fn client_reads_results() {
    assert_eq!(
        editor_result_from_response(Response::Result { text: "x".to_string(), cancelled: false }),
        Ok(EditorResult::Submitted("x".to_string()))
    );
    assert_eq!(
        editor_result_from_response(Response::Result { text: "x".to_string(), cancelled: true }),
        Ok(EditorResult::Cancelled)
    );
    assert_eq!(
        editor_result_from_response(Response::Acknowledged),
        Err(ProtocolError::UnexpectedResponse)
    );
}

#[test]
fn open_roundtrip_through_daemon() {
    for outcome in [EditorResult::Submitted("some text".to_string()), EditorResult::Cancelled] {
        let resp = response_for_editor(Some(outcome.clone()));
        assert_eq!(editor_result_from_response(resp), Ok(outcome));
    }
}

#[test]
fn status_line() {
    assert_eq!(
        describe_status(&Response::Status { running: true, hotkey: "Cmd+Shift+E".to_string() }),
        Some("running: true, hotkey: Cmd+Shift+E".to_string())
    );
    assert_eq!(describe_status(&Response::Acknowledged), None);
}
