//! The decisions of the daemon and of its clients: what the daemon does with
//! each request, what it answers once the editor is done, and how a client
//! reads that answer.

use vstd::prelude::*;

use crate::editor::{default_title, editor_text, EditorResult, EditorText};
use crate::ipc::{Request, Response};

verus! {

/// What the daemon does with a request.
#[derive(Debug, Clone, PartialEq)]
pub enum ServerAction {
    /// Open the editor with these settings, then answer with what it gives
    /// back (see [`response_for_editor`]).
    OpenEditor(EditorText),
    /// Answer with this response and keep serving.
    Reply(Response),
    /// Answer with this response, remove the socket and stop.
    ReplyAndShutdown(Response),
}

/// Whether `t` holds the requested initial text and title, with an empty
/// text and the title `TermPop` standing in for what was not requested.
pub open spec fn editor_text_for(t: EditorText, initial_text: Option<String>, title: Option<String>) -> bool {
    &&& t.initial_text@ == match initial_text {
        Some(s) => s@,
        None => Seq::<char>::empty(),
    }
    &&& t.title@ == match title {
        Some(s) => s@,
        None => default_title(),
    }
}

/// The editor settings of an `Open` request take the requested title
/// whenever one is given and `TermPop` only when none is, whatever the initial
/// text; and the requested initial text whenever one is given and an empty
/// text only when none is, whatever the title.
pub proof fn lemma_open_settings_independent(t: EditorText, initial_text: Option<String>, title: Option<String>)
    requires
        editor_text_for(t, initial_text, title),
    ensures
        title matches Some(s) ==> t.title@ == s@,
        title is None ==> t.title@ == "TermPop"@,
        initial_text matches Some(s) ==> t.initial_text@ == s@,
        initial_text is None ==> t.initial_text@.len() == 0,
{
}

/// What the daemon does with `req`: an `Open` request opens the editor with
/// the requested text and title (empty text and the title `TermPop` where
/// none is given); `Status` is answered with `running: true` and `hotkey`,
/// the hotkey the daemon is configured with; `Shutdown` is acknowledged and
/// stops the daemon.
pub fn handle_request(req: Request, hotkey: &str) -> (a: ServerAction)
    ensures
        match req {
            Request::Open { initial_text, title } => match a {
                ServerAction::OpenEditor(t) => {
                    &&& editor_text_for(t, initial_text, title)
                    &&& (title matches Some(s) ==> t.title@ == s@)
                    &&& (title is None ==> t.title@ == "TermPop"@)
                    &&& (initial_text matches Some(s) ==> t.initial_text@ == s@)
                    &&& (initial_text is None ==> t.initial_text@.len() == 0)
                },
                _ => false,
            },
            Request::Status => match a {
                ServerAction::Reply(Response::Status { running, hotkey: reported }) => running
                    && reported@ == hotkey@,
                _ => false,
            },
            Request::Shutdown => a == ServerAction::ReplyAndShutdown(Response::Acknowledged),
        },
{
    match req {
        Request::Open { initial_text, title } => {
            let ghost (i0, t0) = (initial_text, title);
            let t = editor_text(initial_text, title);
            assert(editor_text_for(t, i0, t0));
            ServerAction::OpenEditor(t)
        },
        Request::Status => ServerAction::Reply(
            Response::Status { running: true, hotkey: String::from_str(hotkey) },
        ),
        Request::Shutdown => ServerAction::ReplyAndShutdown(Response::Acknowledged),
    }
}

/// The answer to an `Open` request, by its text and its `cancelled` flag:
/// submitted text comes back as it is with `cancelled: false`; a cancelled
/// session, or an editor that could not be reached (`None`), comes back as
/// an empty text with `cancelled: true`.
pub open spec fn result_response_of(outcome: Option<EditorResult>) -> (Seq<char>, bool) {
    match outcome {
        Some(EditorResult::Submitted(text)) => (text@, false),
        _ => (Seq::<char>::empty(), true),
    }
}

/// The daemon's answer to an `Open` request once the editor is done, where
/// `None` stands for an editor that could not be reached or never answered.
pub fn response_for_editor(outcome: Option<EditorResult>) -> (r: Response)
    ensures
        match r {
            Response::Result { text, cancelled } => (text@, cancelled) == result_response_of(
                outcome,
            ),
            _ => false,
        },
{
    match outcome {
        Some(EditorResult::Submitted(text)) => Response::Result { text, cancelled: false },
        _ => Response::Result { text: String::new(), cancelled: true },
    }
}

/// A reply that a client did not expect for its request.
#[derive(Debug, Clone, Copy, PartialEq, Eq, Structural)]
pub enum ProtocolError {
    UnexpectedResponse,
}

/// The session that a client reads from a result with this text and flag:
/// a cancelled session (`None`) where the flag is set, else the text.
pub open spec fn session_of(text: Seq<char>, cancelled: bool) -> Option<Seq<char>> {
    if cancelled {
        None
    } else {
        Some(text)
    }
}

/// How a client reads the daemon's answer to an `Open` request: a result
/// marked cancelled is a cancelled session, any other result hands back its
/// text, and an answer of another kind is an error.
pub fn editor_result_from_response(resp: Response) -> (r: Result<EditorResult, ProtocolError>)
    ensures
        match resp {
            Response::Result { text, cancelled } => match r {
                Ok(session) => session@ == session_of(text@, cancelled),
                Err(_) => false,
            },
            _ => r == Err::<EditorResult, ProtocolError>(ProtocolError::UnexpectedResponse),
        },
{
    match resp {
        Response::Result { text, cancelled } => {
            if cancelled {
                Ok(EditorResult::Cancelled)
            } else {
                Ok(EditorResult::Submitted(text))
            }
        },
        _ => Err(ProtocolError::UnexpectedResponse),
    }
}

/// The text of a boolean.
pub open spec fn bool_text(b: bool) -> Seq<char> {
    if b { "true"@ } else { "false"@ }
}

/// The line that `termpop status` prints for the daemon's answer:
/// `running: <running>, hotkey: <hotkey>` for a status, `None` for an
/// answer of another kind.
pub fn describe_status(resp: &Response) -> (line: Option<String>)
    ensures
        match resp {
            Response::Status { running, hotkey } => match line {
                Some(l) => l@ == "running: "@ + bool_text(*running) + ", hotkey: "@ + hotkey@,
                None => false,
            },
            _ => line is None,
        },
{
    match resp {
        Response::Status { running, hotkey } => {
            let mut line = String::from_str("running: ");
            if *running {
                line.append("true");
            } else {
                line.append("false");
            }
            line.append(", hotkey: ");
            line.append(hotkey.as_str());
            Some(line)
        },
        _ => None,
    }
}

/// What a client reads back is what the editor gave the daemon: submitted
/// text arrives unchanged, a cancelled session arrives cancelled, and an
/// editor that the daemon could not reach reads as a cancelled session.
pub proof fn lemma_open_roundtrip(outcome: Option<EditorResult>)
    ensures
        session_of(result_response_of(outcome).0, result_response_of(outcome).1) == match outcome {
            Some(session) => session@,
            None => None,
        },
{
}

} // verus!
