//! Protocol commands and the requests they are sent as.
use vstd::prelude::*;
use crate::json::{object_text, object_to_text, quoted};
use crate::keys::{rendered, TypingData};
use crate::text::{owned, push_str};

verus! {

/// An HTTP method used by the protocol.
#[derive(Clone, Copy, Debug, PartialEq, Eq, Structural)]
pub enum Method {
    Get,
    Post,
}

/// One protocol operation with the payload it needs.
#[derive(Clone, Debug)]
pub enum Command {
    /// Read the text of the active alert.
    GetAlertText,
    /// Dismiss the active alert.
    DismissAlert,
    /// Accept the active alert.
    AcceptAlert,
    /// Type into the active alert's prompt.
    SendAlertText(TypingData),
}

/// A request ready for the transport: the method, the path under the
/// driver's base URL, and the JSON body text where there is one.
#[derive(Clone, Debug, PartialEq)]
pub struct RequestData {
    pub method: Method,
    pub path: String,
    pub body: Option<String>,
}

/// The abstract content of a request.
pub struct RequestView {
    pub method: Method,
    pub path: Seq<char>,
    pub body: Option<Seq<char>>,
}

impl View for RequestData {
    type V = RequestView;

    open spec fn view(&self) -> RequestView {
        RequestView {
            method: self.method,
            path: self.path@,
            body: match self.body {
                Some(b) => Some(b@),
                None => None,
            },
        }
    }
}

/// The method a command is sent with.
pub open spec fn method_of(c: Command) -> Method {
    match c {
        Command::GetAlertText => Method::Get,
        _ => Method::Post,
    }
}

/// The resource of the session that a command addresses.
pub open spec fn resource_of(c: Command) -> Seq<char> {
    match c {
        Command::GetAlertText => "/alert/text"@,
        Command::DismissAlert => "/alert/dismiss"@,
        Command::AcceptAlert => "/alert/accept"@,
        Command::SendAlertText(_) => "/alert/text"@,
    }
}

/// The path of a command in the session `sid`.
pub open spec fn path_of(sid: Seq<char>, c: Command) -> Seq<char> {
    "/session/"@ + sid + resource_of(c)
}

/// The JSON text of an object with the one member `name`, holding the
/// string `value`.
pub open spec fn single_member_text(name: Seq<char>, value: Seq<char>) -> Seq<char> {
    seq!['{'] + quoted(name) + seq![':'] + quoted(value) + seq!['}']
}

/// The body a command carries: none for a read, an empty object for dismiss
/// and accept, and `{"text": ...}` with the rendered typing input.
pub open spec fn body_of(c: Command) -> Option<Seq<char>> {
    match c {
        Command::GetAlertText => None,
        Command::DismissAlert => Some(seq!['{', '}']),
        Command::AcceptAlert => Some(seq!['{', '}']),
        Command::SendAlertText(keys) => Some(single_member_text("text"@, rendered(keys@))),
    }
}

/// The request that carries command `c` in the session `sid`.
pub open spec fn request_of(sid: Seq<char>, c: Command) -> RequestView {
    RequestView { method: method_of(c), path: path_of(sid, c), body: body_of(c) }
}

impl Command {
    /// The request for this command in the session `session_id`. Equal
    /// commands give equal requests.
    pub fn encode(&self, session_id: &str) -> (r: RequestData)
        ensures
            r@ == request_of(session_id@, *self),
    {
        let mut path = owned("/session/");
        push_str(&mut path, session_id);
        let method = match self {
            Command::GetAlertText => Method::Get,
            _ => Method::Post,
        };
        let body = match self {
            Command::GetAlertText => {
                push_str(&mut path, "/alert/text");
                None
            },
            Command::DismissAlert => {
                push_str(&mut path, "/alert/dismiss");
                Some(object_to_text(&Vec::new()))
            },
            Command::AcceptAlert => {
                push_str(&mut path, "/alert/accept");
                Some(object_to_text(&Vec::new()))
            },
            Command::SendAlertText(keys) => {
                push_str(&mut path, "/alert/text");
                let mut members: Vec<(String, String)> = Vec::new();
                members.push((owned("text"), keys.render()));
                let b = object_to_text(&members);
                proof {
                    assert(object_text(members@) =~= single_member_text("text"@, rendered(keys@)));
                }
                Some(b)
            },
        };
        proof {
            assert(object_text(Seq::<(String, String)>::empty()) =~= seq!['{', '}']);
        }
        let r = RequestData { method, path, body };
        proof {
            assert(r@.path =~= path_of(session_id@, *self));
            assert(r@.body =~= body_of(*self));
        }
        r
    }
}

} // verus!
