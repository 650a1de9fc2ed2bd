//! The session handle: the one place where commands are turned into requests
//! and replies into results, and the typed alert operations built on it.
use vstd::prelude::*;
use crate::command::{request_of, Command, RequestData};
use crate::error::{Shape, WebDriverError, WebDriverResult};
use crate::json::{field, member, take_member, Json};
use crate::text::{owned, push_str};

verus! {

/// What the transport brought back for one request.
#[derive(Debug)]
pub enum Reply {
    /// The exchange did not complete; holds the transport's description.
    Failed(String),
    /// The driver answered with a status and a body, `None` where the body
    /// is not JSON.
    Received { status: u16, body: Option<Json> },
}

/// A status that reports success.
pub open spec fn is_success(status: u16) -> bool {
    200 <= status < 300
}

/// The string held by member `key` of `v`, where `v` is an object that has
/// such a member.
pub open spec fn string_member(v: Option<Json>, key: Seq<char>) -> Option<String> {
    match v {
        Some(x) => match member(x, key) {
            Some(Json::Str(s)) => Some(s),
            _ => None,
        },
        None => None,
    }
}

/// What a reply means for a command: a transport failure, a reply that
/// cannot be used, the driver's error object, or on success the reply's
/// `value` (`None` where it has none).
pub open spec fn outcome(reply: Reply) -> WebDriverResult<Option<Json>> {
    match reply {
        Reply::Failed(m) => Err(WebDriverError::Transport(m)),
        Reply::Received { status, body } => match body {
            None => Err(WebDriverError::MalformedResponse { status }),
            Some(b) => {
                let v = member(b, "value"@);
                match string_member(v, "error"@) {
                    Some(e) => Err(
                        WebDriverError::Protocol {
                            status,
                            error: e,
                            message: string_member(v, "message"@),
                        },
                    ),
                    None => if is_success(status) {
                        Ok(v)
                    } else {
                        Err(WebDriverError::MalformedResponse { status })
                    },
                }
            },
        },
    }
}

/// A text result: the reply's `value` where it is a JSON string.
pub open spec fn text_result(o: WebDriverResult<Option<Json>>) -> WebDriverResult<String> {
    match o {
        Err(e) => Err(e),
        Ok(Some(Json::Str(s))) => Ok(s),
        Ok(v) => Err(WebDriverError::Decode { expected: Shape::Text, found: v }),
    }
}

/// A result that carries no data: success whatever the `value` is.
pub open spec fn unit_result(o: WebDriverResult<Option<Json>>) -> WebDriverResult<()> {
    match o {
        Err(e) => Err(e),
        Ok(_) => Ok(()),
    }
}

/// The string held by member `key` of `v`, copied.
fn string_member_of(v: &Json, key: &str) -> (r: Option<String>)
    ensures
        r == string_member(Some(*v), key@),
{
    match v {
        Json::Object(members) => {
            let name = owned(key);
            let mut i: usize = 0;
            assert(members@.subrange(0, members@.len() as int) =~= members@);
            while i < members.len()
                invariant
                    name@ == key@,
                    member(*v, key@) == field(members@, key@),
                    i <= members@.len(),
                    field(members@, key@) == field(members@.subrange(i as int, members@.len() as int), key@),
                decreases members@.len() - i,
            {
                let ghost rest = members@.subrange(i as int, members@.len() as int);
                assert(rest.drop_first() =~= members@.subrange(i + 1, members@.len() as int));
                if members[i].0 == name {
                    assert(rest[0] == members@[i as int]);
                    assert(field(members@, key@) == Some(members@[i as int].1));
                    return match &members[i].1 {
                        Json::Str(s) => Some(s.clone()),
                        _ => None,
                    };
                }
                i = i + 1;
            }
            None
        },
        _ => None,
    }
}

/// A live session: its identifier and the base URL of the driver serving
/// it. Neither changes once the handle exists, so the handle can be shared.
#[derive(Debug)]
pub struct SessionHandle {
    server_url: String,
    session_id: String,
}

impl SessionHandle {
    /// The identifier of the session.
    pub closed spec fn id(&self) -> Seq<char> {
        self.session_id@
    }

    /// The base URL of the driver.
    pub closed spec fn server(&self) -> Seq<char> {
        self.server_url@
    }

    /// A handle on session `session_id` of the driver at `server_url`.
    pub fn new(server_url: &str, session_id: &str) -> (r: SessionHandle)
        ensures
            r.server() == server_url@,
            r.id() == session_id@,
    {
        SessionHandle { server_url: owned(server_url), session_id: owned(session_id) }
    }

    /// The identifier of the session.
    pub fn session_id(&self) -> (r: &str)
        ensures
            r@ == self.id(),
    {
        self.session_id.as_str()
    }

    /// The base URL of the driver.
    pub fn server_url(&self) -> (r: &str)
        ensures
            r@ == self.server(),
    {
        self.server_url.as_str()
    }

    /// The request that sends `command` in this session.
    pub fn cmd(&self, command: &Command) -> (r: RequestData)
        ensures
            r@ == request_of(self.id(), *command),
    {
        command.encode(self.session_id.as_str())
    }

    /// The full URL that a request of this session goes to.
    pub fn url_of(&self, request: &RequestData) -> (r: String)
        ensures
            r@ == self.server() + request.path@,
    {
        let mut r = owned(self.server_url.as_str());
        push_str(&mut r, request.path.as_str());
        r
    }

    /// Decodes the reply to a command: the reply's `value` on success, or
    /// the one error that the reply stands for.
    pub fn complete(&self, reply: Reply) -> (r: WebDriverResult<Option<Json>>)
        ensures
            r == outcome(reply),
    {
        match reply {
            Reply::Failed(m) => Err(WebDriverError::Transport(m)),
            Reply::Received { status, body } => match body {
                None => Err(WebDriverError::MalformedResponse { status }),
                Some(b) => {
                    let v = take_member(b, "value");
                    let code = match &v {
                        Some(x) => string_member_of(x, "error"),
                        None => None,
                    };
                    match code {
                        Some(e) => {
                            let message = match &v {
                                Some(x) => string_member_of(x, "message"),
                                None => None,
                            };
                            Err(WebDriverError::Protocol { status, error: e, message })
                        },
                        None => if 200 <= status && status < 300 {
                            Ok(v)
                        } else {
                            Err(WebDriverError::MalformedResponse { status })
                        },
                    }
                },
            },
        }
    }

    /// The text of the active alert, from the reply to
    /// `Command::GetAlertText`. A `value` that is missing, null or not a
    /// string is a decode error, never an empty text.
    pub fn get_alert_text(&self, reply: Reply) -> (r: WebDriverResult<String>)
        ensures
            r == text_result(outcome(reply)),
    {
        match self.complete(reply) {
            Err(e) => Err(e),
            Ok(Some(Json::Str(s))) => Ok(s),
            Ok(v) => Err(WebDriverError::Decode { expected: Shape::Text, found: v }),
        }
    }

    /// The result of dismissing the active alert, from the reply to
    /// `Command::DismissAlert`.
    pub fn dismiss_alert(&self, reply: Reply) -> (r: WebDriverResult<()>)
        ensures
            r == unit_result(outcome(reply)),
    {
        match self.complete(reply) {
            Err(e) => Err(e),
            Ok(_) => Ok(()),
        }
    }

    /// The result of accepting the active alert, from the reply to
    /// `Command::AcceptAlert`.
    pub fn accept_alert(&self, reply: Reply) -> (r: WebDriverResult<()>)
        ensures
            r == unit_result(outcome(reply)),
    {
        match self.complete(reply) {
            Err(e) => Err(e),
            Ok(_) => Ok(()),
        }
    }

    /// The result of typing into the active alert, from the reply to
    /// `Command::SendAlertText`.
    pub fn send_alert_text(&self, reply: Reply) -> (r: WebDriverResult<()>)
        ensures
            r == unit_result(outcome(reply)),
    {
        match self.complete(reply) {
            Err(e) => Err(e),
            Ok(_) => Ok(()),
        }
    }
}

} // verus!
