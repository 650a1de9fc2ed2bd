//! The older alert façade: it holds a shared handle on the session and
//! forwards every call to it unchanged.
use vstd::prelude::*;
use std::sync::Arc;
use crate::command::{request_of, Command, RequestData};
use crate::error::WebDriverResult;
use crate::keys::TypingData;
use crate::session::{outcome, text_result, unit_result, Reply, SessionHandle};

verus! {

/// Alert operations reached through a shared session handle.
#[derive(Debug)]
pub struct Alert {
    handle: Arc<SessionHandle>,
}

impl Alert {
    /// The handle this façade forwards to.
    pub closed spec fn session(&self) -> SessionHandle {
        *self.handle
    }

    /// An alert façade over `handle`.
    pub fn new(handle: Arc<SessionHandle>) -> (r: Alert)
        ensures
            r.session() == *handle,
    {
        Alert { handle }
    }

    /// The request for reading the alert's text: the same one the handle
    /// sends for `Command::GetAlertText`.
    pub fn text_request(&self) -> (r: RequestData)
        ensures
            r@ == request_of(self.session().id(), Command::GetAlertText),
    {
        self.handle.cmd(&Command::GetAlertText)
    }

    /// The request for dismissing the alert.
    pub fn dismiss_request(&self) -> (r: RequestData)
        ensures
            r@ == request_of(self.session().id(), Command::DismissAlert),
    {
        self.handle.cmd(&Command::DismissAlert)
    }

    /// The request for accepting the alert.
    pub fn accept_request(&self) -> (r: RequestData)
        ensures
            r@ == request_of(self.session().id(), Command::AcceptAlert),
    {
        self.handle.cmd(&Command::AcceptAlert)
    }

    /// The request for typing `keys` into the alert.
    pub fn send_keys_request(&self, keys: TypingData) -> (r: RequestData)
        ensures
            r@ == request_of(self.session().id(), Command::SendAlertText(keys)),
    {
        self.handle.cmd(&Command::SendAlertText(keys))
    }

    /// The alert's text, from the reply to its request: what
    /// `SessionHandle::get_alert_text` gives for the same reply.
    pub fn text(&self, reply: Reply) -> (r: WebDriverResult<String>)
        ensures
            r == text_result(outcome(reply)),
    {
        self.handle.get_alert_text(reply)
    }

    /// The result of dismissing: what `SessionHandle::dismiss_alert` gives
    /// for the same reply.
    pub fn dismiss(&self, reply: Reply) -> (r: WebDriverResult<()>)
        ensures
            r == unit_result(outcome(reply)),
    {
        self.handle.dismiss_alert(reply)
    }

    /// The result of accepting: what `SessionHandle::accept_alert` gives for
    /// the same reply.
    pub fn accept(&self, reply: Reply) -> (r: WebDriverResult<()>)
        ensures
            r == unit_result(outcome(reply)),
    {
        self.handle.accept_alert(reply)
    }

    /// The result of typing: what `SessionHandle::send_alert_text` gives for
    /// the same reply.
    pub fn send_keys(&self, reply: Reply) -> (r: WebDriverResult<()>)
        ensures
            r == unit_result(outcome(reply)),
    {
        self.handle.send_alert_text(reply)
    }
}

} // verus!
