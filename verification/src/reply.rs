//! What the caller reports after a step of outside work.
//!
//! Every state machine of this crate names one step at a time and awaits
//! one particular reply to it. Any other reply fails the step, for the
//! reason that the reply carries.

use vstd::prelude::*;

verus! {

/// The report on one step of outside work.
#[derive(Debug, PartialEq, Eq)]
pub enum Reply {
    /// The step went through and has nothing to hand back.
    Done,
    /// The step failed, for the reason given.
    Failed(String),
    /// The session's own answer to whether it is authenticated.
    Authenticated(bool),
    /// Everything the remote command wrote before its output ended.
    Output(String),
    /// The exit status of the remote command.
    ExitStatus(i32),
}

/// The mathematical value of a [`Reply`].
pub enum ReplyView {
    Done,
    Failed(Seq<char>),
    Authenticated(bool),
    Output(Seq<char>),
    ExitStatus(i32),
}

impl View for Reply {
    type V = ReplyView;

    open spec fn view(&self) -> ReplyView {
        match self {
            Reply::Done => ReplyView::Done,
            Reply::Failed(reason) => ReplyView::Failed(reason@),
            Reply::Authenticated(flag) => ReplyView::Authenticated(*flag),
            Reply::Output(text) => ReplyView::Output(text@),
            Reply::ExitStatus(code) => ReplyView::ExitStatus(*code),
        }
    }
}

impl Clone for Reply {
    fn clone(&self) -> (r: Self)
        ensures
            r@ == self@,
    {
        match self {
            Reply::Done => Reply::Done,
            Reply::Failed(reason) => Reply::Failed(reason.clone()),
            Reply::Authenticated(flag) => Reply::Authenticated(*flag),
            Reply::Output(text) => Reply::Output(text.clone()),
            Reply::ExitStatus(code) => Reply::ExitStatus(*code),
        }
    }
}

/// The reason recorded for a reply that answers no pending step.
pub open spec fn unexpected_reply() -> Seq<char> {
    "unexpected reply"@
}

/// The reason recorded when the session says that it is not authenticated.
pub open spec fn not_authenticated() -> Seq<char> {
    "session is not authenticated"@
}

impl ReplyView {
    /// The reason that a reply gives for a step not being done.
    pub open spec fn reason(self) -> Seq<char> {
        match self {
            ReplyView::Failed(reason) => reason,
            ReplyView::Authenticated(false) => not_authenticated(),
            _ => unexpected_reply(),
        }
    }
}

impl Reply {
    /// The reason that this reply gives for a step not being done.
    pub fn into_reason(self) -> (reason: String)
        ensures
            reason@ == self@.reason(),
    {
        match self {
            Reply::Failed(reason) => reason,
            Reply::Authenticated(false) => String::from_str("session is not authenticated"),
            _ => String::from_str("unexpected reply"),
        }
    }
}

} // verus!
