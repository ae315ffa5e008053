//! Errors of the orchestrator.

use vstd::prelude::*;
use vstd::string::*;

use crate::text::{decimal, push_decimal};

verus! {

/// What can go wrong. Errors that come from JSON or from I/O are kept as their text.
#[derive(Debug, PartialEq)]
pub enum DispatchError {
    DmcpNotFound,
    DmcpError(String),
    TaskNotFound(u64),
    TaskAlreadyFinished(u64),
    InvalidRequest(String),
    Json(String),
    Io(String),
    ChannelClosed,
}

/// The mathematical value of a `DispatchError`.
pub enum DispatchErrorView {
    DmcpNotFound,
    DmcpError(Seq<char>),
    TaskNotFound(u64),
    TaskAlreadyFinished(u64),
    InvalidRequest(Seq<char>),
    Json(Seq<char>),
    Io(Seq<char>),
    ChannelClosed,
}

impl View for DispatchError {
    type V = DispatchErrorView;

    open spec fn view(&self) -> DispatchErrorView {
        match self {
            DispatchError::DmcpNotFound => DispatchErrorView::DmcpNotFound,
            DispatchError::DmcpError(s) => DispatchErrorView::DmcpError(s@),
            DispatchError::TaskNotFound(pid) => DispatchErrorView::TaskNotFound(*pid),
            DispatchError::TaskAlreadyFinished(pid) => DispatchErrorView::TaskAlreadyFinished(*pid),
            DispatchError::InvalidRequest(s) => DispatchErrorView::InvalidRequest(s@),
            DispatchError::Json(s) => DispatchErrorView::Json(s@),
            DispatchError::Io(s) => DispatchErrorView::Io(s@),
            DispatchError::ChannelClosed => DispatchErrorView::ChannelClosed,
        }
    }
}

impl DispatchErrorView {
    /// The sentence that tells a person what went wrong.
    pub open spec fn message(self) -> Seq<char> {
        match self {
            DispatchErrorView::DmcpNotFound => "dmcp not found on PATH"@,
            DispatchErrorView::DmcpError(s) => "dmcp invocation failed: "@ + s,
            DispatchErrorView::TaskNotFound(pid) => "task not found: PID "@ + decimal(pid as nat),
            DispatchErrorView::TaskAlreadyFinished(pid) => "task already finished: PID "@ + decimal(
                pid as nat,
            ),
            DispatchErrorView::InvalidRequest(s) => "invalid request: "@ + s,
            DispatchErrorView::Json(s) => "JSON error: "@ + s,
            DispatchErrorView::Io(s) => "I/O error: "@ + s,
            DispatchErrorView::ChannelClosed => "signal channel closed"@,
        }
    }
}

impl DispatchError {
    /// The sentence that tells a person what went wrong.
    pub fn message(&self) -> (res: String)
        ensures
            res@ == self@.message(),
    {
        match self {
            DispatchError::DmcpNotFound => "dmcp not found on PATH".to_owned(),
            DispatchError::DmcpError(s) => "dmcp invocation failed: ".to_owned().concat(s.as_str()),
            DispatchError::TaskNotFound(pid) => {
                let mut out = "task not found: PID ".to_owned();
                push_decimal(&mut out, *pid);
                out
            },
            DispatchError::TaskAlreadyFinished(pid) => {
                let mut out = "task already finished: PID ".to_owned();
                push_decimal(&mut out, *pid);
                out
            },
            DispatchError::InvalidRequest(s) => "invalid request: ".to_owned().concat(s.as_str()),
            DispatchError::Json(s) => "JSON error: ".to_owned().concat(s.as_str()),
            DispatchError::Io(s) => "I/O error: ".to_owned().concat(s.as_str()),
            DispatchError::ChannelClosed => "signal channel closed".to_owned(),
        }
    }
}

/// The message of an error holds the whole of its cause: the text it was given, or the PID.
pub proof fn messages_hold_the_cause(s: Seq<char>, pid: u64)
    ensures
        DispatchErrorView::DmcpError(s).message() == "dmcp invocation failed: "@ + s,
        DispatchErrorView::InvalidRequest(s).message() == "invalid request: "@ + s,
        DispatchErrorView::Json(s).message() == "JSON error: "@ + s,
        DispatchErrorView::Io(s).message() == "I/O error: "@ + s,
        DispatchErrorView::TaskNotFound(pid).message() == "task not found: PID "@ + decimal(
            pid as nat,
        ),
        DispatchErrorView::TaskAlreadyFinished(pid).message() == "task already finished: PID "@
            + decimal(pid as nat),
        DispatchErrorView::DmcpNotFound.message() == "dmcp not found on PATH"@,
        DispatchErrorView::ChannelClosed.message() == "signal channel closed"@,
{
}

} // verus!
