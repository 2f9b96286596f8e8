//! What can go wrong while the supervisor is driven.

use vstd::prelude::*;
use vstd::string::StringExecFns;

verus! {

/// A failure of one of the executor's operations.
#[derive(Debug, Clone, PartialEq, Eq)]
pub enum ExecuteError {
    /// The workspace could not be set up.
    WorkspaceCreation(String),
    /// The workspace could not be deleted.
    WorkspaceDeletion(String),
    /// The supervisor could not be started, or it refused a request.
    CommandExecution(String),
    /// The socket process could not be managed.
    Socket(String),
    /// A request to the address given first could not be sent.
    Request(String, String),
    /// A request's body could not be serialised.
    Serialize(String),
    /// The socket did not appear in time.
    Unhealthy,
}

pub enum ExecuteErrorView {
    WorkspaceCreation(Seq<char>),
    WorkspaceDeletion(Seq<char>),
    CommandExecution(Seq<char>),
    Socket(Seq<char>),
    Request(Seq<char>, Seq<char>),
    Serialize(Seq<char>),
    Unhealthy,
}

impl View for ExecuteError {
    type V = ExecuteErrorView;

    open spec fn view(&self) -> ExecuteErrorView {
        match self {
            ExecuteError::WorkspaceCreation(reason) => ExecuteErrorView::WorkspaceCreation(
                reason@,
            ),
            ExecuteError::WorkspaceDeletion(reason) => ExecuteErrorView::WorkspaceDeletion(
                reason@,
            ),
            ExecuteError::CommandExecution(reason) => ExecuteErrorView::CommandExecution(reason@),
            ExecuteError::Socket(reason) => ExecuteErrorView::Socket(reason@),
            ExecuteError::Request(uri, reason) => ExecuteErrorView::Request(uri@, reason@),
            ExecuteError::Serialize(reason) => ExecuteErrorView::Serialize(reason@),
            ExecuteError::Unhealthy => ExecuteErrorView::Unhealthy,
        }
    }
}

/// The error of a socket that did not appear in time, in words.
pub open spec fn unhealthy_text() -> Seq<char> {
    "Socket didn't start on time"@
}

impl ExecuteErrorView {
    /// The error in words.
    pub open spec fn message(self) -> Seq<char> {
        match self {
            ExecuteErrorView::WorkspaceCreation(reason) => {
                "Could not initate worksapce for machine, reason: "@ + reason
            },
            ExecuteErrorView::WorkspaceDeletion(reason) => {
                "Could not delete worksapce for machine, reason: "@ + reason
            },
            ExecuteErrorView::CommandExecution(reason) => {
                "Could not execute command, reason: "@ + reason
            },
            ExecuteErrorView::Socket(reason) => "Failed to manage socket, reason: "@ + reason,
            ExecuteErrorView::Request(uri, reason) => {
                "Could not send request on uri "@ + uri + ", reason: "@ + reason
            },
            ExecuteErrorView::Serialize(reason) => {
                "Could not serialize request, reason: "@ + reason
            },
            ExecuteErrorView::Unhealthy => unhealthy_text(),
        }
    }
}

impl ExecuteError {
    /// The error in words.
    pub fn message(&self) -> (text: String)
        ensures
            text@ == self@.message(),
    {
        match self {
            ExecuteError::WorkspaceCreation(reason) => {
                String::from_str("Could not initate worksapce for machine, reason: ").concat(
                    reason.as_str(),
                )
            },
            ExecuteError::WorkspaceDeletion(reason) => {
                String::from_str("Could not delete worksapce for machine, reason: ").concat(
                    reason.as_str(),
                )
            },
            ExecuteError::CommandExecution(reason) => {
                String::from_str("Could not execute command, reason: ").concat(reason.as_str())
            },
            ExecuteError::Socket(reason) => {
                String::from_str("Failed to manage socket, reason: ").concat(reason.as_str())
            },
            ExecuteError::Request(uri, reason) => {
                String::from_str("Could not send request on uri ").concat(uri.as_str()).concat(
                    ", reason: ",
                ).concat(reason.as_str())
            },
            ExecuteError::Serialize(reason) => {
                String::from_str("Could not serialize request, reason: ").concat(reason.as_str())
            },
            ExecuteError::Unhealthy => String::from_str("Socket didn't start on time"),
        }
    }
}

} // verus!
