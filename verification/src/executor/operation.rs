//! The operations that the host carries out for the executor, and how what
//! the host reports of them is judged.

use vstd::prelude::*;
use vstd::string::StringExecFns;

use crate::executor::error::{ExecuteError, ExecuteErrorView};
use crate::models::{
    BootSource, BootSourceView, Drive, DriveView, NetworkInterface, NetworkInterfaceView,
};
use crate::path::{quote, quoted};
use crate::wire::{code_is_success, code_line, status_line};

verus! {

/// How often the socket is looked for before it is given up.
pub const PROBE_ATTEMPTS: u8 = 10;

/// The milliseconds to wait between two looks for the socket.
pub const PROBE_DELAY_MILLIS: u64 = 50;

/// What the guest can be told to do.
#[derive(Debug, Clone, Copy, PartialEq, Eq)]
pub enum Action {
    InstanceStart,
    SendCtrlAltDel,
}

impl Action {
    /// The name of the action on the wire.
    pub open spec fn spec_action_type(self) -> Seq<char> {
        match self {
            Action::InstanceStart => "InstanceStart"@,
            Action::SendCtrlAltDel => "SendCtrlAltDel"@,
        }
    }

    /// The name of the action on the wire: the value of the field
    /// `action_type` of the object that is sent.
    pub fn action_type(&self) -> (name: String)
        ensures
            name@ == self.spec_action_type(),
    {
        match self {
            Action::InstanceStart => String::from_str("InstanceStart"),
            Action::SendCtrlAltDel => String::from_str("SendCtrlAltDel"),
        }
    }
}

/// The object that a request carries; it is sent as JSON.
#[derive(Debug, Clone, PartialEq, Eq)]
pub enum Payload {
    BootSource(BootSource),
    Drive(Drive),
    NetworkInterface(NetworkInterface),
    Action(Action),
}

pub enum PayloadView {
    BootSource(BootSourceView),
    Drive(DriveView),
    NetworkInterface(NetworkInterfaceView),
    Action(Action),
}

impl View for Payload {
    type V = PayloadView;

    open spec fn view(&self) -> PayloadView {
        match self {
            Payload::BootSource(boot_source) => PayloadView::BootSource(boot_source@),
            Payload::Drive(drive) => PayloadView::Drive(drive@),
            Payload::NetworkInterface(interface) => PayloadView::NetworkInterface(interface@),
            Payload::Action(action) => PayloadView::Action(*action),
        }
    }
}

/// One thing for the host to do.
#[derive(Debug, Clone, PartialEq, Eq)]
pub enum Operation {
    /// Create the directory at `path` and its parents; one that exists is no
    /// failure.
    CreateWorkspace { path: String },
    /// Copy the file at `from` to `to`.
    CopyFile { from: String, to: String },
    /// Start `program` with `args` as a child process, without input or
    /// output, and keep its handle.
    SpawnSocket { program: String, args: Vec<String> },
    /// Wait `delay_millis` milliseconds, then look whether anything exists at
    /// `path`.
    ProbeSocket { path: String, delay_millis: u64 },
    /// Send `payload` as JSON in a `PUT` request to `uri`, with `Content-Type`
    /// and `Accept` set to `application/json`.
    Put { uri: String, payload: Payload },
    /// Kill the child process whose handle is kept.
    KillSocket,
    /// Remove the file at `path`.
    RemoveSocket { path: String },
}

pub enum OperationView {
    CreateWorkspace { path: Seq<char> },
    CopyFile { from: Seq<char>, to: Seq<char> },
    SpawnSocket { program: Seq<char>, args: Seq<Seq<char>> },
    ProbeSocket { path: Seq<char>, delay_millis: u64 },
    Put { uri: Seq<char>, payload: PayloadView },
    KillSocket,
    RemoveSocket { path: Seq<char> },
}

impl View for Operation {
    type V = OperationView;

    open spec fn view(&self) -> OperationView {
        match self {
            Operation::CreateWorkspace { path } => OperationView::CreateWorkspace { path: path@ },
            Operation::CopyFile { from, to } => OperationView::CopyFile { from: from@, to: to@ },
            Operation::SpawnSocket { program, args } => OperationView::SpawnSocket {
                program: program@,
                args: args.deep_view(),
            },
            Operation::ProbeSocket { path, delay_millis } => OperationView::ProbeSocket {
                path: path@,
                delay_millis: *delay_millis,
            },
            Operation::Put { uri, payload } => OperationView::Put {
                uri: uri@,
                payload: payload@,
            },
            Operation::KillSocket => OperationView::KillSocket,
            Operation::RemoveSocket { path } => OperationView::RemoveSocket { path: path@ },
        }
    }
}

/// The views of the operations of a list, in its order.
pub open spec fn operation_views(operations: Seq<Operation>) -> Seq<OperationView> {
    Seq::new(operations.len(), |i: int| operations[i]@)
}

/// What the host reports of an operation.
#[derive(Debug, Clone, PartialEq, Eq)]
pub enum Outcome {
    /// It was carried out; of a look for the socket, that it is there; of a
    /// request, that it was answered with a success.
    Done,
    /// It failed, for the reason given; of a look for the socket, that it is
    /// not there.
    Failed(String),
    /// The request was answered with this status code.
    Answered(u16),
    /// The request's body could not be serialised, for the reason given.
    Unserializable(String),
}

pub enum OutcomeView {
    Done,
    Failed(Seq<char>),
    Answered(u16),
    Unserializable(Seq<char>),
}

impl View for Outcome {
    type V = OutcomeView;

    open spec fn view(&self) -> OutcomeView {
        match self {
            Outcome::Done => OutcomeView::Done,
            Outcome::Failed(reason) => OutcomeView::Failed(reason@),
            Outcome::Answered(code) => OutcomeView::Answered(*code),
            Outcome::Unserializable(reason) => OutcomeView::Unserializable(reason@),
        }
    }
}

impl OutcomeView {
    /// Whether the operation succeeded.
    pub open spec fn succeeded(self) -> bool {
        match self {
            OutcomeView::Done => true,
            OutcomeView::Answered(code) => 200 <= code <= 299,
            _ => false,
        }
    }

    /// Why the operation failed, where it did.
    pub open spec fn reason(self) -> Seq<char> {
        match self {
            OutcomeView::Done => Seq::empty(),
            OutcomeView::Failed(reason) => reason,
            OutcomeView::Answered(code) => status_line(code),
            OutcomeView::Unserializable(reason) => reason,
        }
    }
}

impl Outcome {
    /// Tells whether the operation succeeded: it was carried out, or answered
    /// with a status from 200 to 299.
    pub fn succeeded(&self) -> (success: bool)
        ensures
            success == self@.succeeded(),
    {
        match self {
            Outcome::Done => true,
            Outcome::Answered(code) => code_is_success(*code),
            _ => false,
        }
    }

    /// Why the operation failed: the reason that the host gave, or the status
    /// in words.
    pub fn reason(&self) -> (text: String)
        ensures
            text@ == self@.reason(),
    {
        match self {
            Outcome::Done => String::new(),
            Outcome::Failed(reason) => reason.clone(),
            Outcome::Answered(code) => code_line(*code),
            Outcome::Unserializable(reason) => reason.clone(),
        }
    }
}

/// What follows from an outcome.
#[derive(Debug, Clone, PartialEq, Eq)]
pub enum Verdict {
    /// The operation is done: go on with the next.
    Advance,
    /// The socket is not there yet: look again.
    Retry,
    /// Give up, with this error.
    Abort(ExecuteError),
}

pub enum VerdictView {
    Advance,
    Retry,
    Abort(ExecuteErrorView),
}

impl View for Verdict {
    type V = VerdictView;

    open spec fn view(&self) -> VerdictView {
        match self {
            Verdict::Advance => VerdictView::Advance,
            Verdict::Retry => VerdictView::Retry,
            Verdict::Abort(error) => VerdictView::Abort(error@),
        }
    }
}

/// What is said of a request that was answered with a status that is no
/// success.
pub open spec fn refusal(uri: Seq<char>, code: u16) -> Seq<char> {
    "Failed to send request to "@ + uri + ", status: "@ + status_line(code)
}

/// What is said of a file that could not be copied.
pub open spec fn copy_refusal(from: Seq<char>, to: Seq<char>, reason: Seq<char>) -> Seq<char> {
    "Failed to copy "@ + quoted(from) + " to "@ + quoted(to) + ": "@ + reason
}

/// The error that a failed operation ends in. A file that cannot be copied
/// into the workspace is a failure to set the workspace up. A look for the
/// socket fails only when it is given up: see `judged`.
pub open spec fn failure(operation: OperationView, outcome: OutcomeView) -> ExecuteErrorView {
    match operation {
        OperationView::CreateWorkspace { .. } => ExecuteErrorView::WorkspaceCreation(
            outcome.reason(),
        ),
        OperationView::CopyFile { from, to } => ExecuteErrorView::WorkspaceCreation(
            copy_refusal(from, to, outcome.reason()),
        ),
        OperationView::SpawnSocket { .. } => ExecuteErrorView::CommandExecution(outcome.reason()),
        OperationView::ProbeSocket { .. } => ExecuteErrorView::Unhealthy,
        OperationView::Put { uri, .. } => match outcome {
            OutcomeView::Answered(code) => ExecuteErrorView::CommandExecution(refusal(uri, code)),
            OutcomeView::Unserializable(reason) => ExecuteErrorView::Serialize(reason),
            _ => ExecuteErrorView::Request(uri, outcome.reason()),
        },
        OperationView::KillSocket => ExecuteErrorView::Socket(outcome.reason()),
        OperationView::RemoveSocket { .. } => ExecuteErrorView::Socket(outcome.reason()),
    }
}

/// What follows from `outcome` of `operation`, after `misses` looks for the
/// socket that did not find it.
///
/// A success goes on. A look that does not find the socket is repeated until
/// `PROBE_ATTEMPTS` looks have been made, and then ends in `Unhealthy`. Any
/// other failure ends at once, in the error that `failure` gives.
pub open spec fn judged(operation: OperationView, outcome: OutcomeView, misses: nat) -> VerdictView {
    if outcome.succeeded() {
        VerdictView::Advance
    } else if operation is ProbeSocket && misses + 1 < PROBE_ATTEMPTS {
        VerdictView::Retry
    } else {
        VerdictView::Abort(failure(operation, outcome))
    }
}

impl Operation {
    /// The error that this operation ends in when it fails with `outcome`.
    pub fn failure(&self, outcome: &Outcome) -> (error: ExecuteError)
        ensures
            error@ == failure(self@, outcome@),
    {
        match self {
            Operation::CreateWorkspace { .. } => ExecuteError::WorkspaceCreation(outcome.reason()),
            Operation::CopyFile { from, to } => {
                let source = quote(from.as_str());
                let target = quote(to.as_str());
                let reason = outcome.reason();
                let text = String::from_str("Failed to copy ").concat(source.as_str()).concat(
                    " to ",
                ).concat(target.as_str()).concat(": ").concat(reason.as_str());
                ExecuteError::WorkspaceCreation(text)
            },
            Operation::SpawnSocket { .. } => ExecuteError::CommandExecution(outcome.reason()),
            Operation::ProbeSocket { .. } => ExecuteError::Unhealthy,
            Operation::Put { uri, .. } => match outcome {
                Outcome::Answered(code) => {
                    let line = code_line(*code);
                    let text = String::from_str("Failed to send request to ").concat(
                        uri.as_str(),
                    ).concat(", status: ").concat(line.as_str());
                    ExecuteError::CommandExecution(text)
                },
                Outcome::Unserializable(reason) => ExecuteError::Serialize(reason.clone()),
                _ => ExecuteError::Request(uri.clone(), outcome.reason()),
            },
            Operation::KillSocket => ExecuteError::Socket(outcome.reason()),
            Operation::RemoveSocket { .. } => ExecuteError::Socket(outcome.reason()),
        }
    }

    /// Judges what the host reports of this operation, after `misses` looks
    /// for the socket that did not find it.
    pub fn settle(&self, outcome: &Outcome, misses: u8) -> (verdict: Verdict)
        ensures
            verdict@ == judged(self@, outcome@, misses as nat),
    {
        if outcome.succeeded() {
            return Verdict::Advance;
        }
        let probing: bool = match self {
            Operation::ProbeSocket { .. } => true,
            _ => false,
        };
        if probing && misses < PROBE_ATTEMPTS - 1 {
            Verdict::Retry
        } else {
            Verdict::Abort(self.failure(outcome))
        }
    }
}

} // verus!
