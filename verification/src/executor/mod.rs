//! The executor: one supervisor process and the socket it is driven through.
//!
//! An executor carries nothing out itself. Each of its lifecycle methods lays
//! down what the host has to do, one operation after another; the host does
//! the operation that `pending` shows and hands what came of it to `resume`,
//! until `resume` says that the whole is finished.

pub mod error;
pub mod laws;
pub mod operation;

use vstd::prelude::*;
use vstd::string::StringExecFns;

use crate::executor::error::{ExecuteError, ExecuteErrorView};
use crate::executor::operation::{
    judged, operation_views, Action, Operation, OperationView, Outcome, OutcomeView, Payload,
    PayloadView, Verdict, VerdictView, PROBE_DELAY_MILLIS,
};
use crate::models::{
    drive_views, interface_views, BootSource, BootSourceView, Drive, DriveView, NetworkInterface,
    NetworkInterfaceView,
};
use crate::path::{join, joined};
use crate::wire::{addressable, is_addressable, socket_uri, unix_uri};

verus! {

/// How far a lifecycle method has come.
#[derive(Debug, PartialEq, Eq)]
pub enum Progress<E> {
    /// An operation waits for the host: `pending` shows it.
    Pending,
    /// Nothing is left to do.
    Finished(Result<(), E>),
}

/// The progress of a method of the executor, with the error by its view;
/// `None` while an operation is pending.
pub open spec fn progress_view(progress: Progress<ExecuteError>) -> Option<
    Result<(), ExecuteErrorView>,
> {
    match progress {
        Progress::Pending => None,
        Progress::Finished(Ok(())) => Some(Ok(())),
        Progress::Finished(Err(error)) => Some(Err(error@)),
    }
}

/// Whether the executor holds the handle of a supervisor process.
#[derive(Debug, Clone, Copy, PartialEq, Eq)]
pub enum SocketProcess {
    /// None was started, or the one that was started never became healthy.
    NotStarted,
    /// One was started and its socket was seen.
    Spawned,
    /// The one that was started has been killed and its socket removed.
    Destroyed,
}

/// What an executor needs to know to run a supervisor.
pub trait Execute {
    /// The directory below which every machine has its workspace.
    spec fn spec_chroot(&self) -> Seq<char>;

    /// The host path of the supervisor's binary.
    spec fn spec_binary(&self) -> Seq<char>;

    /// The directory below which every machine has its workspace.
    fn chroot(&self) -> (path: String)
        ensures
            path@ == self.spec_chroot(),
    ;

    /// The operation that starts the supervisor with `args`.
    fn spawn_binary_child(&self, args: &Vec<String>) -> (operation: Operation)
        ensures
            operation@ == (OperationView::SpawnSocket {
                program: self.spec_binary(),
                args: args.deep_view(),
            }),
    ;
}

/// Runs the supervisor from its binary, without a jail.
#[derive(Debug, Clone, PartialEq, Eq)]
pub struct FirecrackerExecutor {
    /// The directory below which every machine has its workspace.
    pub chroot: String,
    /// The host path of the supervisor's binary.
    pub exec_binary: String,
}

pub struct FirecrackerExecutorView {
    pub chroot: Seq<char>,
    pub exec_binary: Seq<char>,
}

impl View for FirecrackerExecutor {
    type V = FirecrackerExecutorView;

    open spec fn view(&self) -> FirecrackerExecutorView {
        FirecrackerExecutorView { chroot: self.chroot@, exec_binary: self.exec_binary@ }
    }
}

/// Copies a list of texts.
fn copy_texts(texts: &Vec<String>) -> (copy: Vec<String>)
    ensures
        copy.deep_view() == texts.deep_view(),
{
    let mut copy: Vec<String> = Vec::new();
    let mut i: usize = 0;
    while i < texts.len()
        invariant
            i <= texts.len(),
            copy.len() == i,
            forall|k: int| 0 <= k < i ==> copy[k]@ == texts[k]@,
        decreases texts.len() - i,
    {
        copy.push(texts[i].clone());
        i = i + 1;
    }
    copy
}

impl Execute for FirecrackerExecutor {
    open spec fn spec_chroot(&self) -> Seq<char> {
        self.chroot@
    }

    open spec fn spec_binary(&self) -> Seq<char> {
        self.exec_binary@
    }

    fn chroot(&self) -> (path: String) {
        self.chroot.clone()
    }

    fn spawn_binary_child(&self, args: &Vec<String>) -> (operation: Operation) {
        Operation::SpawnSocket { program: self.exec_binary.clone(), args: copy_texts(args) }
    }
}

/// One machine's supervisor: where it lives, whether it runs, and what the
/// host still has to do for it.
#[derive(Debug)]
pub struct Executor {
    /// How the supervisor is run; without it nothing can be done.
    firecracker: Option<FirecrackerExecutor>,
    /// Whether the handle of a supervisor process is held.
    socket_process: SocketProcess,
    /// The machine's name; its workspace is the directory of that name.
    id: String,
    /// The operations of the method under way.
    steps: Vec<Operation>,
    /// The index in `steps` of the operation that the host is to do next.
    cursor: usize,
    /// How often the socket was looked for in vain since the last success.
    misses: u8,
}

pub struct ExecutorView {
    pub firecracker: Option<FirecrackerExecutorView>,
    pub socket_process: SocketProcess,
    pub id: Seq<char>,
    /// The operations that are left to do, the pending one first.
    pub remaining: Seq<OperationView>,
    /// How often the socket was looked for in vain since the last success.
    pub misses: nat,
}

/// The name of a machine that was given none.
pub open spec fn default_id() -> Seq<char> {
    "default"@
}

/// The name of the socket's file in the workspace.
pub open spec fn socket_name() -> Seq<char> {
    "firecracker.socket"@
}

/// The flag that tells the supervisor where to make its socket.
pub open spec fn socket_flag() -> Seq<char> {
    "--api-sock"@
}

/// Where the boot source is put.
pub open spec fn boot_source_endpoint() -> Seq<char> {
    "/boot-source"@
}

/// Where actions are put.
pub open spec fn actions_endpoint() -> Seq<char> {
    "/actions"@
}

/// Where the drive named `id` is put.
pub open spec fn drive_endpoint(id: Seq<char>) -> Seq<char> {
    "/drives/"@ + id
}

/// Where the network interface named `id` is put.
pub open spec fn interface_endpoint(id: Seq<char>) -> Seq<char> {
    "/network-interfaces/"@ + id
}

/// What is said when a socket is to be destroyed that was never brought up.
pub open spec fn not_spawned_text() -> Seq<char> {
    "Socket hasn't been spawned, you must spawn it before destroying it"@
}

/// What a finished operation makes of the process handle: once the socket has
/// been seen the handle is held, once its file is removed it is given up.
pub open spec fn handle_after(operation: OperationView, before: SocketProcess) -> SocketProcess {
    match operation {
        OperationView::ProbeSocket { .. } => SocketProcess::Spawned,
        OperationView::RemoveSocket { .. } => SocketProcess::Destroyed,
        _ => before,
    }
}

impl ExecutorView {
    /// Whether it is known how the supervisor is run.
    pub open spec fn configured(self) -> bool {
        self.firecracker is Some
    }

    /// The machine's workspace.
    pub open spec fn chroot(self) -> Seq<char> {
        joined(self.firecracker->0.chroot, self.id)
    }

    /// The socket's file.
    pub open spec fn socket(self) -> Seq<char> {
        joined(self.chroot(), socket_name())
    }

    /// Whether the handle of a supervisor process is held.
    pub open spec fn running(self) -> bool {
        self.socket_process == SocketProcess::Spawned
    }

    /// Whether the address of `endpoint` on the socket can be built.
    pub open spec fn reaches(self, endpoint: Seq<char>) -> bool {
        addressable(self.socket(), endpoint)
    }

    /// Whether the address of every drive of `drives` can be built.
    pub open spec fn reaches_drives(self, drives: Seq<DriveView>) -> bool {
        forall|i: int| 0 <= i < drives.len() ==> self.reaches(drive_endpoint(drives[i].drive_id))
    }

    /// Whether the address of every interface of `interfaces` can be built.
    pub open spec fn reaches_interfaces(self, interfaces: Seq<NetworkInterfaceView>) -> bool {
        forall|i: int|
            0 <= i < interfaces.len() ==> self.reaches(
                interface_endpoint(interfaces[i].iface_id),
            )
    }

    /// The request that puts `payload` at `endpoint`.
    pub open spec fn put(self, endpoint: Seq<char>, payload: PayloadView) -> OperationView {
        OperationView::Put { uri: socket_uri(self.socket(), endpoint), payload }
    }

    /// What creates the workspace: its directory, with the parents.
    pub open spec fn workspace_plan(self) -> Seq<OperationView> {
        seq![OperationView::CreateWorkspace { path: self.chroot() }]
    }

    /// What brings the socket up: the supervisor is started and told where to
    /// make its socket, then the socket is looked for, at once.
    pub open spec fn socket_plan(self) -> Seq<OperationView> {
        seq![
            OperationView::SpawnSocket {
                program: self.firecracker->0.exec_binary,
                args: seq![socket_flag(), self.socket()],
            },
            OperationView::ProbeSocket { path: self.socket(), delay_millis: 0 },
        ]
    }

    /// What takes the socket down: the process is killed, then the socket's
    /// file removed.
    pub open spec fn teardown_plan(self) -> Seq<OperationView> {
        seq![OperationView::KillSocket, OperationView::RemoveSocket { path: self.socket() }]
    }

    /// What configures the boot source: one request.
    pub open spec fn boot_source_plan(self, boot_source: BootSourceView) -> Seq<OperationView> {
        seq![self.put(boot_source_endpoint(), PayloadView::BootSource(boot_source))]
    }

    /// What configures `drives`: one request for each, in their order.
    pub open spec fn drive_plan(self, drives: Seq<DriveView>) -> Seq<OperationView> {
        Seq::new(
            drives.len(),
            |i: int| self.put(drive_endpoint(drives[i].drive_id), PayloadView::Drive(drives[i])),
        )
    }

    /// What configures `interfaces`: one request for each, in their order.
    pub open spec fn network_plan(self, interfaces: Seq<NetworkInterfaceView>) -> Seq<
        OperationView,
    > {
        Seq::new(
            interfaces.len(),
            |i: int|
                self.put(
                    interface_endpoint(interfaces[i].iface_id),
                    PayloadView::NetworkInterface(interfaces[i]),
                ),
        )
    }

    /// What sends `action`: one request.
    pub open spec fn action_plan(self, action: Action) -> Seq<OperationView> {
        seq![self.put(actions_endpoint(), PayloadView::Action(action))]
    }

    /// The executor with `plan` laid down as what is to do.
    pub open spec fn begun(self, plan: Seq<OperationView>) -> ExecutorView {
        ExecutorView { remaining: plan, misses: 0, ..self }
    }

    /// The executor after the host has reported `outcome` of the pending
    /// operation.
    ///
    /// A success strikes the operation off. A look for the socket that is to
    /// be repeated stays pending, now with the delay between two looks. A
    /// failure drops everything that was left.
    pub open spec fn resumed(self, outcome: OutcomeView) -> ExecutorView {
        if self.remaining.len() == 0 {
            self
        } else {
            match judged(self.remaining[0], outcome, self.misses) {
                VerdictView::Advance => ExecutorView {
                    socket_process: handle_after(self.remaining[0], self.socket_process),
                    remaining: self.remaining.drop_first(),
                    misses: 0,
                    ..self
                },
                VerdictView::Retry => ExecutorView {
                    remaining: self.remaining.update(
                        0,
                        OperationView::ProbeSocket {
                            path: self.remaining[0]->ProbeSocket_path,
                            delay_millis: PROBE_DELAY_MILLIS,
                        },
                    ),
                    misses: self.misses + 1,
                    ..self
                },
                VerdictView::Abort(_) => ExecutorView {
                    remaining: Seq::empty(),
                    misses: 0,
                    ..self
                },
            }
        }
    }

    /// What the executor says after the host has reported `outcome` of the
    /// pending operation: `None` while an operation is left.
    pub open spec fn reported(self, outcome: OutcomeView) -> Option<Result<(), ExecuteErrorView>> {
        if self.remaining.len() == 0 {
            Some(Ok(()))
        } else {
            match judged(self.remaining[0], outcome, self.misses) {
                VerdictView::Advance => if self.remaining.len() == 1 {
                    Some(Ok(()))
                } else {
                    None
                },
                VerdictView::Retry => None,
                VerdictView::Abort(error) => Some(Err(error)),
            }
        }
    }
}

impl View for Executor {
    type V = ExecutorView;

    closed spec fn view(&self) -> ExecutorView {
        ExecutorView {
            firecracker: match self.firecracker {
                Some(firecracker) => Some(firecracker@),
                None => None,
            },
            socket_process: self.socket_process,
            id: self.id@,
            remaining: if self.cursor < self.steps.len() {
                operation_views(self.steps@).skip(self.cursor as int)
            } else {
                Seq::empty()
            },
            misses: self.misses as nat,
        }
    }
}

impl Executor {
    /// An executor that does not know how to run a supervisor, named
    /// "default".
    pub fn new() -> (executor: Executor)
        ensures
            executor@ == (ExecutorView {
                firecracker: None,
                socket_process: SocketProcess::NotStarted,
                id: default_id(),
                remaining: Seq::empty(),
                misses: 0,
            }),
    {
        Executor {
            firecracker: None,
            socket_process: SocketProcess::NotStarted,
            id: String::from_str("default"),
            steps: Vec::new(),
            cursor: 0,
            misses: 0,
        }
    }

    /// An executor that runs the supervisor from its binary, named "default".
    pub fn new_with_firecracker(firecracker: FirecrackerExecutor) -> (executor: Executor)
        ensures
            executor@ == (ExecutorView {
                firecracker: Some(firecracker@),
                socket_process: SocketProcess::NotStarted,
                id: default_id(),
                remaining: Seq::empty(),
                misses: 0,
            }),
    {
        Executor {
            firecracker: Some(firecracker),
            socket_process: SocketProcess::NotStarted,
            id: String::from_str("default"),
            steps: Vec::new(),
            cursor: 0,
            misses: 0,
        }
    }

    /// The same executor under the name `id`.
    pub fn with_id(self, id: String) -> (executor: Executor)
        ensures
            executor@ == (ExecutorView { id: id@, ..self@ }),
    {
        Executor { id, ..self }
    }

    /// Tells whether it is known how the supervisor is run.
    pub fn is_configured(&self) -> (configured: bool)
        ensures
            configured == self@.configured(),
    {
        self.firecracker.is_some()
    }

    /// Tells whether the handle of a supervisor process is held.
    pub fn is_running(&self) -> (running: bool)
        ensures
            running == self@.running(),
    {
        match self.socket_process {
            SocketProcess::Spawned => true,
            _ => false,
        }
    }

    /// The machine's workspace: the directory of the machine's name below
    /// the executor's root, which holds the socket, the kernel and the drives.
    pub fn chroot(&self) -> (path: String)
        requires
            self@.configured(),
        ensures
            path@ == self@.chroot(),
    {
        match &self.firecracker {
            Some(firecracker) => {
                let root = firecracker.chroot();
                join(root.as_str(), self.id.as_str())
            },
            None => String::new(),
        }
    }

    /// The socket's file, in the workspace.
    pub fn socket(&self) -> (path: String)
        requires
            self@.configured(),
        ensures
            path@ == self@.socket(),
    {
        let chroot = self.chroot();
        join(chroot.as_str(), "firecracker.socket")
    }

    /// The operation that the host is to do next, if there is one.
    pub fn pending(&self) -> (operation: Option<&Operation>)
        ensures
            match operation {
                Some(operation) => self@.remaining.len() > 0 && operation@ == self@.remaining[0],
                None => self@.remaining.len() == 0,
            },
    {
        if self.cursor < self.steps.len() {
            Some(&self.steps[self.cursor])
        } else {
            None
        }
    }

    /// Lays `steps` down as what is to do, in place of anything that was left.
    pub(crate) fn begin(&mut self, steps: Vec<Operation>) -> (progress: Progress<ExecuteError>)
        ensures
            final(self)@ == old(self)@.begun(operation_views(steps@)),
            progress_view(progress) == if steps.len() == 0 {
                Some(Ok::<(), ExecuteErrorView>(()))
            } else {
                None
            },
    {
        let empty: bool = steps.len() == 0;
        proof {
            assert(operation_views(steps@).skip(0) =~= operation_views(steps@));
            if empty {
                assert(operation_views(steps@) =~= Seq::empty());
            }
        }
        self.steps = steps;
        self.cursor = 0;
        self.misses = 0;
        if empty {
            Progress::Finished(Ok(()))
        } else {
            Progress::Pending
        }
    }

    /// Takes in what the host reports of the pending operation, and tells
    /// whether anything is left to do. With nothing pending, nothing changes
    /// and the answer is that all is finished.
    pub fn resume(&mut self, outcome: Outcome) -> (progress: Progress<ExecuteError>)
        ensures
            final(self)@ == old(self)@.resumed(outcome@),
            progress_view(progress) == old(self)@.reported(outcome@),
    {
        if self.cursor >= self.steps.len() {
            return Progress::Finished(Ok(()));
        }
        let ghost views = operation_views(self.steps@);
        let ghost at = self.cursor as int;
        let verdict = self.steps[self.cursor].settle(&outcome, self.misses);
        match verdict {
            Verdict::Advance => {
                match &self.steps[self.cursor] {
                    Operation::ProbeSocket { .. } => {
                        self.socket_process = SocketProcess::Spawned;
                    },
                    Operation::RemoveSocket { .. } => {
                        self.socket_process = SocketProcess::Destroyed;
                    },
                    _ => {},
                }
                self.cursor = self.cursor + 1;
                self.misses = 0;
                proof {
                    assert(views.skip(at).drop_first() =~= views.skip(at + 1));
                    if at + 1 >= views.len() {
                        assert(views.skip(at).drop_first() =~= Seq::empty());
                    }
                }
                if self.cursor < self.steps.len() {
                    Progress::Pending
                } else {
                    Progress::Finished(Ok(()))
                }
            },
            Verdict::Retry => {
                let path = match &self.steps[self.cursor] {
                    Operation::ProbeSocket { path, .. } => path.clone(),
                    _ => String::new(),
                };
                self.steps.set(
                    self.cursor,
                    Operation::ProbeSocket { path, delay_millis: PROBE_DELAY_MILLIS },
                );
                self.misses = self.misses + 1;
                proof {
                    assert(operation_views(self.steps@).skip(at) =~= views.skip(at).update(
                        0,
                        OperationView::ProbeSocket {
                            path: views[at]->ProbeSocket_path,
                            delay_millis: PROBE_DELAY_MILLIS,
                        },
                    ));
                }
                Progress::Pending
            },
            Verdict::Abort(error) => {
                self.cursor = self.steps.len();
                self.misses = 0;
                Progress::Finished(Err(error))
            },
        }
    }
}

impl Executor {
    /// Tells whether the address of `endpoint` on the socket can be built.
    pub fn reaches(&self, endpoint: &str) -> (fits: bool)
        requires
            self@.configured(),
        ensures
            fits == self@.reaches(endpoint@),
    {
        let socket = self.socket();
        is_addressable(socket.as_str(), endpoint)
    }

    /// Tells whether the address of every drive of `drives` can be built.
    pub fn reaches_drives(&self, drives: &Vec<Drive>) -> (fits: bool)
        requires
            self@.configured(),
        ensures
            fits == self@.reaches_drives(drive_views(drives@)),
    {
        let socket = self.socket();
        let mut i: usize = 0;
        while i < drives.len()
            invariant
                i <= drives.len(),
                socket@ == self@.socket(),
                forall|k: int|
                    0 <= k < i ==> self@.reaches(
                        drive_endpoint(#[trigger] drive_views(drives@)[k].drive_id),
                    ),
            decreases drives.len() - i,
        {
            let endpoint = String::from_str("/drives/").concat(drives[i].drive_id.as_str());
            if !is_addressable(socket.as_str(), endpoint.as_str()) {
                return false;
            }
            assert(endpoint@ == drive_endpoint(drive_views(drives@)[i as int].drive_id));
            i = i + 1;
        }
        true
    }

    /// Tells whether the address of every interface of `interfaces` can be
    /// built.
    pub fn reaches_interfaces(&self, interfaces: &Vec<NetworkInterface>) -> (fits: bool)
        requires
            self@.configured(),
        ensures
            fits == self@.reaches_interfaces(interface_views(interfaces@)),
    {
        let socket = self.socket();
        let mut i: usize = 0;
        while i < interfaces.len()
            invariant
                i <= interfaces.len(),
                socket@ == self@.socket(),
                forall|k: int|
                    0 <= k < i ==> self@.reaches(
                        interface_endpoint(#[trigger] interface_views(interfaces@)[k].iface_id),
                    ),
            decreases interfaces.len() - i,
        {
            let endpoint = String::from_str("/network-interfaces/").concat(
                interfaces[i].iface_id.as_str(),
            );
            if !is_addressable(socket.as_str(), endpoint.as_str()) {
                assert(endpoint@ == interface_endpoint(
                    interface_views(interfaces@)[i as int].iface_id,
                ));
                return false;
            }
            assert(endpoint@ == interface_endpoint(
                interface_views(interfaces@)[i as int].iface_id,
            ));
            i = i + 1;
        }
        true
    }

    /// The request that puts `payload` at `endpoint`: what every method that
    /// configures or steers the guest sends.
    fn send_request(&self, endpoint: &str, payload: Payload) -> (operation: Operation)
        requires
            self@.configured(),
            self@.reaches(endpoint@),
        ensures
            operation@ == self@.put(endpoint@, payload@),
    {
        let socket = self.socket();
        Operation::Put { uri: unix_uri(socket.as_str(), endpoint), payload }
    }

    /// The first look for the socket, made at once. Whether it is repeated
    /// and when it is given up is for `resume` to say.
    fn wait_healthy(&self) -> (operation: Operation)
        requires
            self@.configured(),
        ensures
            operation@ == (OperationView::ProbeSocket { path: self@.socket(), delay_millis: 0 }),
    {
        Operation::ProbeSocket { path: self.socket(), delay_millis: 0 }
    }

    /// The operations that create the workspace.
    pub(crate) fn workspace_steps(&self) -> (steps: Vec<Operation>)
        requires
            self@.configured(),
        ensures
            operation_views(steps@) == self@.workspace_plan(),
            steps.len() == self@.workspace_plan().len(),
    {
        let mut steps: Vec<Operation> = Vec::new();
        steps.push(Operation::CreateWorkspace { path: self.chroot() });
        steps
    }

    /// The operations that bring the socket up.
    pub(crate) fn socket_steps(&self) -> (steps: Vec<Operation>)
        requires
            self@.configured(),
        ensures
            operation_views(steps@) == self@.socket_plan(),
            steps.len() == self@.socket_plan().len(),
    {
        let socket = self.socket();
        let mut args: Vec<String> = Vec::new();
        args.push(String::from_str("--api-sock"));
        args.push(socket);
        assert(args.deep_view() =~= seq![socket_flag(), self@.socket()]);
        let mut steps: Vec<Operation> = Vec::new();
        match &self.firecracker {
            Some(firecracker) => {
                steps.push(firecracker.spawn_binary_child(&args));
            },
            None => {},
        }
        steps.push(self.wait_healthy());
        steps
    }

    /// The operations that take the socket down.
    pub(crate) fn teardown_steps(&self) -> (steps: Vec<Operation>)
        requires
            self@.configured(),
        ensures
            operation_views(steps@) == self@.teardown_plan(),
            steps.len() == self@.teardown_plan().len(),
    {
        let mut steps: Vec<Operation> = Vec::new();
        steps.push(Operation::KillSocket);
        steps.push(Operation::RemoveSocket { path: self.socket() });
        steps
    }

    /// The operations that configure the boot source.
    pub(crate) fn boot_source_steps(&self, boot_source: BootSource) -> (steps: Vec<Operation>)
        requires
            self@.configured(),
            self@.reaches(boot_source_endpoint()),
        ensures
            operation_views(steps@) == self@.boot_source_plan(boot_source@),
            steps.len() == self@.boot_source_plan(boot_source@).len(),
    {
        let mut steps: Vec<Operation> = Vec::new();
        steps.push(self.send_request("/boot-source", Payload::BootSource(boot_source)));
        steps
    }

    /// The operations that send `action`.
    pub(crate) fn action_steps(&self, action: Action) -> (steps: Vec<Operation>)
        requires
            self@.configured(),
            self@.reaches(actions_endpoint()),
        ensures
            operation_views(steps@) == self@.action_plan(action),
            steps.len() == self@.action_plan(action).len(),
    {
        let mut steps: Vec<Operation> = Vec::new();
        steps.push(self.send_request("/actions", Payload::Action(action)));
        steps
    }

    /// The operations that configure `drives`.
    pub(crate) fn drive_steps(&self, drives: Vec<Drive>) -> (steps: Vec<Operation>)
        requires
            self@.configured(),
            self@.reaches_drives(drive_views(drives@)),
        ensures
            operation_views(steps@) == self@.drive_plan(drive_views(drives@)),
            steps.len() == self@.drive_plan(drive_views(drives@)).len(),
    {
        let ghost all = drive_views(drives@);
        let mut rest = drives;
        let mut steps: Vec<Operation> = Vec::new();
        while rest.len() > 0
            invariant
                self@.configured(),
                self@.reaches_drives(all),
                steps.len() + rest.len() == all.len(),
                forall|k: int| 0 <= k < rest.len() ==> rest[k]@ == all[steps.len() + k],
                forall|k: int|
                    0 <= k < steps.len() ==> (#[trigger] steps[k])@ == self@.drive_plan(all)[k],
            decreases rest.len(),
        {
            let drive = rest.remove(0);
            let endpoint = String::from_str("/drives/").concat(drive.drive_id.as_str());
            steps.push(self.send_request(endpoint.as_str(), Payload::Drive(drive)));
        }
        steps
    }

    /// The operations that configure `interfaces`.
    pub(crate) fn network_steps(&self, interfaces: Vec<NetworkInterface>) -> (steps: Vec<Operation>)
        requires
            self@.configured(),
            self@.reaches_interfaces(interface_views(interfaces@)),
        ensures
            operation_views(steps@) == self@.network_plan(interface_views(interfaces@)),
            steps.len() == self@.network_plan(interface_views(interfaces@)).len(),
    {
        let ghost all = interface_views(interfaces@);
        let mut rest = interfaces;
        let mut steps: Vec<Operation> = Vec::new();
        while rest.len() > 0
            invariant
                self@.configured(),
                self@.reaches_interfaces(all),
                steps.len() + rest.len() == all.len(),
                forall|k: int| 0 <= k < rest.len() ==> rest[k]@ == all[steps.len() + k],
                forall|k: int|
                    0 <= k < steps.len() ==> (#[trigger] steps[k])@ == self@.network_plan(all)[k],
            decreases rest.len(),
        {
            let interface = rest.remove(0);
            let endpoint = String::from_str("/network-interfaces/").concat(
                interface.iface_id.as_str(),
            );
            steps.push(self.send_request(endpoint.as_str(), Payload::NetworkInterface(interface)));
        }
        steps
    }

    /// Sets out to create the machine's workspace. Creating it again is no
    /// failure.
    pub fn create_workspace(&mut self) -> (progress: Progress<ExecuteError>)
        requires
            old(self)@.configured(),
        ensures
            final(self)@ == old(self)@.begun(old(self)@.workspace_plan()),
            progress is Pending,
    {
        let steps = self.workspace_steps();
        self.begin(steps)
    }

    /// Sets out to start the supervisor and to wait for its socket. The
    /// workspace should exist.
    ///
    /// The socket is looked for up to `PROBE_ATTEMPTS` times,
    /// `PROBE_DELAY_MILLIS` milliseconds apart. If it is never seen the end is
    /// `Unhealthy`, and the supervisor is left as it is.
    pub fn run_socket(&mut self) -> (progress: Progress<ExecuteError>)
        requires
            old(self)@.configured(),
        ensures
            final(self)@ == old(self)@.begun(old(self)@.socket_plan()),
            progress is Pending,
    {
        let steps = self.socket_steps();
        self.begin(steps)
    }

    /// Sets out to kill the supervisor and to remove its socket. Without the
    /// handle of a supervisor process there is nothing to destroy: the end is
    /// a `Socket` error at once, and nothing changes.
    pub fn destroy_socket(&mut self) -> (progress: Progress<ExecuteError>)
        ensures
            old(self)@.running() && old(self)@.configured() ==> final(self)@ == old(self)@.begun(
                old(self)@.teardown_plan(),
            ) && progress is Pending,
            !(old(self)@.running() && old(self)@.configured()) ==> final(self)@ == old(self)@
                && progress_view(progress) == Some(
                Err::<(), ExecuteErrorView>(ExecuteErrorView::Socket(not_spawned_text())),
            ),
    {
        if !self.is_running() || !self.is_configured() {
            return Progress::Finished(
                Err(
                    ExecuteError::Socket(
                        String::from_str(
                            "Socket hasn't been spawned, you must spawn it before destroying it",
                        ),
                    ),
                ),
            );
        }
        let steps = self.teardown_steps();
        self.begin(steps)
    }

    /// Sets out to send `action` to the guest.
    pub fn send_action(&mut self, action: Action) -> (progress: Progress<ExecuteError>)
        requires
            old(self)@.configured(),
            old(self)@.reaches(actions_endpoint()),
        ensures
            final(self)@ == old(self)@.begun(old(self)@.action_plan(action)),
            progress is Pending,
    {
        let steps = self.action_steps(action);
        self.begin(steps)
    }

    /// Sets out to configure what the guest boots from.
    pub fn configure_boot_source(&mut self, boot_source: BootSource) -> (progress: Progress<
        ExecuteError,
    >)
        requires
            old(self)@.configured(),
            old(self)@.reaches(boot_source_endpoint()),
        ensures
            final(self)@ == old(self)@.begun(old(self)@.boot_source_plan(boot_source@)),
            progress is Pending,
    {
        let steps = self.boot_source_steps(boot_source);
        self.begin(steps)
    }

    /// Sets out to configure the drives, one after another in their order.
    /// The first that fails ends the whole: those before it stay configured,
    /// those after it are not tried.
    pub fn configure_drives(&mut self, drives: Vec<Drive>) -> (progress: Progress<ExecuteError>)
        requires
            old(self)@.configured(),
            old(self)@.reaches_drives(drive_views(drives@)),
        ensures
            final(self)@ == old(self)@.begun(old(self)@.drive_plan(drive_views(drives@))),
            progress_view(progress) == if drives.len() == 0 {
                Some(Ok::<(), ExecuteErrorView>(()))
            } else {
                None
            },
    {
        let steps = self.drive_steps(drives);
        self.begin(steps)
    }

    /// Sets out to configure the network interfaces, one after another in
    /// their order. The first that fails ends the whole: those before it stay
    /// configured, those after it are not tried.
    pub fn configure_network(&mut self, network_interfaces: Vec<NetworkInterface>) -> (progress:
        Progress<ExecuteError>)
        requires
            old(self)@.configured(),
            old(self)@.reaches_interfaces(interface_views(network_interfaces@)),
        ensures
            final(self)@ == old(self)@.begun(
                old(self)@.network_plan(interface_views(network_interfaces@)),
            ),
            progress_view(progress) == if network_interfaces.len() == 0 {
                Some(Ok::<(), ExecuteErrorView>(()))
            } else {
                None
            },
    {
        let steps = self.network_steps(network_interfaces);
        self.begin(steps)
    }

    /// Sets out to send `action` to the guest, if that can be done: if it is
    /// known how the supervisor is run and the address for actions can be
    /// built. Else nothing changes.
    pub fn try_send_action(&mut self, action: Action) -> (progress: Option<Progress<ExecuteError>>)
        ensures
            match progress {
                Some(progress) => {
                    &&& old(self)@.configured() && old(self)@.reaches(actions_endpoint())
                    &&& final(self)@ == old(self)@.begun(old(self)@.action_plan(action))
                    &&& progress is Pending
                },
                None => {
                    &&& !(old(self)@.configured() && old(self)@.reaches(actions_endpoint()))
                    &&& final(self)@ == old(self)@
                },
            },
    {
        if self.is_configured() && self.reaches("/actions") {
            Some(self.send_action(action))
        } else {
            None
        }
    }

    /// Sets out to configure what the guest boots from, if that can be done:
    /// if it is known how the supervisor is run and the address of the boot
    /// source can be built. Else nothing changes and the boot source is
    /// handed back.
    pub fn try_configure_boot_source(&mut self, boot_source: BootSource) -> (progress: Result<
        Progress<ExecuteError>,
        BootSource,
    >)
        ensures
            match progress {
                Ok(progress) => {
                    &&& old(self)@.configured() && old(self)@.reaches(boot_source_endpoint())
                    &&& final(self)@ == old(self)@.begun(
                        old(self)@.boot_source_plan(boot_source@),
                    )
                    &&& progress is Pending
                },
                Err(back) => {
                    &&& !(old(self)@.configured() && old(self)@.reaches(boot_source_endpoint()))
                    &&& final(self)@ == old(self)@
                    &&& back == boot_source
                },
            },
    {
        if self.is_configured() && self.reaches("/boot-source") {
            Ok(self.configure_boot_source(boot_source))
        } else {
            Err(boot_source)
        }
    }

    /// Sets out to configure the drives, if that can be done: if it is known
    /// how the supervisor is run and the address of every drive can be built.
    /// Else nothing changes and the drives are handed back.
    pub fn try_configure_drives(&mut self, drives: Vec<Drive>) -> (progress: Result<
        Progress<ExecuteError>,
        Vec<Drive>,
    >)
        ensures
            match progress {
                Ok(progress) => {
                    &&& old(self)@.configured() && old(self)@.reaches_drives(drive_views(drives@))
                    &&& final(self)@ == old(self)@.begun(
                        old(self)@.drive_plan(drive_views(drives@)),
                    )
                    &&& progress_view(progress) == if drives.len() == 0 {
                        Some(Ok::<(), ExecuteErrorView>(()))
                    } else {
                        None
                    }
                },
                Err(back) => {
                    &&& !(old(self)@.configured() && old(self)@.reaches_drives(
                        drive_views(drives@),
                    ))
                    &&& final(self)@ == old(self)@
                    &&& back == drives
                },
            },
    {
        if self.is_configured() && self.reaches_drives(&drives) {
            Ok(self.configure_drives(drives))
        } else {
            Err(drives)
        }
    }

    /// Sets out to configure the network interfaces, if that can be done: if
    /// it is known how the supervisor is run and the address of every
    /// interface can be built. Else nothing changes and the interfaces are
    /// handed back.
    pub fn try_configure_network(&mut self, network_interfaces: Vec<NetworkInterface>) -> (progress:
        Result<Progress<ExecuteError>, Vec<NetworkInterface>>)
        ensures
            match progress {
                Ok(progress) => {
                    &&& old(self)@.configured() && old(self)@.reaches_interfaces(
                        interface_views(network_interfaces@),
                    )
                    &&& final(self)@ == old(self)@.begun(
                        old(self)@.network_plan(interface_views(network_interfaces@)),
                    )
                    &&& progress_view(progress) == if network_interfaces.len() == 0 {
                        Some(Ok::<(), ExecuteErrorView>(()))
                    } else {
                        None
                    }
                },
                Err(back) => {
                    &&& !(old(self)@.configured() && old(self)@.reaches_interfaces(
                        interface_views(network_interfaces@),
                    ))
                    &&& final(self)@ == old(self)@
                    &&& back == network_interfaces
                },
            },
    {
        if self.is_configured() && self.reaches_interfaces(&network_interfaces) {
            Ok(self.configure_network(network_interfaces))
        } else {
            Err(network_interfaces)
        }
    }
}

} // verus!
