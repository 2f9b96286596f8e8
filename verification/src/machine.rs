//! The machine: the fixed sequence that brings one microVM up, and the three
//! things that can be done to it afterwards.
//!
//! Like the executor it owns, a machine carries nothing out itself: the host
//! does the operation that `pending` shows and hands what came of it to
//! `resume`, until `resume` says that the whole is finished.

use vstd::prelude::*;
use vstd::string::StringExecFns;

use crate::builder::{Configuration, ConfigurationView};
use crate::executor::error::{unhealthy_text, ExecuteError, ExecuteErrorView};
use crate::executor::operation::{
    operation_views, Action, Operation, OperationView, Outcome, PayloadView,
};
use crate::executor::{
    actions_endpoint, boot_source_endpoint, default_id, drive_endpoint, interface_endpoint,
    not_spawned_text, Executor, ExecutorView, Progress, SocketProcess,
};
use crate::models::{
    drive_views, BootSource, BootSourceView, Drive, DriveView, NetworkInterfaceView,
};
use crate::path::{join, joined};

verus! {

/// A failure of one of the machine's operations.
#[derive(Debug, Clone, PartialEq, Eq)]
pub enum FirepilotError {
    /// The workspace or the supervisor could not be set up.
    Setup(String),
    /// The supervisor could not be reached or configured.
    Configure(String),
    /// The supervisor did not run as it should.
    Execute(String),
}

pub enum FirepilotErrorView {
    Setup(Seq<char>),
    Configure(Seq<char>),
    Execute(Seq<char>),
}

impl View for FirepilotError {
    type V = FirepilotErrorView;

    open spec fn view(&self) -> FirepilotErrorView {
        match self {
            FirepilotError::Setup(reason) => FirepilotErrorView::Setup(reason@),
            FirepilotError::Configure(reason) => FirepilotErrorView::Configure(reason@),
            FirepilotError::Execute(reason) => FirepilotErrorView::Execute(reason@),
        }
    }
}

/// The machine's error for an error of the executor. The reason is kept,
/// the kind is not: what concerns the workspace or the supervisor's start is
/// a matter of setup, everything else one of configuration.
pub open spec fn converted(error: ExecuteErrorView) -> FirepilotErrorView {
    match error {
        ExecuteErrorView::CommandExecution(reason) => FirepilotErrorView::Setup(reason),
        ExecuteErrorView::Request(uri, reason) => FirepilotErrorView::Configure(
            uri + ": "@ + reason,
        ),
        ExecuteErrorView::Serialize(reason) => FirepilotErrorView::Configure(reason),
        ExecuteErrorView::Socket(reason) => FirepilotErrorView::Configure(reason),
        ExecuteErrorView::WorkspaceCreation(reason) => FirepilotErrorView::Setup(reason),
        ExecuteErrorView::WorkspaceDeletion(reason) => FirepilotErrorView::Setup(reason),
        ExecuteErrorView::Unhealthy => FirepilotErrorView::Configure(unhealthy_text()),
    }
}

impl FirepilotError {
    /// The machine's error for an error of the executor.
    pub fn from(e: ExecuteError) -> (error: FirepilotError)
        ensures
            error@ == converted(e@),
    {
        match e {
            ExecuteError::CommandExecution(reason) => FirepilotError::Setup(reason),
            ExecuteError::Request(uri, reason) => FirepilotError::Configure(
                uri.concat(": ").concat(reason.as_str()),
            ),
            ExecuteError::Serialize(reason) => FirepilotError::Configure(reason),
            ExecuteError::Socket(reason) => FirepilotError::Configure(reason),
            ExecuteError::WorkspaceCreation(reason) => FirepilotError::Setup(reason),
            ExecuteError::WorkspaceDeletion(reason) => FirepilotError::Setup(reason),
            ExecuteError::Unhealthy => FirepilotError::Configure(
                String::from_str("Socket didn't start on time"),
            ),
        }
    }
}

/// The progress of a method of the machine, with the error by its view;
/// `None` while an operation is pending.
pub open spec fn machine_progress_view(progress: Progress<FirepilotError>) -> Option<
    Result<(), FirepilotErrorView>,
> {
    match progress {
        Progress::Pending => None,
        Progress::Finished(Ok(())) => Some(Ok(())),
        Progress::Finished(Err(error)) => Some(Err(error@)),
    }
}

/// What the machine says where the executor says `progress`.
pub open spec fn lifted(progress: Option<Result<(), ExecuteErrorView>>) -> Option<
    Result<(), FirepilotErrorView>,
> {
    match progress {
        None => None,
        Some(Ok(())) => Some(Ok(())),
        Some(Err(error)) => Some(Err(converted(error))),
    }
}

/// The name of the kernel image in the workspace.
pub open spec fn kernel_name() -> Seq<char> {
    "vmlinux"@
}

/// The name of the initrd image in the workspace.
pub open spec fn initrd_name() -> Seq<char> {
    "initrd"@
}

/// What is said of a configuration without an executor.
pub open spec fn no_executor_text() -> Seq<char> {
    "No executor was provided in the configuration"@
}

/// What is said of a configuration without a boot source.
pub open spec fn no_boot_source_text() -> Seq<char> {
    "No boot source was provided in the configuration"@
}

/// `drive` as it is configured once its file is in the workspace `chroot`:
/// its host path is the file of the drive's id there.
pub open spec fn staged(chroot: Seq<char>, drive: DriveView) -> DriveView {
    DriveView { path_on_host: joined(chroot, drive.drive_id), ..drive }
}

/// `storage` with every drive staged.
pub open spec fn staged_drives(chroot: Seq<char>, storage: Seq<DriveView>) -> Seq<DriveView> {
    Seq::new(storage.len(), |i: int| staged(chroot, storage[i]))
}

/// The copies that bring the drives' files into the workspace, in the
/// drives' order.
pub open spec fn drive_copies(chroot: Seq<char>, storage: Seq<DriveView>) -> Seq<OperationView> {
    Seq::new(
        storage.len(),
        |i: int|
            OperationView::CopyFile {
                from: storage[i].path_on_host,
                to: joined(chroot, storage[i].drive_id),
            },
    )
}

/// The copies that bring the kernel image, and the initrd image if there is
/// one, into the workspace.
pub open spec fn kernel_copies(chroot: Seq<char>, kernel: BootSourceView) -> Seq<OperationView> {
    let image = seq![
        OperationView::CopyFile {
            from: kernel.kernel_image_path,
            to: joined(chroot, kernel_name()),
        },
    ];
    match kernel.initrd_path {
        Some(initrd) => image.push(
            OperationView::CopyFile { from: initrd, to: joined(chroot, initrd_name()) },
        ),
        None => image,
    }
}

/// Everything that creating a machine takes, in its order: the workspace;
/// the drives' files, each under its drive's id; the kernel and the initrd;
/// the supervisor and its socket; then the configuration of the drives, as
/// staged, of the boot source and of the network interfaces.
pub open spec fn create_plan(
    executor: ExecutorView,
    kernel: BootSourceView,
    storage: Seq<DriveView>,
    interfaces: Seq<NetworkInterfaceView>,
) -> Seq<OperationView> {
    executor.workspace_plan() + drive_copies(executor.chroot(), storage) + kernel_copies(
        executor.chroot(),
        kernel,
    ) + executor.socket_plan() + executor.drive_plan(staged_drives(executor.chroot(), storage))
        + executor.boot_source_plan(kernel) + executor.network_plan(interfaces)
}

/// The order of creation is fixed. The workspace comes first, then one copy
/// for each drive, then the copies of the kernel and the initrd, then the
/// start of the supervisor and the look for its socket, and only then the
/// requests: the drives in their order, the boot source, the interfaces in
/// their order.
pub proof fn lemma_creation_in_order(
    executor: ExecutorView,
    kernel: BootSourceView,
    storage: Seq<DriveView>,
    interfaces: Seq<NetworkInterfaceView>,
)
    ensures
        ({
            let plan = create_plan(executor, kernel, storage, interfaces);
            let drives = storage.len() as int;
            let images: int = if kernel.initrd_path is Some {
                2
            } else {
                1
            };
            let socket = 1 + drives + images;
            let chroot = executor.chroot();
            &&& plan.len() == socket + 2 + drives + 1 + interfaces.len()
            &&& plan[0] == (OperationView::CreateWorkspace { path: chroot })
            &&& forall|i: int|
                0 <= i < drives ==> #[trigger] plan[1 + i] == (OperationView::CopyFile {
                    from: storage[i].path_on_host,
                    to: joined(chroot, storage[i].drive_id),
                })
            &&& plan[1 + drives] == (OperationView::CopyFile {
                from: kernel.kernel_image_path,
                to: joined(chroot, kernel_name()),
            })
            &&& kernel.initrd_path matches Some(initrd) ==> plan[2 + drives]
                == (OperationView::CopyFile { from: initrd, to: joined(chroot, initrd_name()) })
            &&& plan[socket] is SpawnSocket
            &&& plan[socket + 1] == (OperationView::ProbeSocket {
                path: executor.socket(),
                delay_millis: 0,
            })
            &&& forall|i: int|
                0 <= i < drives ==> #[trigger] plan[socket + 2 + i] == executor.put(
                    drive_endpoint(storage[i].drive_id),
                    PayloadView::Drive(staged(chroot, storage[i])),
                )
            &&& plan[socket + 2 + drives] == executor.put(
                boot_source_endpoint(),
                PayloadView::BootSource(kernel),
            )
            &&& forall|i: int|
                0 <= i < interfaces.len() ==> #[trigger] plan[socket + 3 + drives + i]
                    == executor.put(
                    interface_endpoint(interfaces[i].iface_id),
                    PayloadView::NetworkInterface(interfaces[i]),
                )
        }),
{
}

impl ConfigurationView {
    /// Whether a machine can be created from the configuration, if it has an
    /// executor and a boot source at all: the executor knows how to run the
    /// supervisor, and every address that has to be reached can be built.
    pub open spec fn launchable(self) -> bool {
        self.executor matches Some(executor) ==> {
            &&& executor.configured()
            &&& executor.reaches(boot_source_endpoint())
            &&& executor.reaches_drives(self.storage)
            &&& executor.reaches_interfaces(self.interfaces)
        }
    }
}

impl Configuration {
    /// Tells whether a machine can be created from the configuration, if it
    /// has an executor and a boot source at all.
    pub fn is_launchable(&self) -> (launchable: bool)
        ensures
            launchable == self@.launchable(),
    {
        match &self.executor {
            None => true,
            Some(executor) => {
                executor.is_configured() && executor.reaches("/boot-source")
                    && executor.reaches_drives(&self.storage) && executor.reaches_interfaces(
                    &self.interfaces,
                )
            },
        }
    }
}

/// Whether a machine that was `before` has set out to create itself from
/// `config`, is `after` for it and says `progress`.
///
/// Without an executor or without a boot source nothing is done: the machine
/// stays as it was and says that it is finished, with a `Setup` error. Else
/// the machine has the configuration's executor, with what `create_plan`
/// lists laid down, and says that an operation is pending.
pub open spec fn created(
    before: MachineView,
    config: ConfigurationView,
    after: MachineView,
    progress: Option<Result<(), FirepilotErrorView>>,
) -> bool {
    match (config.executor, config.kernel) {
        (Some(executor), Some(kernel)) => {
            &&& after.executor == executor.begun(
                create_plan(executor, kernel, config.storage, config.interfaces),
            )
            &&& progress is None
        },
        (None, _) => {
            &&& after == before
            &&& progress == Some(
                Err::<(), FirepilotErrorView>(FirepilotErrorView::Setup(no_executor_text())),
            )
        },
        (Some(_), None) => {
            &&& after == before
            &&& progress == Some(
                Err::<(), FirepilotErrorView>(FirepilotErrorView::Setup(no_boot_source_text())),
            )
        },
    }
}

/// One microVM.
#[derive(Debug)]
pub struct Machine {
    /// The executor of the configuration that the machine was created from.
    executor: Executor,
}

pub struct MachineView {
    pub executor: ExecutorView,
}

impl View for Machine {
    type V = MachineView;

    closed spec fn view(&self) -> MachineView {
        MachineView { executor: self.executor@ }
    }
}

/// The views of the operations of two lists, one after the other, are those
/// of the lists joined.
proof fn lemma_views_of_joined(first: Seq<Operation>, second: Seq<Operation>)
    ensures
        operation_views(first + second) == operation_views(first) + operation_views(second),
{
}

/// Moves the operations of `more` to the end of `steps`.
fn extend(steps: &mut Vec<Operation>, more: Vec<Operation>)
    ensures
        operation_views(final(steps)@) == operation_views(old(steps)@) + operation_views(more@),
{
    let mut more = more;
    proof {
        lemma_views_of_joined(steps@, more@);
    }
    steps.append(&mut more);
}

impl Machine {
    /// A machine that was not created yet. Its executor does not know how to
    /// run a supervisor.
    pub fn new() -> (machine: Machine)
        ensures
            machine@.executor == (ExecutorView {
                firecracker: None,
                socket_process: SocketProcess::NotStarted,
                id: default_id(),
                remaining: Seq::empty(),
                misses: 0,
            }),
    {
        Machine { executor: Executor::new() }
    }

    /// The operation that copies the file at `from` to `to`.
    pub fn copy(from: String, to: String) -> (operation: Operation)
        ensures
            operation@ == (OperationView::CopyFile { from: from@, to: to@ }),
    {
        Operation::CopyFile { from, to }
    }

    /// The operation that the host is to do next, if there is one.
    pub fn pending(&self) -> (operation: Option<&Operation>)
        ensures
            match operation {
                Some(operation) => self@.executor.remaining.len() > 0 && operation@
                    == self@.executor.remaining[0],
                None => self@.executor.remaining.len() == 0,
            },
    {
        self.executor.pending()
    }

    /// Tells whether the handle of a supervisor process is held.
    pub fn is_running(&self) -> (running: bool)
        ensures
            running == self@.executor.running(),
    {
        self.executor.is_running()
    }

    /// Tells whether actions can be sent: the machine's executor knows how to
    /// run the supervisor, and the address for actions can be built.
    pub fn is_steerable(&self) -> (steerable: bool)
        ensures
            steerable == (self@.executor.configured() && self@.executor.reaches(
                actions_endpoint(),
            )),
    {
        self.executor.is_configured() && self.executor.reaches("/actions")
    }

    /// The copies that bring the drives' files into the workspace, and the
    /// drives as they are configured then.
    fn stage(chroot: &str, storage: Vec<Drive>) -> (staging: (Vec<Operation>, Vec<Drive>))
        ensures
            operation_views(staging.0@) == drive_copies(chroot@, drive_views(storage@)),
            drive_views(staging.1@) == staged_drives(chroot@, drive_views(storage@)),
    {
        let ghost all = drive_views(storage@);
        let mut rest = storage;
        let mut copies: Vec<Operation> = Vec::new();
        let mut drives: Vec<Drive> = Vec::new();
        while rest.len() > 0
            invariant
                copies.len() + rest.len() == all.len(),
                drives.len() == copies.len(),
                forall|k: int| 0 <= k < rest.len() ==> rest[k]@ == all[copies.len() + k],
                forall|k: int|
                    0 <= k < copies.len() ==> (#[trigger] copies[k])@ == drive_copies(
                        chroot@,
                        all,
                    )[k],
                forall|k: int|
                    0 <= k < drives.len() ==> (#[trigger] drives[k])@ == staged(chroot@, all[k]),
            decreases rest.len(),
        {
            let drive = rest.remove(0);
            let Drive {
                drive_id,
                cache_type,
                is_read_only,
                is_root_device,
                partuuid,
                path_on_host,
                rate_limiter,
                io_engine,
            } = drive;
            let to = join(chroot, drive_id.as_str());
            copies.push(Machine::copy(path_on_host, to.clone()));
            drives.push(
                Drive {
                    drive_id,
                    cache_type,
                    is_read_only,
                    is_root_device,
                    partuuid,
                    path_on_host: to,
                    rate_limiter,
                    io_engine,
                },
            );
        }
        (copies, drives)
    }

    /// The copies that bring the kernel and the initrd into the workspace.
    fn stage_kernel(chroot: &str, kernel: &BootSource) -> (copies: Vec<Operation>)
        ensures
            operation_views(copies@) == kernel_copies(chroot@, kernel@),
    {
        let mut copies: Vec<Operation> = Vec::new();
        copies.push(Machine::copy(kernel.kernel_image_path.clone(), join(chroot, "vmlinux")));
        match &kernel.initrd_path {
            Some(initrd) => {
                copies.push(Machine::copy(initrd.clone(), join(chroot, "initrd")));
            },
            None => {},
        }
        copies
    }

    /// Sets out to create the machine from `config`.
    ///
    /// Without an executor or without a boot source nothing is done: the end
    /// is a `Setup` error at once and the machine stays as it is. Else the
    /// machine takes the configuration's executor, and what `create_plan`
    /// lists is laid down. The first operation that fails ends the whole:
    /// what was done before stays done, and nothing is cleaned up.
    pub fn create(&mut self, config: Configuration) -> (progress: Progress<FirepilotError>)
        requires
            config@.launchable(),
        ensures
            created(old(self)@, config@, final(self)@, machine_progress_view(progress)),
    {
        let Configuration { executor, kernel, storage, interfaces, vm_id: _ } = config;
        let executor = match executor {
            Some(executor) => executor,
            None => {
                return Progress::Finished(
                    Err(
                        FirepilotError::Setup(
                            String::from_str("No executor was provided in the configuration"),
                        ),
                    ),
                );
            },
        };
        let kernel = match kernel {
            Some(kernel) => kernel,
            None => {
                return Progress::Finished(
                    Err(
                        FirepilotError::Setup(
                            String::from_str("No boot source was provided in the configuration"),
                        ),
                    ),
                );
            },
        };
        let chroot = executor.chroot();
        let mut steps = executor.workspace_steps();
        let (copies, staged_storage) = Machine::stage(chroot.as_str(), storage);
        extend(&mut steps, copies);
        extend(&mut steps, Machine::stage_kernel(chroot.as_str(), &kernel));
        extend(&mut steps, executor.socket_steps());
        extend(&mut steps, executor.drive_steps(staged_storage));
        extend(&mut steps, executor.boot_source_steps(kernel));
        extend(&mut steps, executor.network_steps(interfaces));
        self.executor = executor;
        self.executor.begin(steps);
        Progress::Pending
    }

    /// Sets out to create the machine from `config`, if that can be done: if
    /// the configuration is launchable. Else nothing changes and the
    /// configuration is handed back.
    pub fn try_create(&mut self, config: Configuration) -> (progress: Result<
        Progress<FirepilotError>,
        Configuration,
    >)
        ensures
            match progress {
                Ok(progress) => {
                    &&& config@.launchable()
                    &&& created(old(self)@, config@, final(self)@, machine_progress_view(progress))
                },
                Err(back) => {
                    &&& !config@.launchable()
                    &&& final(self)@ == old(self)@
                    &&& back == config
                },
            },
    {
        if config.is_launchable() {
            Ok(self.create(config))
        } else {
            Err(config)
        }
    }

    /// Takes in what the host reports of the pending operation, and tells
    /// whether anything is left to do. The executor judges the outcome; an
    /// error of the executor ends the whole as the machine's error for it.
    pub fn resume(&mut self, outcome: Outcome) -> (progress: Progress<FirepilotError>)
        ensures
            final(self)@.executor == old(self)@.executor.resumed(outcome@),
            machine_progress_view(progress) == lifted(old(self)@.executor.reported(outcome@)),
    {
        match self.executor.resume(outcome) {
            Progress::Pending => Progress::Pending,
            Progress::Finished(Ok(())) => Progress::Finished(Ok(())),
            Progress::Finished(Err(error)) => Progress::Finished(Err(FirepilotError::from(error))),
        }
    }

    /// Sets out to kill the supervisor and to remove its socket; a machine
    /// that was running stops. Without the handle of a supervisor process the
    /// end is an error at once. The workspace is left as it is.
    pub fn kill(&mut self) -> (progress: Progress<FirepilotError>)
        ensures
            old(self)@.executor.running() && old(self)@.executor.configured() ==> progress
                is Pending && final(self)@.executor == old(self)@.executor.begun(
                old(self)@.executor.teardown_plan(),
            ),
            !(old(self)@.executor.running() && old(self)@.executor.configured()) ==> final(self)@
                == old(self)@ && machine_progress_view(progress) == Some(
                Err::<(), FirepilotErrorView>(
                    FirepilotErrorView::Configure(not_spawned_text()),
                ),
            ),
    {
        match self.executor.destroy_socket() {
            Progress::Pending => Progress::Pending,
            Progress::Finished(Ok(())) => Progress::Finished(Ok(())),
            Progress::Finished(Err(error)) => Progress::Finished(Err(FirepilotError::from(error))),
        }
    }

    /// Sets out to tell the guest to start.
    pub fn start(&mut self) -> (progress: Progress<FirepilotError>)
        requires
            old(self)@.executor.configured(),
            old(self)@.executor.reaches(actions_endpoint()),
        ensures
            final(self)@.executor == old(self)@.executor.begun(
                old(self)@.executor.action_plan(Action::InstanceStart),
            ),
            progress is Pending,
    {
        self.executor.send_action(Action::InstanceStart);
        Progress::Pending
    }

    /// Sets out to tell the guest to shut down, as the key combination does.
    pub fn stop(&mut self) -> (progress: Progress<FirepilotError>)
        requires
            old(self)@.executor.configured(),
            old(self)@.executor.reaches(actions_endpoint()),
        ensures
            final(self)@.executor == old(self)@.executor.begun(
                old(self)@.executor.action_plan(Action::SendCtrlAltDel),
            ),
            progress is Pending,
    {
        self.executor.send_action(Action::SendCtrlAltDel);
        Progress::Pending
    }

    /// Sets out to tell the guest to start, if that can be done: if actions
    /// can be sent. Else nothing changes.
    pub fn try_start(&mut self) -> (progress: Option<Progress<FirepilotError>>)
        ensures
            match progress {
                Some(progress) => {
                    &&& old(self)@.executor.configured() && old(self)@.executor.reaches(
                        actions_endpoint(),
                    )
                    &&& final(self)@.executor == old(self)@.executor.begun(
                        old(self)@.executor.action_plan(Action::InstanceStart),
                    )
                    &&& progress is Pending
                },
                None => {
                    &&& !(old(self)@.executor.configured() && old(self)@.executor.reaches(
                        actions_endpoint(),
                    ))
                    &&& final(self)@ == old(self)@
                },
            },
    {
        if self.is_steerable() {
            Some(self.start())
        } else {
            None
        }
    }

    /// Sets out to tell the guest to shut down, if that can be done: if
    /// actions can be sent. Else nothing changes.
    pub fn try_stop(&mut self) -> (progress: Option<Progress<FirepilotError>>)
        ensures
            match progress {
                Some(progress) => {
                    &&& old(self)@.executor.configured() && old(self)@.executor.reaches(
                        actions_endpoint(),
                    )
                    &&& final(self)@.executor == old(self)@.executor.begun(
                        old(self)@.executor.action_plan(Action::SendCtrlAltDel),
                    )
                    &&& progress is Pending
                },
                None => {
                    &&& !(old(self)@.executor.configured() && old(self)@.executor.reaches(
                        actions_endpoint(),
                    ))
                    &&& final(self)@ == old(self)@
                },
            },
    {
        if self.is_steerable() {
            Some(self.stop())
        } else {
            None
        }
    }
}

} // verus!
