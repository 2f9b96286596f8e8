//! The supervisor run in the foreground from a configuration file, one run
//! for each microVM.

use vstd::prelude::*;
use vstd::string::StringExecFns;

use crate::builder::executor::{BinarySearch, FirecrackerExecutorBuilder};
use crate::exec::{Args, Executable, Invocation};
use crate::executor::actions_endpoint;
use crate::executor::operation::Action;
use crate::microvm::MicroVM;
use crate::path::{join, joined};
use crate::wire::{addressable, is_addressable, socket_uri, unix_uri};

verus! {

/// A failure of the supervisor or of a request to it. Where a text is
/// given, it is what the host reported.
#[derive(Debug, Clone, PartialEq, Eq)]
pub enum FirecrackerError {
    /// The supervisor's binary was not found.
    BinaryNotFound,
    /// The working directory could not be created.
    WorkingDirCreation(String),
    /// The supervisor could not be spawned.
    ProcessSpawn(String),
    /// The supervisor could not be started.
    Exec(String),
    /// The supervisor ran and failed; its output and its error output.
    CommandFailed(String, String),
    /// A request could not be built.
    RequestBuilderFailed(String),
    /// A request could not be sent.
    RequestFailed(String),
}

pub enum FirecrackerErrorView {
    BinaryNotFound,
    WorkingDirCreation(Seq<char>),
    ProcessSpawn(Seq<char>),
    Exec(Seq<char>),
    CommandFailed(Seq<char>, Seq<char>),
    RequestBuilderFailed(Seq<char>),
    RequestFailed(Seq<char>),
}

impl View for FirecrackerError {
    type V = FirecrackerErrorView;

    open spec fn view(&self) -> FirecrackerErrorView {
        match self {
            FirecrackerError::BinaryNotFound => FirecrackerErrorView::BinaryNotFound,
            FirecrackerError::WorkingDirCreation(reason) => {
                FirecrackerErrorView::WorkingDirCreation(reason@)
            },
            FirecrackerError::ProcessSpawn(reason) => FirecrackerErrorView::ProcessSpawn(reason@),
            FirecrackerError::Exec(reason) => FirecrackerErrorView::Exec(reason@),
            FirecrackerError::CommandFailed(stdout, stderr) => {
                FirecrackerErrorView::CommandFailed(stdout@, stderr@)
            },
            FirecrackerError::RequestBuilderFailed(reason) => {
                FirecrackerErrorView::RequestBuilderFailed(reason@)
            },
            FirecrackerError::RequestFailed(reason) => FirecrackerErrorView::RequestFailed(
                reason@,
            ),
        }
    }
}

/// How the supervisor is to be found and where it keeps its files.
#[derive(Debug, Clone, PartialEq, Eq)]
pub struct FirecrackerOptions {
    /// Host path of the supervisor's binary; without it the binary is looked
    /// for.
    pub command: Option<String>,
    /// The directory for sockets and configuration files; without it, the
    /// empty path.
    pub working_dir: Option<String>,
    /// Whether the working directory is to be created if it is not there.
    pub create_working_dir: bool,
}

impl Default for FirecrackerOptions {
    fn default() -> (options: FirecrackerOptions)
        ensures
            options == (FirecrackerOptions {
                command: None,
                working_dir: None,
                create_working_dir: false,
            }),
    {
        FirecrackerOptions { command: None, working_dir: None, create_working_dir: false }
    }
}

/// How a run of the supervisor ended.
#[derive(Debug, Clone, PartialEq, Eq)]
pub enum Exit {
    /// It could not be started, for the reason given.
    Unstarted(String),
    /// It ran to its end.
    Exited { success: bool, stdout: String, stderr: String },
}

/// What starts a microVM: the file to write the configuration to, as JSON,
/// and then the run of the supervisor.
#[derive(Debug, Clone, PartialEq, Eq)]
pub struct Launch {
    pub config_file: String,
    pub invocation: Invocation,
}

/// A `POST` request that carries an action, as JSON.
#[derive(Debug, Clone, PartialEq, Eq)]
pub struct Post {
    pub uri: String,
    pub action: Action,
}

/// How a request ended.
#[derive(Debug, Clone, PartialEq, Eq)]
pub enum Delivery {
    /// It was answered, with whatever status.
    Answered,
    /// It could not be built, for the reason given.
    Unbuilt(String),
    /// It could not be sent, for the reason given.
    Unsent(String),
}

/// The supervisor's binary and its working directory.
#[derive(Debug, Clone, PartialEq, Eq)]
pub struct Firecracker {
    /// Host path of the supervisor's binary.
    binary_path: String,
    /// The directory for sockets and configuration files.
    working_dir: String,
}

pub struct FirecrackerView {
    pub binary_path: Seq<char>,
    pub working_dir: Seq<char>,
}

impl View for Firecracker {
    type V = FirecrackerView;

    closed spec fn view(&self) -> FirecrackerView {
        FirecrackerView { binary_path: self.binary_path@, working_dir: self.working_dir@ }
    }
}

/// The name of the socket of the microVM named `id`.
pub open spec fn socket_file(id: Seq<char>) -> Seq<char> {
    "vm-"@ + id + ".sock"@
}

/// The name of the configuration file of the microVM named `id`.
pub open spec fn config_file(id: Seq<char>) -> Seq<char> {
    "vm-"@ + id + ".cfg.json"@
}

impl FirecrackerView {
    /// The socket of the microVM named `id`, in the working directory.
    pub open spec fn vm_socket_path(self, id: Seq<char>) -> Seq<char> {
        joined(self.working_dir, socket_file(id))
    }

    /// The configuration file of the microVM named `id`, in the working
    /// directory.
    pub open spec fn vm_config_path(self, id: Seq<char>) -> Seq<char> {
        joined(self.working_dir, config_file(id))
    }

    /// The arguments that start the microVM named `id`.
    pub open spec fn start_args(self, id: Seq<char>) -> Seq<Seq<char>> {
        seq![
            "--api-sock"@,
            self.vm_socket_path(id),
            "--config-file"@,
            self.vm_config_path(id),
        ]
    }
}

impl FirecrackerOptions {
    /// The directory that is to be created before the supervisor is used, if
    /// one is.
    pub fn directory_to_create(&self) -> (directory: Option<String>)
        ensures
            directory.deep_view() == if self.create_working_dir {
                Some(
                    match self.working_dir {
                        Some(working_dir) => working_dir@,
                        None => Seq::<char>::empty(),
                    },
                )
            } else {
                None
            },
    {
        if self.create_working_dir {
            match &self.working_dir {
                Some(working_dir) => Some(working_dir.clone()),
                None => Some(String::new()),
            }
        } else {
            None
        }
    }
}

impl Firecracker {
    /// Finds the binary: where `FIRECRACKER_LOCATION` points, else the first
    /// in `PATH`, else the one in the current directory.
    pub fn determine_binary_location(search: &BinarySearch) -> (found: Result<
        String,
        FirecrackerError,
    >)
        ensures
            match search.located() {
                Some(place) => found matches Ok(binary) && binary@ == place,
                None => found matches Err(error) && error@ == FirecrackerErrorView::BinaryNotFound,
            },
    {
        match FirecrackerExecutorBuilder::determine_binary_location(search) {
            Ok(binary) => Ok(binary),
            Err(_) => Err(FirecrackerError::BinaryNotFound),
        }
    }

    /// The supervisor as `options` describe it. The binary is the one that
    /// the options name, be it there or not; else the one that the search
    /// finds. The working directory is the one that the options name, else
    /// the empty path.
    pub fn new(options: FirecrackerOptions, search: &BinarySearch) -> (built: Result<
        Firecracker,
        FirecrackerError,
    >)
        ensures
            match options.command {
                Some(command) => built matches Ok(firecracker) && firecracker@.binary_path
                    == command@,
                None => match search.located() {
                    Some(place) => built matches Ok(firecracker) && firecracker@.binary_path
                        == place,
                    None => built matches Err(error) && error@
                        == FirecrackerErrorView::BinaryNotFound,
                },
            },
            built matches Ok(firecracker) ==> firecracker@.working_dir
                == match options.working_dir {
                Some(working_dir) => working_dir@,
                None => Seq::<char>::empty(),
            },
    {
        let binary_path = match options.command {
            Some(path) => path,
            None => match Self::determine_binary_location(search) {
                Ok(path) => path,
                Err(error) => {
                    return Err(error);
                },
            },
        };
        let working_dir = match options.working_dir {
            Some(working_dir) => working_dir,
            None => String::new(),
        };
        Ok(Firecracker { binary_path, working_dir })
    }

    /// The socket of the microVM named `vm_id`, in the working directory.
    pub fn vm_socket_path(&self, vm_id: &String) -> (path: String)
        ensures
            path@ == self@.vm_socket_path(vm_id@),
    {
        let name = String::from_str("vm-").concat(vm_id.as_str()).concat(".sock");
        join(self.working_dir.as_str(), name.as_str())
    }

    /// What starts `vm`: its configuration goes to its file in the working
    /// directory, then the supervisor is run with its socket and that file.
    pub fn start(&self, vm: &MicroVM) -> (launch: Result<Launch, FirecrackerError>)
        ensures
            launch matches Ok(launch) && launch.config_file@ == self@.vm_config_path(vm.id@)
                && launch.invocation.program@ == self@.binary_path
                && launch.invocation.args.deep_view() == self@.start_args(vm.id@),
    {
        let sock = self.vm_socket_path(&vm.id);
        let name = String::from_str("vm-").concat(vm.id.as_str()).concat(".cfg.json");
        let cfg_file = join(self.working_dir.as_str(), name.as_str());
        let mut args: Vec<String> = Vec::new();
        args.push(String::from_str("--api-sock"));
        args.push(sock);
        args.push(String::from_str("--config-file"));
        args.push(cfg_file.clone());
        match self.exec(&args) {
            Ok(invocation) => {
                Ok(Launch { config_file: cfg_file, invocation })
            },
            Err(error) => Err(error),
        }
    }

    /// What a run of the supervisor comes to: its output if it ended well,
    /// else an error.
    pub fn finish(exit: Exit) -> (output: Result<String, FirecrackerError>)
        ensures
            match exit {
                Exit::Unstarted(reason) => output matches Err(error) && error@
                    == FirecrackerErrorView::Exec(reason@),
                Exit::Exited { success, stdout, stderr } => if success {
                    output matches Ok(text) && text@ == stdout@
                } else {
                    output matches Err(error) && error@ == FirecrackerErrorView::CommandFailed(
                        stdout@,
                        stderr@,
                    )
                },
            },
    {
        match exit {
            Exit::Unstarted(reason) => Err(FirecrackerError::Exec(reason)),
            Exit::Exited { success, stdout, stderr } => if success {
                Ok(stdout)
            } else {
                Err(FirecrackerError::CommandFailed(stdout, stderr))
            },
        }
    }

    /// Tells whether the address for actions on the socket of the microVM
    /// named `vm_id` can be built.
    pub fn reaches(&self, vm_id: &String) -> (fits: bool)
        ensures
            fits == addressable(self@.vm_socket_path(vm_id@), actions_endpoint()),
    {
        let sock = self.vm_socket_path(vm_id);
        is_addressable(sock.as_str(), "/actions")
    }

    /// The request that tells the guest of `vm` to shut down.
    pub fn stop(&self, vm: &MicroVM) -> (request: Post)
        requires
            addressable(self@.vm_socket_path(vm.id@), actions_endpoint()),
        ensures
            request.uri@ == socket_uri(self@.vm_socket_path(vm.id@), actions_endpoint()),
            request.action == Action::SendCtrlAltDel,
    {
        let sock = self.vm_socket_path(&vm.id);
        Post { uri: unix_uri(sock.as_str(), "/actions"), action: Action::SendCtrlAltDel }
    }

    /// The request that tells the guest of `vm` to shut down, if its address
    /// can be built.
    pub fn try_stop(&self, vm: &MicroVM) -> (request: Option<Post>)
        ensures
            match request {
                Some(request) => {
                    &&& addressable(self@.vm_socket_path(vm.id@), actions_endpoint())
                    &&& request.uri@ == socket_uri(
                        self@.vm_socket_path(vm.id@),
                        actions_endpoint(),
                    )
                    &&& request.action == Action::SendCtrlAltDel
                },
                None => !addressable(self@.vm_socket_path(vm.id@), actions_endpoint()),
            },
    {
        if self.reaches(&vm.id) {
            Some(self.stop(vm))
        } else {
            None
        }
    }

    /// What a request to stop comes to: it went well if it was answered.
    pub fn stopped(delivery: Delivery) -> (result: Result<(), FirecrackerError>)
        ensures
            match delivery {
                Delivery::Answered => result is Ok,
                Delivery::Unbuilt(reason) => result matches Err(error) && error@
                    == FirecrackerErrorView::RequestBuilderFailed(reason@),
                Delivery::Unsent(reason) => result matches Err(error) && error@
                    == FirecrackerErrorView::RequestFailed(reason@),
            },
    {
        match delivery {
            Delivery::Answered => Ok(()),
            Delivery::Unbuilt(reason) => Err(FirecrackerError::RequestBuilderFailed(reason)),
            Delivery::Unsent(reason) => Err(FirecrackerError::RequestFailed(reason)),
        }
    }
}

impl Args for Firecracker {
    open spec fn own_args(&self) -> Option<Seq<Seq<char>>> {
        Some(Seq::empty())
    }

    fn args(&self) -> (args: Result<Vec<String>, FirecrackerError>) {
        let own: Vec<String> = Vec::new();
        Ok(own)
    }
}

impl Executable for Firecracker {
    closed spec fn program(&self) -> Seq<char> {
        self.binary_path@
    }

    fn exec(&self, args: &Vec<String>) -> (invocation: Result<Invocation, FirecrackerError>)
        ensures
            invocation matches Ok(run) ==> run.program@ == self@.binary_path,
    {
        match self.concat_args(args) {
            Ok(args) => Ok(Invocation { program: self.binary_path.clone(), args }),
            Err(error) => Err(error),
        }
    }
}

} // verus!
