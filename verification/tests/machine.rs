use firepilot::builder::drive::DriveBuilder;
use firepilot::builder::executor::FirecrackerExecutorBuilder;
use firepilot::builder::kernel::KernelBuilder;
use firepilot::builder::network_interface::NetworkInterfaceBuilder;
use firepilot::builder::{Builder, Configuration};
use firepilot::executor::error::ExecuteError;
use firepilot::executor::operation::{Action, Operation, Outcome, Payload};
use firepilot::executor::{Executor, Progress};
use firepilot::machine::{FirepilotError, Machine};
use firepilot::models::Drive;

fn hex(text: &str) -> String {
    let mut out = String::new();
    for byte in text.as_bytes() {
        out.push_str(&format!("{:02x}", byte));
    }
    out
}

fn uri(socket: &str, endpoint: &str) -> String {
    format!("unix://{}:0{}", hex(socket), endpoint)
}

fn simple_vm() -> Configuration {
    let kernel = KernelBuilder::new()
        .with_kernel_image_path("examples/resources/kernel.bin".to_string())
        .with_boot_args("reboot=k panic=1 pci=off".to_string())
        .try_build()
        .unwrap();
    let drive = DriveBuilder::new()
        .with_drive_id("rootfs".to_string())
        .with_path_on_host("examples/resources/rootfs.ext4".to_string())
        .as_read_only()
        .as_root_device()
        .try_build()
        .unwrap();
    let executor = FirecrackerExecutorBuilder::new()
        .with_chroot("./examples/executor/".to_string())
        .with_exec_binary(String::from("/usr/bin/firecracker"))
        .try_build()
        .unwrap();
    Configuration::new("simple_vm".to_string())
        .with_kernel(kernel)
        .with_executor(executor)
        .with_drive(drive)
}

/// Stands in for the host: does nothing and reports success, a status of 204
/// for requests, and keeps what it was asked to do.
fn run(machine: &mut Machine, first: Progress<FirepilotError>) -> (Vec<Operation>, Result<(), FirepilotError>) {
    let mut done = Vec::new();
    let mut progress = first;
    loop {
        match progress {
            Progress::Finished(result) => return (done, result),
            Progress::Pending => {
                let operation = machine.pending().unwrap().clone();
                let outcome = match &operation {
                    Operation::Put { .. } => Outcome::Answered(204),
                    _ => Outcome::Done,
                };
                done.push(operation);
                progress = machine.resume(outcome);
            }
        }
    }
}

#[test]
fn machine_is_created_started_stopped_and_killed() {
    let config = simple_vm();
    assert!(config.is_launchable());
    let kernel = config.kernel.clone().unwrap();
    let mut machine = Machine::new();
    let first = machine.create(config);
    let (done, result) = run(&mut machine, first);
    assert_eq!(result, Ok(()));
    let chroot = "./examples/executor/simple_vm";
    let socket = "./examples/executor/simple_vm/firecracker.socket";
    let staged = Drive {
        drive_id: "rootfs".to_string(),
        cache_type: None,
        is_read_only: true,
        is_root_device: true,
        partuuid: None,
        path_on_host: "./examples/executor/simple_vm/rootfs".to_string(),
        rate_limiter: None,
        io_engine: None,
    };
    assert_eq!(
        done,
        vec![
            Operation::CreateWorkspace {
                path: chroot.to_string()
            },
            Operation::CopyFile {
                from: "examples/resources/rootfs.ext4".to_string(),
                to: "./examples/executor/simple_vm/rootfs".to_string(),
            },
            Operation::CopyFile {
                from: "examples/resources/kernel.bin".to_string(),
                to: "./examples/executor/simple_vm/vmlinux".to_string(),
            },
            Operation::SpawnSocket {
                program: "/usr/bin/firecracker".to_string(),
                args: vec!["--api-sock".to_string(), socket.to_string()],
            },
            Operation::ProbeSocket {
                path: socket.to_string(),
                delay_millis: 0
            },
            Operation::Put {
                uri: uri(socket, "/drives/rootfs"),
                payload: Payload::Drive(staged),
            },
            Operation::Put {
                uri: uri(socket, "/boot-source"),
                payload: Payload::BootSource(kernel),
            },
        ]
    );
    assert!(machine.is_running());
    assert!(machine.is_steerable());

    let first = machine.start();
    let (done, result) = run(&mut machine, first);
    assert_eq!(result, Ok(()));
    assert_eq!(
        done,
        vec![Operation::Put {
            uri: uri(socket, "/actions"),
            payload: Payload::Action(Action::InstanceStart),
        }]
    );

    let first = machine.stop();
    let (done, result) = run(&mut machine, first);
    assert_eq!(result, Ok(()));
    assert_eq!(
        done,
        vec![Operation::Put {
            uri: uri(socket, "/actions"),
            payload: Payload::Action(Action::SendCtrlAltDel),
        }]
    );

    let first = machine.kill();
    let (done, result) = run(&mut machine, first);
    assert_eq!(result, Ok(()));
    assert_eq!(
        done,
        vec![
            Operation::KillSocket,
            Operation::RemoveSocket {
                path: socket.to_string()
            },
        ]
    );
    assert!(!machine.is_running());

    let second = machine.kill();
    assert_eq!(
        second,
        Progress::Finished(Err(FirepilotError::Configure(
            "Socket hasn't been spawned, you must spawn it before destroying it".to_string()
        )))
    );
    assert!(machine.pending().is_none());
}

#[test]
fn machine_stages_the_initrd_and_configures_the_network_last() {
    let kernel = KernelBuilder::new()
        .with_kernel_image_path("/images/vmlinux.bin".to_string())
        .with_initrd_path("/images/initrd.img".to_string())
        .try_build()
        .unwrap();
    let executor = FirecrackerExecutorBuilder::new()
        .with_chroot("/srv".to_string())
        .with_exec_binary(String::from("/usr/bin/firecracker"))
        .try_build()
        .unwrap();
    let iface = NetworkInterfaceBuilder::new()
        .with_host_dev_name("tap0".to_string())
        .with_iface_id("net0".to_string())
        .try_build()
        .unwrap();
    let config = Configuration::new("vm".to_string())
        .with_interface(iface.clone())
        .with_executor(executor)
        .with_kernel(kernel.clone());
    let mut machine = Machine::new();
    let first = machine.create(config);
    let (done, result) = run(&mut machine, first);
    assert_eq!(result, Ok(()));
    assert_eq!(
        done,
        vec![
            Operation::CreateWorkspace {
                path: "/srv/vm".to_string()
            },
            Operation::CopyFile {
                from: "/images/vmlinux.bin".to_string(),
                to: "/srv/vm/vmlinux".to_string(),
            },
            Operation::CopyFile {
                from: "/images/initrd.img".to_string(),
                to: "/srv/vm/initrd".to_string(),
            },
            Operation::SpawnSocket {
                program: "/usr/bin/firecracker".to_string(),
                args: vec![
                    "--api-sock".to_string(),
                    "/srv/vm/firecracker.socket".to_string()
                ],
            },
            Operation::ProbeSocket {
                path: "/srv/vm/firecracker.socket".to_string(),
                delay_millis: 0
            },
            Operation::Put {
                uri: uri("/srv/vm/firecracker.socket", "/boot-source"),
                payload: Payload::BootSource(kernel),
            },
            Operation::Put {
                uri: uri("/srv/vm/firecracker.socket", "/network-interfaces/net0"),
                payload: Payload::NetworkInterface(iface),
            },
        ]
    );
}

#[test]
fn machine_needs_an_executor() {
    let kernel = KernelBuilder::new()
        .with_kernel_image_path("/images/vmlinux.bin".to_string())
        .try_build()
        .unwrap();
    let config = Configuration::new("vm".to_string()).with_kernel(kernel);
    assert!(config.is_launchable());
    let mut machine = Machine::new();
    assert_eq!(
        machine.create(config),
        Progress::Finished(Err(FirepilotError::Setup(
            "No executor was provided in the configuration".to_string()
        )))
    );
    assert!(machine.pending().is_none());
}

#[test]
fn machine_needs_a_boot_source() {
    let executor = FirecrackerExecutorBuilder::new()
        .with_chroot("/srv".to_string())
        .with_exec_binary(String::from("/usr/bin/firecracker"))
        .try_build()
        .unwrap();
    let config = Configuration::new("vm".to_string()).with_executor(executor);
    let mut machine = Machine::new();
    assert_eq!(
        machine.create(config),
        Progress::Finished(Err(FirepilotError::Setup(
            "No boot source was provided in the configuration".to_string()
        )))
    );
    assert!(machine.pending().is_none());
    assert!(!machine.is_steerable());
}

#[test]
fn machine_stops_at_the_first_failure() {
    let mut machine = Machine::new();
    machine.create(simple_vm());
    assert_eq!(machine.resume(Outcome::Done), Progress::Pending);
    assert_eq!(
        machine.resume(Outcome::Failed("No such file or directory".to_string())),
        Progress::Finished(Err(FirepilotError::Setup(
            "Failed to copy \"examples/resources/rootfs.ext4\" to \"./examples/executor/simple_vm/rootfs\": No such file or directory"
                .to_string()
        )))
    );
    assert!(machine.pending().is_none());
    assert!(!machine.is_running());
}

#[test]
fn machine_reports_an_unhealthy_socket() {
    let mut machine = Machine::new();
    machine.create(simple_vm());
    for _ in 0..4 {
        assert_eq!(machine.resume(Outcome::Done), Progress::Pending);
    }
    for _ in 0..9 {
        assert_eq!(
            machine.resume(Outcome::Failed("not there".to_string())),
            Progress::Pending
        );
    }
    assert_eq!(
        machine.resume(Outcome::Failed("not there".to_string())),
        Progress::Finished(Err(FirepilotError::Configure(
            "Socket didn't start on time".to_string()
        )))
    );
    assert!(!machine.is_running());
}

#[test]
fn machine_kill_before_create_is_an_error() {
    let mut machine = Machine::new();
    assert!(matches!(
        machine.kill(),
        Progress::Finished(Err(FirepilotError::Configure(_)))
    ));
}

#[test]
fn executor_errors_become_machine_errors() {
    assert_eq!(
        FirepilotError::from(ExecuteError::CommandExecution("a".to_string())),
        FirepilotError::Setup("a".to_string())
    );
    assert_eq!(
        FirepilotError::from(ExecuteError::Request(
            "unix://00:0/actions".to_string(),
            "b".to_string()
        )),
        FirepilotError::Configure("unix://00:0/actions: b".to_string())
    );
    assert_eq!(
        FirepilotError::from(ExecuteError::Serialize("c".to_string())),
        FirepilotError::Configure("c".to_string())
    );
    assert_eq!(
        FirepilotError::from(ExecuteError::Socket("d".to_string())),
        FirepilotError::Configure("d".to_string())
    );
    assert_eq!(
        FirepilotError::from(ExecuteError::WorkspaceCreation("e".to_string())),
        FirepilotError::Setup("e".to_string())
    );
    assert_eq!(
        FirepilotError::from(ExecuteError::WorkspaceDeletion("f".to_string())),
        FirepilotError::Setup("f".to_string())
    );
    assert_eq!(
        FirepilotError::from(ExecuteError::Unhealthy),
        FirepilotError::Configure("Socket didn't start on time".to_string())
    );
}

#[test]
fn copies_are_operations() {
    assert_eq!(
        Machine::copy("/a".to_string(), "/b".to_string()),
        Operation::CopyFile {
            from: "/a".to_string(),
            to: "/b".to_string()
        }
    );
}

#[test]
fn unconfigured_executors_cannot_launch() {
    let kernel = KernelBuilder::new()
        .with_kernel_image_path("/images/vmlinux.bin".to_string())
        .try_build()
        .unwrap();
    let config = Configuration::new("vm".to_string())
        .with_kernel(kernel)
        .with_executor(Executor::new());
    assert!(!config.is_launchable());
    let spaced = DriveBuilder::new()
        .with_drive_id("root fs".to_string())
        .with_path_on_host("/images/rootfs".to_string())
        .try_build()
        .unwrap();
    assert!(!simple_vm().with_drive(spaced).is_launchable());
}

#[test]
fn machine_hands_back_what_it_cannot_launch() {
    let spaced = DriveBuilder::new()
        .with_drive_id("root fs".to_string())
        .with_path_on_host("/images/rootfs".to_string())
        .try_build()
        .unwrap();
    let mut machine = Machine::new();
    let back = machine.try_create(simple_vm().with_drive(spaced.clone())).unwrap_err();
    assert_eq!(back.storage.len(), 2);
    assert_eq!(back.storage[1], spaced);
    assert!(machine.pending().is_none());
    assert_eq!(machine.try_start(), None);
    assert_eq!(machine.try_stop(), None);

    assert_eq!(
        machine.try_create(simple_vm()).unwrap(),
        Progress::Pending
    );
    assert_eq!(
        machine.pending(),
        Some(&Operation::CreateWorkspace {
            path: "./examples/executor/simple_vm".to_string()
        })
    );
    assert_eq!(machine.try_start(), Some(Progress::Pending));
    assert_eq!(machine.try_stop(), Some(Progress::Pending));
}
