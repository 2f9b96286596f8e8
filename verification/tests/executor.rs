use firepilot::executor::error::ExecuteError;
use firepilot::executor::operation::{
    Action, Operation, Outcome, Payload, Verdict, PROBE_ATTEMPTS, PROBE_DELAY_MILLIS,
};
use firepilot::executor::{Execute, Executor, FirecrackerExecutor, Progress};
use firepilot::models::{BootSource, Drive, NetworkInterface};
use firepilot::wire::is_addressable;

fn firecracker(chroot: &str) -> FirecrackerExecutor {
    FirecrackerExecutor {
        chroot: chroot.to_string(),
        exec_binary: "/usr/bin/firecracker".to_string(),
    }
}

fn hex(text: &str) -> String {
    let mut out = String::new();
    for byte in text.as_bytes() {
        out.push_str(&format!("{:02x}", byte));
    }
    out
}

fn uri(socket: &str, endpoint: &str) -> String {
    format!("unix://{}:0{}", hex(socket), endpoint)
}

fn drive(id: &str, path: &str) -> Drive {
    Drive {
        drive_id: id.to_string(),
        cache_type: None,
        is_read_only: true,
        is_root_device: true,
        partuuid: None,
        path_on_host: path.to_string(),
        rate_limiter: None,
        io_engine: None,
    }
}

fn iface(id: &str) -> NetworkInterface {
    NetworkInterface {
        guest_mac: None,
        host_dev_name: "tap0".to_string(),
        iface_id: id.to_string(),
        rx_rate_limiter: None,
        tx_rate_limiter: None,
    }
}

fn pending(executor: &Executor) -> Operation {
    executor.pending().unwrap().clone()
}

#[test]
fn executor_test_executor() {
    let executor = firecracker("/tmp/firepilot");
    let mut machine = Executor::new_with_firecracker(executor);
    assert_eq!(machine.create_workspace(), Progress::Pending);
    assert_eq!(
        pending(&machine),
        Operation::CreateWorkspace {
            path: "/tmp/firepilot/default".to_string()
        }
    );
    assert_eq!(machine.resume(Outcome::Done), Progress::Finished(Ok(())));

    assert_eq!(machine.run_socket(), Progress::Pending);
    let socket = machine.socket();
    assert_eq!(socket, "/tmp/firepilot/default/firecracker.socket");
    assert_eq!(
        pending(&machine),
        Operation::SpawnSocket {
            program: "/usr/bin/firecracker".to_string(),
            args: vec!["--api-sock".to_string(), socket.clone()],
        }
    );
    assert_eq!(machine.resume(Outcome::Done), Progress::Pending);
    assert_eq!(
        pending(&machine),
        Operation::ProbeSocket {
            path: socket.clone(),
            delay_millis: 0
        }
    );
    assert!(!machine.is_running());
    assert_eq!(machine.resume(Outcome::Done), Progress::Finished(Ok(())));
    assert!(machine.is_running());

    assert_eq!(machine.destroy_socket(), Progress::Pending);
    assert_eq!(pending(&machine), Operation::KillSocket);
    assert_eq!(machine.resume(Outcome::Done), Progress::Pending);
    assert_eq!(
        pending(&machine),
        Operation::RemoveSocket {
            path: socket.clone()
        }
    );
    assert!(machine.is_running());
    assert_eq!(machine.resume(Outcome::Done), Progress::Finished(Ok(())));
    assert!(!machine.is_running());
    assert!(machine.pending().is_none());
}

#[test]
#[should_panic]
fn executor_test_destroy_when_no_init() {
    let executor = firecracker("/tmp/firepilot2");
    let mut machine = Executor::new_with_firecracker(executor);
    assert_eq!(machine.create_workspace(), Progress::Pending);
    assert_eq!(machine.resume(Outcome::Done), Progress::Finished(Ok(())));
    match machine.destroy_socket() {
        Progress::Finished(result) => result.expect("fail to kill"),
        Progress::Pending => (),
    }
}

#[test]
fn destroy_without_a_handle_is_a_socket_error() {
    let mut fresh = Executor::new_with_firecracker(firecracker("/tmp/firepilot2"));
    assert_eq!(
        fresh.destroy_socket(),
        Progress::Finished(Err(ExecuteError::Socket(
            "Socket hasn't been spawned, you must spawn it before destroying it".to_string()
        )))
    );
    assert!(fresh.pending().is_none());
    let mut bare = Executor::new();
    assert!(!bare.is_configured());
    assert_eq!(
        bare.destroy_socket(),
        Progress::Finished(Err(ExecuteError::Socket(
            "Socket hasn't been spawned, you must spawn it before destroying it".to_string()
        )))
    );
}

#[test]
fn destroy_twice_fails_the_second_time() {
    let mut executor = Executor::new_with_firecracker(firecracker("/tmp/firepilot"));
    executor.run_socket();
    executor.resume(Outcome::Done);
    executor.resume(Outcome::Done);
    assert_eq!(executor.destroy_socket(), Progress::Pending);
    executor.resume(Outcome::Done);
    assert_eq!(executor.resume(Outcome::Done), Progress::Finished(Ok(())));
    assert!(matches!(
        executor.destroy_socket(),
        Progress::Finished(Err(ExecuteError::Socket(_)))
    ));
}

#[test]
fn destroy_keeps_the_handle_when_it_fails() {
    let mut executor = Executor::new_with_firecracker(firecracker("/tmp/firepilot"));
    executor.run_socket();
    executor.resume(Outcome::Done);
    executor.resume(Outcome::Done);
    executor.destroy_socket();
    assert_eq!(
        executor.resume(Outcome::Failed("No such process".to_string())),
        Progress::Finished(Err(ExecuteError::Socket("No such process".to_string())))
    );
    assert!(executor.is_running());
    assert!(executor.pending().is_none());
    executor.destroy_socket();
    executor.resume(Outcome::Done);
    assert_eq!(
        executor.resume(Outcome::Failed("No such file".to_string())),
        Progress::Finished(Err(ExecuteError::Socket("No such file".to_string())))
    );
    assert!(executor.is_running());
}

#[test]
fn workspace_can_be_created_twice() {
    let mut executor =
        Executor::new_with_firecracker(firecracker("/srv")).with_id("vm-7".to_string());
    assert_eq!(executor.chroot(), "/srv/vm-7");
    for _ in 0..2 {
        assert_eq!(executor.create_workspace(), Progress::Pending);
        assert_eq!(
            pending(&executor),
            Operation::CreateWorkspace {
                path: "/srv/vm-7".to_string()
            }
        );
        assert_eq!(executor.resume(Outcome::Done), Progress::Finished(Ok(())));
        assert!(executor.pending().is_none());
    }
}

#[test]
fn workspace_failure_is_reported() {
    let mut executor = Executor::new_with_firecracker(firecracker("/srv"));
    executor.create_workspace();
    assert_eq!(
        executor.resume(Outcome::Failed("Permission denied".to_string())),
        Progress::Finished(Err(ExecuteError::WorkspaceCreation(
            "Permission denied".to_string()
        )))
    );
}

#[test]
fn spawn_failure_is_reported() {
    let mut executor = Executor::new_with_firecracker(firecracker("/srv"));
    executor.run_socket();
    assert_eq!(
        executor.resume(Outcome::Failed("No such file or directory".to_string())),
        Progress::Finished(Err(ExecuteError::CommandExecution(
            "No such file or directory".to_string()
        )))
    );
    assert!(!executor.is_running());
    assert!(executor.pending().is_none());
}

#[test]
fn socket_is_given_up_after_ten_looks() {
    assert_eq!(PROBE_ATTEMPTS, 10);
    assert_eq!(PROBE_DELAY_MILLIS, 50);
    let mut executor = Executor::new_with_firecracker(firecracker("/srv"));
    executor.run_socket();
    executor.resume(Outcome::Done);
    let socket = executor.socket();
    let mut looks = 0;
    loop {
        let delay = if looks == 0 { 0 } else { 50 };
        assert_eq!(
            pending(&executor),
            Operation::ProbeSocket {
                path: socket.clone(),
                delay_millis: delay
            }
        );
        looks += 1;
        match executor.resume(Outcome::Failed("not there".to_string())) {
            Progress::Pending => continue,
            Progress::Finished(result) => {
                assert_eq!(result, Err(ExecuteError::Unhealthy));
                break;
            }
        }
    }
    assert_eq!(looks, 10);
    assert!(!executor.is_running());
    assert!(executor.pending().is_none());
}

#[test]
fn socket_found_at_the_last_look_is_healthy() {
    let mut executor = Executor::new_with_firecracker(firecracker("/srv"));
    executor.run_socket();
    executor.resume(Outcome::Done);
    for _ in 0..9 {
        assert_eq!(
            executor.resume(Outcome::Failed("not there".to_string())),
            Progress::Pending
        );
    }
    assert_eq!(executor.resume(Outcome::Done), Progress::Finished(Ok(())));
    assert!(executor.is_running());
}

#[test]
fn boot_source_is_put() {
    let mut executor = Executor::new_with_firecracker(firecracker("/srv"));
    let boot = BootSource {
        boot_args: Some("console=ttyS0".to_string()),
        initrd_path: None,
        kernel_image_path: "/images/vmlinux".to_string(),
    };
    assert!(executor.reaches("/boot-source"));
    assert_eq!(
        executor.configure_boot_source(boot.clone()),
        Progress::Pending
    );
    assert_eq!(
        pending(&executor),
        Operation::Put {
            uri: uri("/srv/default/firecracker.socket", "/boot-source"),
            payload: Payload::BootSource(boot),
        }
    );
    assert_eq!(
        executor.resume(Outcome::Answered(204)),
        Progress::Finished(Ok(()))
    );
}

#[test]
fn actions_are_put() {
    let mut executor = Executor::new_with_firecracker(firecracker("/srv"));
    assert_eq!(
        executor.send_action(Action::InstanceStart),
        Progress::Pending
    );
    assert_eq!(
        pending(&executor),
        Operation::Put {
            uri: uri("/srv/default/firecracker.socket", "/actions"),
            payload: Payload::Action(Action::InstanceStart),
        }
    );
    assert_eq!(
        pending(&executor),
        Operation::Put {
            uri: "unix://2f7372762f64656661756c742f66697265637261636b65722e736f636b6574:0/actions"
                .to_string(),
            payload: Payload::Action(Action::InstanceStart),
        }
    );
    assert_eq!(
        executor.resume(Outcome::Answered(200)),
        Progress::Finished(Ok(()))
    );
    assert_eq!(Action::InstanceStart.action_type(), "InstanceStart");
    assert_eq!(Action::SendCtrlAltDel.action_type(), "SendCtrlAltDel");
}

#[test]
fn drives_stop_at_the_first_failure() {
    let mut executor = Executor::new_with_firecracker(firecracker("/srv"));
    let drives = vec![
        drive("rootfs", "/images/a"),
        drive("data", "/images/b"),
        drive("logs", "/images/c"),
    ];
    assert!(executor.reaches_drives(&drives));
    assert_eq!(executor.configure_drives(drives.clone()), Progress::Pending);
    assert_eq!(
        pending(&executor),
        Operation::Put {
            uri: uri("/srv/default/firecracker.socket", "/drives/rootfs"),
            payload: Payload::Drive(drives[0].clone()),
        }
    );
    assert_eq!(executor.resume(Outcome::Answered(204)), Progress::Pending);
    let second = uri("/srv/default/firecracker.socket", "/drives/data");
    assert_eq!(
        pending(&executor),
        Operation::Put {
            uri: second.clone(),
            payload: Payload::Drive(drives[1].clone()),
        }
    );
    assert_eq!(
        executor.resume(Outcome::Answered(400)),
        Progress::Finished(Err(ExecuteError::CommandExecution(format!(
            "Failed to send request to {}, status: 400 Bad Request",
            second
        ))))
    );
    assert!(executor.pending().is_none());
    assert_eq!(executor.resume(Outcome::Done), Progress::Finished(Ok(())));
}

#[test]
fn drives_with_the_same_id_are_both_put() {
    let mut executor = Executor::new_with_firecracker(firecracker("/srv"));
    let drives = vec![drive("rootfs", "/images/a"), drive("rootfs", "/images/b")];
    let address = uri("/srv/default/firecracker.socket", "/drives/rootfs");
    assert_eq!(executor.configure_drives(drives.clone()), Progress::Pending);
    assert_eq!(
        pending(&executor),
        Operation::Put {
            uri: address.clone(),
            payload: Payload::Drive(drives[0].clone()),
        }
    );
    assert_eq!(executor.resume(Outcome::Answered(204)), Progress::Pending);
    assert_eq!(
        pending(&executor),
        Operation::Put {
            uri: address,
            payload: Payload::Drive(drives[1].clone()),
        }
    );
    assert_eq!(
        executor.resume(Outcome::Answered(204)),
        Progress::Finished(Ok(()))
    );
}

#[test]
fn no_drives_and_no_interfaces_are_done_at_once() {
    let mut executor = Executor::new_with_firecracker(firecracker("/srv"));
    assert_eq!(
        executor.configure_drives(vec![]),
        Progress::Finished(Ok(()))
    );
    assert_eq!(
        executor.configure_network(vec![]),
        Progress::Finished(Ok(()))
    );
    assert!(executor.pending().is_none());
}

#[test]
fn interfaces_are_put_in_their_order() {
    let mut executor = Executor::new_with_firecracker(firecracker("/srv"));
    let interfaces = vec![iface("net0"), iface("net1")];
    assert!(executor.reaches_interfaces(&interfaces));
    assert_eq!(
        executor.configure_network(interfaces.clone()),
        Progress::Pending
    );
    assert_eq!(
        pending(&executor),
        Operation::Put {
            uri: uri(
                "/srv/default/firecracker.socket",
                "/network-interfaces/net0"
            ),
            payload: Payload::NetworkInterface(interfaces[0].clone()),
        }
    );
    assert_eq!(executor.resume(Outcome::Done), Progress::Pending);
    assert_eq!(
        pending(&executor),
        Operation::Put {
            uri: uri(
                "/srv/default/firecracker.socket",
                "/network-interfaces/net1"
            ),
            payload: Payload::NetworkInterface(interfaces[1].clone()),
        }
    );
    assert_eq!(
        executor.resume(Outcome::Answered(204)),
        Progress::Finished(Ok(()))
    );
}

#[test]
fn request_failures_are_told_apart() {
    let put = Operation::Put {
        uri: "unix://00:0/actions".to_string(),
        payload: Payload::Action(Action::SendCtrlAltDel),
    };
    assert_eq!(put.settle(&Outcome::Answered(200), 0), Verdict::Advance);
    assert_eq!(put.settle(&Outcome::Answered(299), 0), Verdict::Advance);
    assert_eq!(
        put.settle(&Outcome::Answered(300), 0),
        Verdict::Abort(ExecuteError::CommandExecution(
            "Failed to send request to unix://00:0/actions, status: 300 Multiple Choices"
                .to_string()
        ))
    );
    assert_eq!(
        put.settle(&Outcome::Answered(199), 0),
        Verdict::Abort(ExecuteError::CommandExecution(
            "Failed to send request to unix://00:0/actions, status: 199 <unknown status code>"
                .to_string()
        ))
    );
    assert_eq!(
        put.settle(&Outcome::Failed("connection refused".to_string()), 0),
        Verdict::Abort(ExecuteError::Request(
            "unix://00:0/actions".to_string(),
            "connection refused".to_string()
        ))
    );
    assert_eq!(
        put.settle(&Outcome::Unserializable("key must be a string".to_string()), 0),
        Verdict::Abort(ExecuteError::Serialize("key must be a string".to_string()))
    );
}

#[test]
fn outcomes_say_whether_and_why() {
    assert!(Outcome::Done.succeeded());
    assert!(Outcome::Answered(204).succeeded());
    assert!(!Outcome::Answered(404).succeeded());
    assert!(!Outcome::Answered(42).succeeded());
    assert!(!Outcome::Failed("x".to_string()).succeeded());
    assert!(!Outcome::Unserializable("x".to_string()).succeeded());
    assert_eq!(Outcome::Done.reason(), "");
    assert_eq!(Outcome::Failed("disk full".to_string()).reason(), "disk full");
    assert_eq!(Outcome::Answered(404).reason(), "404 Not Found");
    assert_eq!(Outcome::Answered(42).reason(), "");
}

#[test]
fn probes_are_retried_until_the_budget_is_spent() {
    let probe = Operation::ProbeSocket {
        path: "/srv/default/firecracker.socket".to_string(),
        delay_millis: 0,
    };
    let miss = Outcome::Failed("not there".to_string());
    assert_eq!(probe.settle(&miss, 0), Verdict::Retry);
    assert_eq!(probe.settle(&miss, 8), Verdict::Retry);
    assert_eq!(
        probe.settle(&miss, 9),
        Verdict::Abort(ExecuteError::Unhealthy)
    );
    assert_eq!(probe.settle(&Outcome::Done, 9), Verdict::Advance);
}

#[test]
fn copy_failure_names_both_files() {
    let copy = Operation::CopyFile {
        from: "/images/root fs".to_string(),
        to: "/srv/vm/rootfs".to_string(),
    };
    assert_eq!(
        copy.failure(&Outcome::Failed("No such file or directory".to_string())),
        ExecuteError::WorkspaceCreation(
            "Failed to copy \"/images/root fs\" to \"/srv/vm/rootfs\": No such file or directory"
                .to_string()
        )
    );
}

#[test]
fn errors_are_put_in_words() {
    assert_eq!(
        ExecuteError::WorkspaceCreation("a".to_string()).message(),
        "Could not initate worksapce for machine, reason: a"
    );
    assert_eq!(
        ExecuteError::WorkspaceDeletion("b".to_string()).message(),
        "Could not delete worksapce for machine, reason: b"
    );
    assert_eq!(
        ExecuteError::CommandExecution("c".to_string()).message(),
        "Could not execute command, reason: c"
    );
    assert_eq!(
        ExecuteError::Socket("d".to_string()).message(),
        "Failed to manage socket, reason: d"
    );
    assert_eq!(
        ExecuteError::Request("unix://00:0/".to_string(), "e".to_string()).message(),
        "Could not send request on uri unix://00:0/, reason: e"
    );
    assert_eq!(
        ExecuteError::Serialize("f".to_string()).message(),
        "Could not serialize request, reason: f"
    );
    assert_eq!(
        ExecuteError::Unhealthy.message(),
        "Socket didn't start on time"
    );
}

#[test]
fn addresses_take_what_a_uri_takes() {
    assert!(is_addressable("/srv/default/firecracker.socket", "/actions"));
    assert!(is_addressable("", "/"));
    assert!(is_addressable("/s", "/drives/root_fs-1.img"));
    assert!(is_addressable("/s", "/drives/a?b=c?d#e f"));
    assert!(is_addressable("/s", "/drives/a#anything goes \u{e9}"));
    assert!(is_addressable("/s", "/drives/{\"a\"}"));
    assert!(!is_addressable("/s", ""));
    assert!(!is_addressable("/s", "actions"));
    assert!(!is_addressable("/s", "/drives/root fs"));
    assert!(!is_addressable("/s", "/drives/\u{e9}"));
    assert!(!is_addressable("/s", "/drives/a<b"));
    assert!(!is_addressable("/s", "/drives/a`b"));
    assert!(!is_addressable("/s", "/drives/a?b c"));
    let long = "a".repeat(32758);
    assert!(is_addressable(&long, "/actions"));
    let longer = "a".repeat(32759);
    assert!(!is_addressable(&longer, "/actions"));
    assert!(!is_addressable("", &format!("/{}", "a".repeat(65525))));
    assert!(is_addressable("", &format!("/{}", "a".repeat(65524))));
}

#[test]
fn every_address_that_is_taken_can_be_built() {
    let mut executor = Executor::new_with_firecracker(firecracker("/s"));
    let ids = ["root_fs-1.img", "a?b=c?d#e f", "a#anything goes \u{e9}", "{\"a\"}", "", "~|!$&'()*+,;=:@[]^_\\"];
    let mut drives = Vec::new();
    for id in ids {
        assert!(is_addressable("/s/default/firecracker.socket", &format!("/drives/{}", id)));
        drives.push(drive(id, "/images/a"));
    }
    assert!(executor.reaches_drives(&drives));
    assert_eq!(executor.configure_drives(drives), Progress::Pending);
    assert_eq!(
        pending(&executor),
        Operation::Put {
            uri: uri("/s/default/firecracker.socket", "/drives/root_fs-1.img"),
            payload: Payload::Drive(drive("root_fs-1.img", "/images/a")),
        }
    );
    executor.resume(Outcome::Done);
    assert_eq!(
        pending(&executor),
        Operation::Put {
            uri: uri("/s/default/firecracker.socket", "/drives/a?b=c?d"),
            payload: Payload::Drive(drive("a?b=c?d#e f", "/images/a")),
        }
    );
}

#[test]
fn unreachable_drives_are_found_out() {
    let executor = Executor::new_with_firecracker(firecracker("/srv"));
    assert!(!executor.reaches_drives(&vec![
        drive("rootfs", "/a"),
        drive("root fs", "/b")
    ]));
    assert!(!executor.reaches_interfaces(&vec![iface("net 0")]));
    assert!(!executor.reaches("/drives/\u{7f}"));
}

#[test]
fn firecracker_says_where_and_how() {
    let firecracker = firecracker("/srv");
    assert_eq!(firecracker.chroot(), "/srv");
    assert_eq!(
        firecracker.spawn_binary_child(&vec!["--version".to_string()]),
        Operation::SpawnSocket {
            program: "/usr/bin/firecracker".to_string(),
            args: vec!["--version".to_string()],
        }
    );
}

#[test]
fn absolute_ids_leave_the_root() {
    let executor =
        Executor::new_with_firecracker(firecracker("/srv")).with_id("/elsewhere".to_string());
    assert_eq!(executor.chroot(), "/elsewhere");
    let nested = Executor::new_with_firecracker(firecracker("/srv/")).with_id("vm".to_string());
    assert_eq!(nested.chroot(), "/srv/vm");
}

#[test]
fn resuming_with_nothing_pending_changes_nothing() {
    let mut executor = Executor::new_with_firecracker(firecracker("/srv"));
    assert_eq!(
        executor.resume(Outcome::Failed("late".to_string())),
        Progress::Finished(Ok(()))
    );
    assert!(!executor.is_running());
    assert!(executor.pending().is_none());
}

#[test]
fn a_new_method_replaces_what_was_left() {
    let mut executor = Executor::new_with_firecracker(firecracker("/srv"));
    executor.run_socket();
    assert_eq!(executor.create_workspace(), Progress::Pending);
    assert_eq!(
        pending(&executor),
        Operation::CreateWorkspace {
            path: "/srv/default".to_string()
        }
    );
    assert_eq!(executor.resume(Outcome::Done), Progress::Finished(Ok(())));
    assert!(executor.pending().is_none());
}

#[test]
fn nothing_is_sent_where_nothing_can_be() {
    let mut bare = Executor::new();
    assert_eq!(bare.try_send_action(Action::InstanceStart), None);
    let boot = BootSource {
        boot_args: None,
        initrd_path: None,
        kernel_image_path: "/images/vmlinux".to_string(),
    };
    assert_eq!(bare.try_configure_boot_source(boot.clone()), Err(boot.clone()));
    assert!(bare.pending().is_none());

    let mut executor = Executor::new_with_firecracker(firecracker("/srv"));
    let spaced = vec![drive("rootfs", "/a"), drive("root fs", "/b")];
    assert_eq!(executor.try_configure_drives(spaced.clone()), Err(spaced));
    let odd = vec![iface("net<0>")];
    assert_eq!(executor.try_configure_network(odd.clone()), Err(odd));
    assert!(executor.pending().is_none());

    assert_eq!(
        executor.try_send_action(Action::SendCtrlAltDel),
        Some(Progress::Pending)
    );
    assert_eq!(
        pending(&executor),
        Operation::Put {
            uri: uri("/srv/default/firecracker.socket", "/actions"),
            payload: Payload::Action(Action::SendCtrlAltDel),
        }
    );
    assert_eq!(
        executor.try_configure_boot_source(boot.clone()),
        Ok(Progress::Pending)
    );
    assert_eq!(
        executor.try_configure_drives(vec![drive("rootfs", "/a")]),
        Ok(Progress::Pending)
    );
    assert_eq!(
        executor.try_configure_network(vec![]),
        Ok(Progress::Finished(Ok(())))
    );
}
