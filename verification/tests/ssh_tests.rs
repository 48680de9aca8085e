use bubble_flexrouter::ssh::{
    host_file_for, interpret_status, ssh_command_for, tick_action, CheckOutcome, Platform,
    SshContainer, TickAction, TunnelParams, TunnelStatus,
};

fn params() -> TunnelParams {
    TunnelParams {
        ip: String::from("192.168.1.7"),
        port: 2222,
        proxy_port: 9823,
        bubble: String::from("bubble.example.com"),
        session: String::from("session-cookie"),
        host_key: String::from("ssh-ed25519 AAAAC3Nza"),
        priv_key: String::from("/home/flex/.ssh/flex_key"),
    }
}

#[test]
fn spawn_plan_builds_ssh_invocation() {
    let container = SshContainer::new();
    let p = params();
    let cmd = ssh_command_for(&Platform::Linux).unwrap();
    let host_file = host_file_for(&Platform::Linux).unwrap();
    let plan = container.spawn_plan(&p, &cmd, &host_file).expect("empty container spawns");
    assert_eq!(plan.command, "/usr/bin/ssh");
    assert_eq!(plan.host_file, "/tmp/bubble_flex_host_key");
    assert_eq!(plan.host_key, "ssh-ed25519 AAAAC3Nza");
    let args: Vec<&str> = plan.args.iter().map(|a| a.as_str()).collect();
    assert_eq!(
        args,
        vec![
            "-i",
            "/home/flex/.ssh/flex_key",
            "-o",
            "UserKnownHostsFile=/tmp/bubble_flex_host_key",
            "-o",
            "ServerAliveInterval=10",
            "-Nn",
            "-R",
            "2222:127.0.0.1:9823",
            "bubble-flex@bubble.example.com",
        ]
    );
}

#[test]
fn spawn_is_idempotent_while_running() {
    let mut container = SshContainer::new();
    let p = params();
    let cmd = ssh_command_for(&Platform::Linux).unwrap();
    let host_file = host_file_for(&Platform::Linux).unwrap();
    assert!(container.spawn_plan(&p, &cmd, &host_file).is_some());
    container.spawn_commit(p.clone(), 11, 21);
    // A second spawn finds the child and does nothing: never two children.
    assert!(container.spawn_plan(&p, &cmd, &host_file).is_none());
}

#[test]
fn reregister_stops_old_child_then_spawns_new() {
    let mut container = SshContainer::new();
    container.spawn_commit(params(), 11, 21);
    let effects = container.stop_ssh_and_checker(1_000_000);
    assert_eq!(effects.kill_child, Some(11));
    assert_eq!(effects.abort_checker, Some(21));
    assert_eq!(container.checker_done_flag, 1_000_000);
    // The slot is free again; the new registration spawns fresh handles.
    let mut p2 = params();
    p2.ip = String::from("10.0.0.9");
    let cmd = ssh_command_for(&Platform::Linux).unwrap();
    let host_file = host_file_for(&Platform::Linux).unwrap();
    assert!(container.spawn_plan(&p2, &cmd, &host_file).is_some());
    container.spawn_commit(p2, 12, 22);
    assert_eq!(container.child, Some(12));
    assert_eq!(container.checker, Some(22));
}

#[test]
fn restart_keeps_checker() {
    let mut container = SshContainer::new();
    container.spawn_commit(params(), 11, 21);
    let flag_before = container.checker_done_flag;
    let effects = container.stop_ssh_retain_checker(2_000_000);
    assert_eq!(effects.kill_child, Some(11));
    assert_eq!(effects.abort_checker, None);
    assert_eq!(container.checker, Some(21));
    assert_eq!(container.checker_done_flag, flag_before);
    container.respawn_commit(params(), 12);
    assert_eq!(container.child, Some(12));
    assert_eq!(container.checker, Some(21));
}

#[test]
fn tick_gate_reads_bumped_stamp() {
    let mut container = SshContainer::new();
    container.spawn_commit(params(), 11, 21);
    let start: u128 = 500;
    assert!(!container.tick_gate(start));
    container.stop_ssh_and_checker(501);
    assert!(container.tick_gate(start));
}

#[test]
fn status_strings() {
    assert_eq!(interpret_status(&String::from("\"active\"")), TunnelStatus::Active);
    assert_eq!(interpret_status(&String::from("active")), TunnelStatus::Active);
    assert_eq!(interpret_status(&String::from("\"none\"")), TunnelStatus::NotYetAvailable);
    assert_eq!(interpret_status(&String::from("\"unreachable\"")), TunnelStatus::Unreachable);
    assert_eq!(interpret_status(&String::from("\"deleted\"")), TunnelStatus::Deleted);
    assert_eq!(interpret_status(&String::from("\"gone\"")), TunnelStatus::Unknown);
}

#[test]
fn three_failures_one_restart() {
    let bad = CheckOutcome::Reply(TunnelStatus::Unreachable);
    assert_eq!(tick_action(&bad, 0), TickAction::Proceed(1));
    assert_eq!(tick_action(&bad, 1), TickAction::Proceed(2));
    assert_eq!(tick_action(&bad, 2), TickAction::Restart);
}

#[test]
fn active_resets_counter() {
    let good = CheckOutcome::Reply(TunnelStatus::Active);
    assert_eq!(tick_action(&good, 2), TickAction::Proceed(0));
}

#[test]
fn transport_and_http_errors_count() {
    assert_eq!(tick_action(&CheckOutcome::TransportError, 0), TickAction::Proceed(1));
    assert_eq!(tick_action(&CheckOutcome::HttpError, 1), TickAction::Proceed(2));
    assert_eq!(tick_action(&CheckOutcome::TransportError, 2), TickAction::Restart);
}

#[test]
fn deleted_stops_tunnel() {
    let deleted = CheckOutcome::Reply(TunnelStatus::Deleted);
    assert_eq!(tick_action(&deleted, 0), TickAction::StopTunnel);
    assert_eq!(tick_action(&deleted, 2), TickAction::StopTunnel);
    // The container after the checker acts on it: everything cleared.
    let mut container = SshContainer::new();
    container.spawn_commit(params(), 11, 21);
    let effects = container.stop_ssh_and_checker(3_000_000);
    assert_eq!(effects.kill_child, Some(11));
    assert!(container.child.is_none());
    assert!(container.checker.is_none());
}

#[test]
fn platform_paths() {
    assert_eq!(ssh_command_for(&Platform::Windows).unwrap(), "C:\\Windows\\System32\\OpenSSH\\ssh.exe");
    assert_eq!(host_file_for(&Platform::Windows).unwrap(), "C:\\Windows\\Temp\\bubble_flex_host_key");
    assert_eq!(ssh_command_for(&Platform::MacOs).unwrap(), "/usr/bin/ssh");
    assert_eq!(host_file_for(&Platform::MacOs).unwrap(), "/tmp/bubble_flex_host_key");
    assert!(ssh_command_for(&Platform::Other).is_none());
    assert!(host_file_for(&Platform::Other).is_none());
}
