use secc::coordinator::{
    Action, Coordinator, Event, Phase, StopError, SwitchError, TargetKind,
};
use secc::server::{AddrInfo, ServerInfo};
use secc::state::{AccessMode, BindMode, ProtocolMode};

fn coordinator(protocol: ProtocolMode, tcp_port: Option<u16>) -> Coordinator {
    let server = ServerInfo {
        host: "up.example".to_string(),
        quic_port: 443,
        tcp_port,
        cert: "cert-pem".to_string(),
        cert_key: "key-pem".to_string(),
        alias: None,
    };
    Coordinator::new(
        AccessMode::Auto,
        BindMode::Socks,
        protocol,
        Some(server),
        AddrInfo::new("127.0.0.1".to_string(), 1080),
        AddrInfo::new("127.0.0.1".to_string(), 1081),
        "/data/proxy_list.txt".to_string(),
        "/data/direct_list.txt".to_string(),
        "/data/cert.pem".to_string(),
    )
}

fn start_running(c: &mut Coordinator, pid: u32) {
    assert_eq!(c.handle(Event::RequestStart), Action::Spawn);
    assert_eq!(
        c.handle(Event::SpawnDone(Ok(pid))),
        Action::ApplyNetwork(TargetKind::Socks)
    );
    assert_eq!(c.handle(Event::SwitchDone(Ok(()))), Action::Nothing);
}

#[test]
fn scenario_start_under_quic_launches_and_activates() {
    let mut c = coordinator(ProtocolMode::Quic, None);
    let args = c.launch_args().unwrap();
    assert_eq!(args.server_addr, "up.example:443");
    assert_eq!(args.access_mode, AccessMode::Auto);
    assert_eq!(args.protocol_mode, ProtocolMode::Quic);

    assert_eq!(c.handle(Event::RequestStart), Action::Spawn);
    assert!(!c.active);
    assert_eq!(
        c.handle(Event::SpawnDone(Ok(501))),
        Action::ApplyNetwork(TargetKind::Socks)
    );
    assert!(!c.active);
    assert_eq!(c.handle(Event::SwitchDone(Ok(()))), Action::Nothing);
    assert!(c.active);
    assert_eq!(c.phase, Phase::Running);
    assert_eq!(c.pid, Some(501));
}

#[test]
fn scenario_selecting_direct_switches_before_kill_outcome() {
    let mut c = coordinator(ProtocolMode::Quic, None);
    start_running(&mut c, 501);

    let a = c.handle(Event::RequestStop);
    assert_eq!(a, Action::ApplyNetwork(TargetKind::Direct));
    assert!(!c.active);
    assert_eq!(c.handle(Event::SwitchDone(Ok(()))), Action::Kill(501));
    assert_eq!(c.handle(Event::KillDone(Ok(()))), Action::Nothing);
    assert_eq!(c.phase, Phase::Stopped);
    assert_eq!(c.pid, None);
    assert!(!c.active);
}

#[test]
fn scenario_deleting_active_profile_stops_first() {
    let mut c = coordinator(ProtocolMode::Quic, None);
    start_running(&mut c, 501);
    let mut servers = vec![c.active_server.as_ref().unwrap().clone()];

    let a = c.handle(Event::DeleteServer("up.example".to_string()));
    assert_eq!(a, Action::ApplyNetwork(TargetKind::Direct));
    assert!(!c.active);
    assert!(c.active_server.is_none());
    assert_eq!(c.handle(Event::SwitchDone(Ok(()))), Action::Kill(501));
    assert_eq!(c.handle(Event::KillDone(Ok(()))), Action::Nothing);
    assert_eq!(c.phase, Phase::Stopped);

    assert!(secc::server::delete_server(&mut servers, "up.example"));
    assert!(servers.is_empty());
    assert!(c.launch_args().is_none());
}

#[test]
fn deleting_another_profile_changes_nothing() {
    let mut c = coordinator(ProtocolMode::Quic, None);
    start_running(&mut c, 501);
    let a = c.handle(Event::DeleteServer("other.example".to_string()));
    assert_eq!(a, Action::Nothing);
    assert_eq!(c.phase, Phase::Running);
    assert!(c.active);
    assert!(c.active_server.is_some());
}

#[test]
fn stop_failures_still_leave_direct_asked_and_flag_down() {
    let mut c = coordinator(ProtocolMode::Quic, None);
    start_running(&mut c, 501);

    let a = c.handle(Event::RequestStop);
    assert_eq!(a, Action::ApplyNetwork(TargetKind::Direct));
    assert!(!c.active);
    let failed = Err(SwitchError::CommandFailed { directive: 3 });
    assert_eq!(c.handle(Event::SwitchDone(failed)), Action::Kill(501));
    assert_eq!(
        c.handle(Event::KillDone(Err(StopError::KillFailed))),
        Action::Nothing
    );
    assert_eq!(c.phase, Phase::Stopped);
    assert!(!c.active);
    // The kill was refused, so the PID stays recorded for the next attempt.
    assert_eq!(c.pid, Some(501));
}

#[test]
fn stop_of_an_untracked_process_is_an_idempotent_no_op() {
    let mut c = coordinator(ProtocolMode::Quic, None);
    start_running(&mut c, 501);
    c.handle(Event::RequestStop);
    c.handle(Event::SwitchDone(Ok(())));
    // The process table no longer has the PID: not an error to the caller.
    assert_eq!(
        c.handle(Event::KillDone(Err(StopError::NotFound))),
        Action::Nothing
    );
    assert_eq!(c.phase, Phase::Stopped);
    assert_eq!(c.pid, None);
    assert!(!c.active);
}

#[test]
fn start_after_refused_kill_retries_the_stop_sequence() {
    let mut c = coordinator(ProtocolMode::Quic, None);
    start_running(&mut c, 501);
    c.handle(Event::RequestStop);
    c.handle(Event::SwitchDone(Ok(())));
    c.handle(Event::KillDone(Err(StopError::KillFailed)));

    let a = c.handle(Event::RequestStart);
    assert_eq!(a, Action::ApplyNetwork(TargetKind::Direct));
    assert_eq!(c.handle(Event::SwitchDone(Ok(()))), Action::Kill(501));
    assert_eq!(c.handle(Event::KillDone(Ok(()))), Action::Spawn);
    assert_eq!(c.phase, Phase::StartingSpawn);
    assert_eq!(c.pid, None);
}

#[test]
fn switch_failure_during_start_unwinds_and_kills_spawned_process() {
    let mut c = coordinator(ProtocolMode::Quic, None);
    assert_eq!(c.handle(Event::RequestStart), Action::Spawn);
    assert_eq!(
        c.handle(Event::SpawnDone(Ok(77))),
        Action::ApplyNetwork(TargetKind::Socks)
    );
    let failed = Err(SwitchError::CommandFailed { directive: 0 });
    assert_eq!(
        c.handle(Event::SwitchDone(failed)),
        Action::ApplyNetwork(TargetKind::Direct)
    );
    assert!(!c.active);
    assert_eq!(c.handle(Event::SwitchDone(Ok(()))), Action::Kill(77));
    assert_eq!(c.handle(Event::KillDone(Ok(()))), Action::Nothing);
    assert_eq!(c.phase, Phase::Stopped);
    assert_eq!(c.pid, None);
    assert!(!c.active);
}

#[test]
fn spawn_failure_resets_network_to_direct() {
    let mut c = coordinator(ProtocolMode::Quic, None);
    assert_eq!(c.handle(Event::RequestStart), Action::Spawn);
    let failed = Err(secc::coordinator::LaunchError::SpawnFailed);
    assert_eq!(
        c.handle(Event::SpawnDone(failed)),
        Action::ApplyNetwork(TargetKind::Direct)
    );
    assert_eq!(c.handle(Event::SwitchDone(Ok(()))), Action::Nothing);
    assert_eq!(c.phase, Phase::Stopped);
    assert!(!c.active);
}

#[test]
fn protocol_switch_runs_exactly_one_stop_start_cycle() {
    let mut c = coordinator(ProtocolMode::Quic, Some(9443));
    start_running(&mut c, 501);

    let mut actions = Vec::new();
    actions.push(c.handle(Event::SetProtocolMode(ProtocolMode::Tcp)));
    actions.push(c.handle(Event::SwitchDone(Ok(()))));
    actions.push(c.handle(Event::KillDone(Ok(()))));
    let args = c.launch_args().unwrap();
    assert_eq!(args.server_addr, "up.example:9443");
    assert_eq!(args.protocol_mode, ProtocolMode::Tcp);
    actions.push(c.handle(Event::SpawnDone(Ok(502))));
    actions.push(c.handle(Event::SwitchDone(Ok(()))));

    assert_eq!(
        actions,
        vec![
            Action::ApplyNetwork(TargetKind::Direct),
            Action::Kill(501),
            Action::Spawn,
            Action::ApplyNetwork(TargetKind::Socks),
            Action::Nothing,
        ]
    );
    let kills = actions.iter().filter(|a| matches!(a, Action::Kill(_))).count();
    let spawns = actions.iter().filter(|a| matches!(a, Action::Spawn)).count();
    assert_eq!(kills, 1);
    assert_eq!(spawns, 1);
    assert_eq!(c.phase, Phase::Running);
    assert_eq!(c.pid, Some(502));
    assert!(c.active);
}

#[test]
fn bind_switch_while_running_hot_swaps_without_restart() {
    let mut c = coordinator(ProtocolMode::Quic, None);
    start_running(&mut c, 501);
    let a = c.handle(Event::SetBindMode(BindMode::Http));
    assert_eq!(a, Action::ApplyNetwork(TargetKind::Http));
    assert!(c.active);
    assert_eq!(c.handle(Event::SwitchDone(Ok(()))), Action::Nothing);
    assert_eq!(c.phase, Phase::Running);
    assert_eq!(c.pid, Some(501));
    assert!(c.active);
}

#[test]
fn unexpected_exit_falls_back_to_direct_without_relaunch() {
    let mut c = coordinator(ProtocolMode::Quic, None);
    start_running(&mut c, 501);
    let a = c.handle(Event::AgentExited);
    assert_eq!(a, Action::ApplyNetwork(TargetKind::Direct));
    assert!(!c.active);
    assert_eq!(c.handle(Event::SwitchDone(Ok(()))), Action::Nothing);
    assert_eq!(c.phase, Phase::Stopped);
    assert_eq!(c.pid, None);
}

#[test]
fn start_without_active_profile_is_refused() {
    let mut c = coordinator(ProtocolMode::Quic, None);
    c.active_server = None;
    assert_eq!(c.handle(Event::RequestStart), Action::Nothing);
    assert_eq!(c.phase, Phase::Stopped);
    assert!(!c.active);
}

#[test]
fn start_under_tcp_without_tcp_port_is_refused() {
    let mut c = coordinator(ProtocolMode::Tcp, None);
    assert!(c.launch_args().is_none());
    assert_eq!(c.handle(Event::RequestStart), Action::Nothing);
    assert_eq!(c.phase, Phase::Stopped);
}

#[test]
fn access_mode_switch_restarts_with_new_argument() {
    let mut c = coordinator(ProtocolMode::Quic, None);
    start_running(&mut c, 501);
    let a = c.handle(Event::SetAccessMode(AccessMode::Proxy));
    assert_eq!(a, Action::ApplyNetwork(TargetKind::Direct));
    assert_eq!(c.handle(Event::SwitchDone(Ok(()))), Action::Kill(501));
    assert_eq!(c.handle(Event::KillDone(Ok(()))), Action::Spawn);
    let args = c.launch_args().unwrap();
    assert_eq!(args.access_mode, AccessMode::Proxy);
}

#[test]
fn target_carries_the_configured_endpoints() {
    let c = coordinator(ProtocolMode::Quic, None);
    match c.target(TargetKind::Socks) {
        secc::network::NetTarget::Socks(ep) => {
            assert_eq!(ep.host, "127.0.0.1");
            assert_eq!(ep.port, 1080);
        }
        _ => panic!("socks target expected"),
    }
    match c.target(TargetKind::Http) {
        secc::network::NetTarget::Http(ep) => assert_eq!(ep.port, 1081),
        _ => panic!("http target expected"),
    }
    assert!(matches!(
        c.target(TargetKind::Direct),
        secc::network::NetTarget::Direct
    ));
}
