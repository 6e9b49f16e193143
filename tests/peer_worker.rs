use relay_tunnel::addr::{IpAddress, SockAddr};
use relay_tunnel::peer::{PeerAction, PeerWorker};
use relay_tunnel::types::{
    CommandMessage, Effect, ServiceMessage, Severity, Step, WorkerErr, WorkerOk,
};

fn v4(a: u8, b: u8, c: u8, d: u8, port: u16) -> SockAddr {
    SockAddr { ip: IpAddress::V4(a, b, c, d), port }
}

fn fx(action: PeerAction, on_failure: Severity) -> Effect<PeerAction> {
    Effect { action, on_failure }
}

fn bound_peer() -> PeerWorker {
    let mut p = PeerWorker::new(v4(203, 0, 113, 5, 40000), None, v4(127, 0, 0, 1, 34197));
    let _ = p.setup_socket(Ok(v4(127, 0, 0, 1, 51000)));
    p
}

#[test]
fn peer_bound_on_ephemeral_port() {
    let mut p = PeerWorker::new(v4(203, 0, 113, 5, 40000), None, v4(127, 0, 0, 1, 34197));
    assert_eq!(p.bind_addr(), v4(127, 0, 0, 1, 0));
    let step = p.setup_socket(Ok(v4(127, 0, 0, 1, 51000)));
    assert_eq!(
        step.effects,
        vec![fx(
            PeerAction::Report(ServiceMessage::PeerBound {
                peer_addr: v4(203, 0, 113, 5, 40000),
                local_addr: v4(127, 0, 0, 1, 51000),
            }),
            Severity::Unrecoverable,
        )]
    );
    assert_eq!(step.outcome, Ok(WorkerOk::Continue));
    assert_eq!(p.local_addr, Some(v4(127, 0, 0, 1, 51000)));
}

#[test]
fn peer_binds_pinned_address() {
    let p = PeerWorker::new(
        v4(203, 0, 113, 5, 40000),
        Some(v4(127, 0, 0, 1, 45000)),
        v4(127, 0, 0, 1, 34197),
    );
    assert_eq!(p.bind_addr(), v4(127, 0, 0, 1, 45000));
}

#[test]
fn peer_bind_on_forward_address_fails() {
    let fwd = v4(127, 0, 0, 1, 34197);
    let mut p = PeerWorker::new(v4(203, 0, 113, 5, 40000), Some(fwd), fwd);
    let step = p.setup_socket(Ok(fwd));
    assert_eq!(
        step.effects,
        vec![
            fx(PeerAction::ReleaseSocket, Severity::Unrecoverable),
            fx(
                PeerAction::Report(ServiceMessage::PeerBindFailed(v4(203, 0, 113, 5, 40000))),
                Severity::Unrecoverable
            ),
        ]
    );
    assert_eq!(step.outcome, Ok(WorkerOk::Terminate));
    assert_eq!(p.local_addr, None);
}

#[test]
fn peer_bind_error_fails() {
    let mut p = PeerWorker::new(v4(203, 0, 113, 5, 40000), None, v4(127, 0, 0, 1, 34197));
    let step = p.setup_socket(Err("address in use".to_string()));
    assert_eq!(step.effects.len(), 2);
    assert_eq!(
        step.effects[1].action,
        PeerAction::Report(ServiceMessage::PeerBindFailed(v4(203, 0, 113, 5, 40000)))
    );
    assert_eq!(step.outcome, Ok(WorkerOk::Terminate));
}

#[test]
fn peer_forwards_socket_packet_upstream() {
    let mut p = bound_peer();
    let step = p.handle_socket_message(Some(Ok((vec![1, 2, 3], v4(127, 0, 0, 1, 34197)))));
    assert_eq!(
        step.effects,
        vec![fx(
            PeerAction::Upstream((v4(203, 0, 113, 5, 40000), vec![1, 2, 3])),
            Severity::Recoverable
        )]
    );
    assert_eq!(step.outcome, Ok(WorkerOk::Continue));
}

#[test]
fn peer_socket_error_is_recoverable() {
    let mut p = bound_peer();
    let step = p.handle_socket_message(Some(Err("reset".to_string())));
    assert!(step.effects.is_empty());
    assert_eq!(step.outcome, Err(WorkerErr::RecoverableError("reset".to_string())));
}

#[test]
fn peer_socket_end_unbinds() {
    let mut p = bound_peer();
    let step = p.handle_socket_message(None);
    assert_eq!(
        step.effects,
        vec![fx(
            PeerAction::Report(ServiceMessage::PeerUnbound(v4(203, 0, 113, 5, 40000))),
            Severity::Unrecoverable
        )]
    );
    assert_eq!(step.outcome, Ok(WorkerOk::Terminate));
}

#[test]
fn peer_writes_own_relay_packet_to_forward_target() {
    let mut p = bound_peer();
    let step = p.handle_relay_message(Ok((v4(203, 0, 113, 5, 40000), vec![9])));
    assert_eq!(
        step.effects,
        vec![fx(PeerAction::SendTo(vec![9], v4(127, 0, 0, 1, 34197)), Severity::Recoverable)]
    );
    assert_eq!(step.outcome, Ok(WorkerOk::Continue));
}

#[test]
fn peer_ignores_relay_packet_of_other_peer() {
    let mut p = bound_peer();
    let step = p.handle_relay_message(Ok((v4(198, 51, 100, 7, 40000), vec![9])));
    assert!(step.effects.is_empty());
    assert_eq!(step.outcome, Ok(WorkerOk::Continue));
}

#[test]
fn peer_relay_receive_error_is_recoverable() {
    let mut p = bound_peer();
    let step = p.handle_relay_message(Err("lagged".to_string()));
    assert!(step.effects.is_empty());
    assert_eq!(step.outcome, Err(WorkerErr::RecoverableError("lagged".to_string())));
}

#[test]
fn peer_follows_new_forward_target() {
    let mut p = bound_peer();
    let step = p.handle_command_message(Ok(CommandMessage::ChangeFwdAddr(v4(127, 0, 0, 1, 6000))));
    assert!(step.effects.is_empty());
    assert_eq!(step.outcome, Ok(WorkerOk::Continue));
    let step = p.handle_relay_message(Ok((v4(203, 0, 113, 5, 40000), vec![4])));
    assert_eq!(
        step.effects,
        vec![fx(PeerAction::SendTo(vec![4], v4(127, 0, 0, 1, 6000)), Severity::Recoverable)]
    );
}

#[test]
fn peer_forward_to_own_address_terminates() {
    let mut p = bound_peer();
    let step = p.handle_command_message(Ok(CommandMessage::ChangeFwdAddr(v4(127, 0, 0, 1, 51000))));
    assert_eq!(step.effects, vec![fx(PeerAction::ReleaseSocket, Severity::Unrecoverable)]);
    assert!(matches!(step.outcome, Err(WorkerErr::UnrecoverableError(_))));
    assert!(!step.effects.iter().any(|e| matches!(
        e.action,
        PeerAction::Report(ServiceMessage::PeerUnbound(_)) | PeerAction::SendTo(_, _)
    )));
}

fn unbound_step(peer: SockAddr) -> Step<PeerAction> {
    Step {
        effects: vec![
            fx(PeerAction::ReleaseSocket, Severity::Unrecoverable),
            fx(PeerAction::Report(ServiceMessage::PeerUnbound(peer)), Severity::Unrecoverable),
        ],
        outcome: Ok(WorkerOk::Terminate),
    }
}

#[test]
fn peer_disconnect_all_unbinds() {
    let mut p = bound_peer();
    let step = p.handle_command_message(Ok(CommandMessage::DisconnectAll));
    assert_eq!(step, unbound_step(v4(203, 0, 113, 5, 40000)));
}

#[test]
fn peer_terminate_all_unbinds() {
    let mut p = bound_peer();
    let step = p.handle_command_message(Ok(CommandMessage::TerminateAll));
    assert_eq!(step, unbound_step(v4(203, 0, 113, 5, 40000)));
}

#[test]
fn peer_disconnect_of_this_peer_unbinds() {
    let mut p = bound_peer();
    let step =
        p.handle_command_message(Ok(CommandMessage::DisconnectPeer(v4(203, 0, 113, 5, 40000))));
    assert_eq!(step, unbound_step(v4(203, 0, 113, 5, 40000)));
}

#[test]
fn peer_disconnect_of_other_peer_is_ignored() {
    let mut p = bound_peer();
    let step =
        p.handle_command_message(Ok(CommandMessage::DisconnectPeer(v4(198, 51, 100, 7, 40000))));
    assert!(step.effects.is_empty());
    assert_eq!(step.outcome, Ok(WorkerOk::Continue));
}

#[test]
fn peer_ignores_relay_and_peer_commands() {
    let mut p = bound_peer();
    let step = p.handle_command_message(Ok(CommandMessage::ConnectRelay {
        server: "turn.example.org".to_string(),
        username: "u".to_string(),
        password: "p".to_string(),
    }));
    assert!(step.effects.is_empty());
    assert_eq!(step.outcome, Ok(WorkerOk::Continue));
    let step = p.handle_command_message(Ok(CommandMessage::ConnectPeer {
        peer_addr: v4(198, 51, 100, 7, 1),
        local_addr: None,
    }));
    assert!(step.effects.is_empty());
    assert_eq!(step.outcome, Ok(WorkerOk::Continue));
}

#[test]
fn peer_command_receive_error_is_recoverable() {
    let mut p = bound_peer();
    let step = p.handle_command_message(Err("lagged by 3".to_string()));
    assert!(step.effects.is_empty());
    assert_eq!(step.outcome, Err(WorkerErr::RecoverableError("lagged by 3".to_string())));
}
