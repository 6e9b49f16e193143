use relay_tunnel::addr::{IpAddress, SockAddr};
use relay_tunnel::coordinator::{CoordinatorAction, Worker};
use relay_tunnel::peer::{PeerAction, PeerWorker};
use relay_tunnel::relay::{RelayAction, RelayWorker, TurnEvent, TurnRequest};
use relay_tunnel::types::{CommandMessage, ServiceMessage, WorkerOk};

fn v4(a: u8, b: u8, c: u8, d: u8, port: u16) -> SockAddr {
    SockAddr { ip: IpAddress::V4(a, b, c, d), port }
}

fn spawned(step_actions: Vec<CoordinatorAction>) -> PeerWorker {
    for action in step_actions {
        if let CoordinatorAction::Spawn(p) = action {
            return p;
        }
    }
    panic!("no tunnel was spawned");
}

#[test]
fn connect_peer_reports_bound_local_address() {
    let mut coordinator = Worker::new();
    let step = coordinator.handle_command_message(Ok(CommandMessage::ConnectPeer {
        peer_addr: v4(203, 0, 113, 5, 40000),
        local_addr: None,
    }));
    let mut peer = spawned(step.effects.into_iter().map(|e| e.action).collect());
    assert_eq!(peer.fwd_addr, v4(127, 0, 0, 1, 34197));
    let step = peer.setup_socket(Ok(v4(127, 0, 0, 1, 51000)));
    assert_eq!(step.outcome, Ok(WorkerOk::Continue));
    assert_eq!(
        step.effects[0].action,
        PeerAction::Report(ServiceMessage::PeerBound {
            peer_addr: v4(203, 0, 113, 5, 40000),
            local_addr: v4(127, 0, 0, 1, 51000),
        })
    );
}

#[test]
fn change_forward_to_bound_address_ends_tunnel() {
    let mut peer = PeerWorker::new(v4(203, 0, 113, 5, 40000), None, v4(127, 0, 0, 1, 34197));
    let _ = peer.setup_socket(Ok(v4(127, 0, 0, 1, 51000)));
    let step = peer.handle_command_message(Ok(CommandMessage::ChangeFwdAddr(v4(127, 0, 0, 1, 51000))));
    assert!(step.outcome.is_err());
    assert!(!step.effects.iter().any(|e| matches!(
        e.action,
        PeerAction::Report(_) | PeerAction::SendTo(_, _) | PeerAction::Upstream(_)
    )));
}

#[test]
fn terminate_all_drains_peers_and_relay() {
    let a = v4(203, 0, 113, 5, 40000);
    let b = v4(198, 51, 100, 7, 40001);
    let mut coordinator = Worker::new();
    let mut relay = RelayWorker::new();
    let _ = relay.handle_command_message(Ok(CommandMessage::ConnectRelay {
        server: "turn.example.org".to_string(),
        username: "u".to_string(),
        password: "pw".to_string(),
    }));
    let _ = relay.handle_connect_result(Ok(()));
    let mut peers = Vec::new();
    for addr in [a, b] {
        let command = CommandMessage::ConnectPeer { peer_addr: addr, local_addr: None };
        let step = coordinator.handle_command_message(Ok(command.clone()));
        let mut peer = spawned(step.effects.into_iter().map(|e| e.action).collect());
        let _ = peer.setup_socket(Ok(v4(127, 0, 0, 1, addr.port + 10000)));
        let _ = relay.handle_command_message(Ok(command));
        peers.push(peer);
    }

    let mut events = Vec::new();
    let step = coordinator.handle_command_message(Ok(CommandMessage::TerminateAll));
    assert_eq!(step.outcome, Ok(WorkerOk::Terminate));
    let joins: Vec<CoordinatorAction> = step.effects.into_iter().map(|e| e.action).collect();
    assert_eq!(
        joins,
        vec![CoordinatorAction::Join(a), CoordinatorAction::Join(b), CoordinatorAction::JoinRelay]
    );
    assert!(coordinator.peers.to_vec().is_empty());

    for peer in peers.iter_mut() {
        let step = peer.handle_command_message(Ok(CommandMessage::TerminateAll));
        assert_eq!(step.outcome, Ok(WorkerOk::Terminate));
        for e in step.effects {
            if let PeerAction::Report(m) = e.action {
                events.push(m);
            }
        }
    }

    let step = relay.handle_command_message(Ok(CommandMessage::TerminateAll));
    assert_eq!(step.outcome, Ok(WorkerOk::Continue));
    assert_eq!(step.effects[0].action, RelayAction::Turn(TurnRequest::Disconnect));
    let step = relay.handle_turn_message(Some(Ok(TurnEvent::Disconnected)));
    assert_eq!(step.outcome, Ok(WorkerOk::Terminate));
    for e in step.effects {
        if let RelayAction::Report(m) = e.action {
            events.push(m);
        }
    }

    assert_eq!(
        events,
        vec![
            ServiceMessage::PeerUnbound(a),
            ServiceMessage::PeerUnbound(b),
            ServiceMessage::RelayDisconnected,
        ]
    );
}
