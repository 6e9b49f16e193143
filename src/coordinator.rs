use vstd::prelude::*;

use crate::addr::SockAddr;
use crate::addr_set::AddrSet;
use crate::peer::PeerWorker;
use crate::types::{
    effect, CommandMessage, Effect, ServiceMessage, Severity, Step, WorkerErr, WorkerOk,
    WorkerResult, WorkerResultHelper,
};

verus! {

/// What the coordinator asks of its runtime.
#[derive(Debug, PartialEq, Eq)]
pub enum CoordinatorAction {
    /// Start a task running this peer tunnel, subscribed to the command and
    /// downstream broadcasts before it is handed off.
    Spawn(PeerWorker),
    /// Stop the running task of this peer at once and wait for it.
    Abort(SockAddr),
    /// Wait for the task of this peer to finish.
    Join(SockAddr),
    /// Wait for the relay task to finish.
    JoinRelay,
    /// Send a status on the service channel.
    Report(ServiceMessage),
}

/// The supervisor: the set of peers that have a running tunnel task, and
/// the forward target given to new tunnels. The relay task is started once
/// with the coordinator and joined when it terminates.
#[derive(Debug)]
pub struct Worker {
    pub peers: AddrSet,
    pub fwd_addr: SockAddr,
}

/// The peers that have a tunnel after `command`, given those before it.
pub open spec fn peers_after(peers: Set<SockAddr>, command: CommandMessage) -> Set<SockAddr> {
    match command {
        CommandMessage::ConnectPeer { peer_addr, .. } => peers.insert(peer_addr),
        CommandMessage::DisconnectPeer(a) => peers.remove(a),
        CommandMessage::DisconnectAll | CommandMessage::TerminateAll => Set::empty(),
        _ => peers,
    }
}

/// Waiting for each of `peers` in turn; a failure ends the coordinator.
pub open spec fn join_effects(peers: Seq<SockAddr>) -> Seq<Effect<CoordinatorAction>> {
    peers.map_values(|p: SockAddr| effect(CoordinatorAction::Join(p), Severity::Unrecoverable))
}

/// `effects` waits, once each, for exactly the tunnels of `peers`, and a
/// failure of any wait ends the coordinator.
pub open spec fn joins_exactly(peers: Set<SockAddr>, effects: Seq<Effect<CoordinatorAction>>) -> bool {
    &&& effects.no_duplicates()
    &&& forall|i: int|
        0 <= i < effects.len() ==> (#[trigger] effects[i]).action is Join && effects[i].on_failure
            == Severity::Unrecoverable
    &&& forall|p: SockAddr|
        peers.contains(p) <==> #[trigger] effects.contains(
            effect(CoordinatorAction::Join(p), Severity::Unrecoverable),
        )
}

/// Waiting for each address of a sequence without repeats waits for exactly
/// the addresses it holds.
pub proof fn lemma_join_effects(peers: Seq<SockAddr>)
    requires
        peers.no_duplicates(),
    ensures
        joins_exactly(peers.to_set(), join_effects(peers)),
{
    let effects = join_effects(peers);
    assert forall|p: SockAddr| peers.to_set().contains(p) <==> #[trigger] effects.contains(
        effect(CoordinatorAction::Join(p), Severity::Unrecoverable),
    ) by {
        if peers.contains(p) {
            let k = choose|k: int| 0 <= k < peers.len() && peers[k] == p;
            assert(effects[k] == effect(CoordinatorAction::Join(p), Severity::Unrecoverable));
        }
        if effects.contains(effect(CoordinatorAction::Join(p), Severity::Unrecoverable)) {
            let k = choose|k: int|
                0 <= k < effects.len() && effects[k] == effect(
                    CoordinatorAction::Join(p),
                    Severity::Unrecoverable,
                );
            assert(peers[k] == p);
        }
    }
    assert forall|i: int, j: int|
        0 <= i < effects.len() && 0 <= j < effects.len() && i != j implies effects[i]
            != effects[j] by {
        assert(peers[i] != peers[j]);
    }
}

/// The peers that have a tunnel after `commands`, starting from none.
pub open spec fn replay_peers(commands: Seq<CommandMessage>) -> Set<SockAddr>
    decreases commands.len(),
{
    if commands.len() == 0 {
        Set::empty()
    } else {
        peers_after(replay_peers(commands.drop_last()), commands.last())
    }
}

/// Whether `command` is a `ConnectPeer` for `a`.
pub open spec fn is_connect_of(command: CommandMessage, a: SockAddr) -> bool {
    match command {
        CommandMessage::ConnectPeer { peer_addr, .. } => peer_addr == a,
        _ => false,
    }
}

/// Some `ConnectPeer` for `a` in `commands` is followed by no
/// `DisconnectPeer` for `a`.
pub open spec fn has_unmatched_connect(commands: Seq<CommandMessage>, a: SockAddr) -> bool {
    exists|i: int|
        0 <= i < commands.len() && is_connect_of(#[trigger] commands[i], a) && forall|j: int|
            i < j < commands.len() ==> commands[j] != CommandMessage::DisconnectPeer(a)
}

/// Over any run of `ConnectPeer` and `DisconnectPeer` commands, the
/// coordinator keeps a tunnel for exactly the peers whose last
/// `ConnectPeer` was not followed by a `DisconnectPeer`.
pub proof fn lemma_peers_are_unmatched_connects(commands: Seq<CommandMessage>)
    requires
        forall|i: int|
            0 <= i < commands.len() ==> (#[trigger] commands[i] is ConnectPeer
                || commands[i] is DisconnectPeer),
    ensures
        forall|a: SockAddr|
            #[trigger] replay_peers(commands).contains(a) <==> has_unmatched_connect(commands, a),
    decreases commands.len(),
{
    if commands.len() == 0 {
        return;
    }
    let prefix = commands.drop_last();
    let n = commands.len() - 1;
    assert forall|i: int| 0 <= i < prefix.len() implies (#[trigger] prefix[i] is ConnectPeer
        || prefix[i] is DisconnectPeer) by {
        assert(prefix[i] == commands[i]);
    }
    lemma_peers_are_unmatched_connects(prefix);
    assert forall|a: SockAddr|
        #[trigger] replay_peers(commands).contains(a) <==> has_unmatched_connect(commands, a) by {
        let last = commands[n];
        assert(commands.last() == last);
        if has_unmatched_connect(prefix, a) && last != CommandMessage::DisconnectPeer(a) {
            let i = choose|i: int|
                0 <= i < prefix.len() && is_connect_of(#[trigger] prefix[i], a) && forall|j: int|
                    i < j < prefix.len() ==> prefix[j] != CommandMessage::DisconnectPeer(a);
            assert(commands[i] == prefix[i]);
            assert forall|j: int| i < j < commands.len() implies commands[j]
                != CommandMessage::DisconnectPeer(a) by {
                if j < n {
                    assert(commands[j] == prefix[j]);
                }
            }
            assert(has_unmatched_connect(commands, a));
        }
        if has_unmatched_connect(commands, a) {
            let i = choose|i: int|
                0 <= i < commands.len() && is_connect_of(#[trigger] commands[i], a) && forall|j: int|
                    i < j < commands.len() ==> commands[j] != CommandMessage::DisconnectPeer(a);
            if i < n {
                assert(last != CommandMessage::DisconnectPeer(a));
                assert(prefix[i] == commands[i]);
                assert forall|j: int| i < j < prefix.len() implies prefix[j]
                    != CommandMessage::DisconnectPeer(a) by {
                    assert(commands[j] == prefix[j]);
                }
                assert(has_unmatched_connect(prefix, a));
            }
        }
        assert(replay_peers(commands) == peers_after(replay_peers(prefix), last));
        match last {
            CommandMessage::ConnectPeer { peer_addr, .. } => {
                if peer_addr == a {
                    assert(is_connect_of(commands[n], a));
                    assert(forall|j: int| n < j < commands.len() ==> commands[j]
                        != CommandMessage::DisconnectPeer(a));
                    assert(has_unmatched_connect(commands, a));
                } else {
                    assert(!is_connect_of(commands[n], a));
                }
            },
            CommandMessage::DisconnectPeer(b) => {
                assert(!is_connect_of(commands[n], a));
                if b == a {
                    if has_unmatched_connect(commands, a) {
                        let i = choose|i: int|
                            0 <= i < commands.len() && is_connect_of(#[trigger] commands[i], a)
                                && forall|j: int|
                                i < j < commands.len() ==> commands[j]
                                    != CommandMessage::DisconnectPeer(a);
                        assert(i < n);
                        assert(commands[n] == CommandMessage::DisconnectPeer(a));
                    }
                }
            },
            _ => {
                assert(commands[n] is ConnectPeer || commands[n] is DisconnectPeer);
            },
        }
    }
}

impl Worker {
    pub open spec fn wf(&self) -> bool {
        self.peers.wf()
    }

    /// A coordinator with no peers, forwarding to the default target.
    pub fn new() -> (r: Worker)
        ensures
            r.wf(),
            r.peers@ == Set::<SockAddr>::empty(),
            r.fwd_addr == SockAddr::loopback_spec(crate::addr::DEFAULT_FWD_PORT),
    {
        Worker { peers: AddrSet::new(), fwd_addr: SockAddr::default_fwd() }
    }

    fn drain_peers(&mut self) -> (r: Vec<Effect<CoordinatorAction>>)
        requires
            old(self).wf(),
        ensures
            final(self).wf(),
            final(self).peers@ == Set::<SockAddr>::empty(),
            final(self).fwd_addr == old(self).fwd_addr,
            r@ == join_effects(old(self).peers.order()),
    {
        let peers = self.peers.take_all();
        let mut effects: Vec<Effect<CoordinatorAction>> = Vec::new();
        let mut i: usize = 0;
        while i < peers.len()
            invariant
                i <= peers@.len(),
                effects@ == join_effects(peers@.subrange(0, i as int)),
            decreases peers@.len() - i,
        {
            effects.push(Effect::new(CoordinatorAction::Join(peers[i]), Severity::Unrecoverable));
            i = i + 1;
            proof {
                assert(effects@ =~= join_effects(peers@.subrange(0, i as int)));
            }
        }
        proof {
            assert(peers@.subrange(0, i as int) =~= peers@);
        }
        effects
    }

    /// Acts on a broadcast command, or on a failure to receive one.
    ///
    /// A peer that already has a tunnel is stopped and started anew on a
    /// repeated `ConnectPeer`. `DisconnectAll` waits for every tunnel;
    /// `TerminateAll` waits for every tunnel and then for the relay, and ends
    /// the coordinator. Disconnecting a peer without a tunnel reports it as
    /// unbound.
    pub fn handle_command_message(&mut self, command_message: Result<CommandMessage, String>) -> (r:
        Step<CoordinatorAction>)
        requires
            old(self).wf(),
        ensures
            final(self).wf(),
            match command_message {
                Ok(c) => final(self).peers@ == peers_after(old(self).peers@, c),
                Err(_) => final(self).peers@ == old(self).peers@,
            },
            final(self).fwd_addr == match command_message {
                Ok(CommandMessage::ChangeFwdAddr(a)) => a,
                _ => old(self).fwd_addr,
            },
            match command_message {
                Err(e) => {
                    &&& r.effects@ == Seq::<Effect<CoordinatorAction>>::empty()
                    &&& r.outcome == Err::<WorkerOk, WorkerErr>(WorkerErr::RecoverableError(e))
                },
                Ok(CommandMessage::ConnectPeer { peer_addr, local_addr }) => {
                    let spawn = effect(
                        CoordinatorAction::Spawn(
                            PeerWorker {
                                peer_addr,
                                pinned_addr: local_addr,
                                fwd_addr: old(self).fwd_addr,
                                local_addr: None,
                            },
                        ),
                        Severity::Recoverable,
                    );
                    &&& r.effects@ == if old(self).peers@.contains(peer_addr) {
                        seq![effect(CoordinatorAction::Abort(peer_addr), Severity::Recoverable), spawn]
                    } else {
                        seq![spawn]
                    }
                    &&& r.outcome == Ok::<WorkerOk, WorkerErr>(WorkerOk::Continue)
                },
                Ok(CommandMessage::DisconnectPeer(a)) => {
                    &&& r.effects@ == if old(self).peers@.contains(a) {
                        seq![effect(CoordinatorAction::Join(a), Severity::Recoverable)]
                    } else {
                        seq![
                            effect(
                                CoordinatorAction::Report(ServiceMessage::PeerUnbound(a)),
                                Severity::Recoverable,
                            ),
                        ]
                    }
                    &&& r.outcome == Ok::<WorkerOk, WorkerErr>(WorkerOk::Continue)
                },
                Ok(CommandMessage::DisconnectAll) => {
                    &&& r.effects@ == join_effects(old(self).peers.order())
                    &&& joins_exactly(old(self).peers@, r.effects@)
                    &&& r.outcome == Ok::<WorkerOk, WorkerErr>(WorkerOk::Continue)
                },
                Ok(CommandMessage::TerminateAll) => {
                    &&& r.effects@ == join_effects(old(self).peers.order()).push(
                        effect(CoordinatorAction::JoinRelay, Severity::Unrecoverable),
                    )
                    &&& joins_exactly(old(self).peers@, r.effects@.drop_last())
                    &&& r.effects@.last() == effect(CoordinatorAction::JoinRelay, Severity::Unrecoverable)
                    &&& r.outcome == Ok::<WorkerOk, WorkerErr>(WorkerOk::Terminate)
                },
                Ok(_) => {
                    &&& r.effects@ == Seq::<Effect<CoordinatorAction>>::empty()
                    &&& r.outcome == Ok::<WorkerOk, WorkerErr>(WorkerOk::Continue)
                },
            },
    {
        proof {
            lemma_join_effects(self.peers.order());
        }
        match command_message {
            Err(e) => Step::just(Err(WorkerErr::RecoverableError(e))),
            Ok(CommandMessage::ConnectRelay { .. }) => Step::just(WorkerResult::continued()),
            Ok(CommandMessage::ConnectPeer { peer_addr, local_addr }) => {
                let tunnel = PeerWorker::new(peer_addr, local_addr, self.fwd_addr);
                let fresh = self.peers.insert(peer_addr);
                if fresh {
                    Step::one(CoordinatorAction::Spawn(tunnel), Severity::Recoverable, WorkerResult::continued())
                } else {
                    let mut effects: Vec<Effect<CoordinatorAction>> = Vec::new();
                    effects.push(Effect::new(CoordinatorAction::Abort(peer_addr), Severity::Recoverable));
                    effects.push(Effect::new(CoordinatorAction::Spawn(tunnel), Severity::Recoverable));
                    Step { effects, outcome: WorkerResult::continued() }
                }
            },
            Ok(CommandMessage::ChangeFwdAddr(a)) => {
                self.fwd_addr = a;
                Step::just(WorkerResult::continued())
            },
            Ok(CommandMessage::DisconnectAll) => {
                let effects = self.drain_peers();
                Step { effects, outcome: WorkerResult::continued() }
            },
            Ok(CommandMessage::DisconnectPeer(a)) => {
                if self.peers.remove(a) {
                    Step::one(CoordinatorAction::Join(a), Severity::Recoverable, WorkerResult::continued())
                } else {
                    Step::one(
                        CoordinatorAction::Report(ServiceMessage::PeerUnbound(a)),
                        Severity::Recoverable,
                        WorkerResult::continued(),
                    )
                }
            },
            Ok(CommandMessage::TerminateAll) => {
                let ghost order = self.peers.order();
                let mut effects = self.drain_peers();
                effects.push(Effect::new(CoordinatorAction::JoinRelay, Severity::Unrecoverable));
                proof {
                    assert(effects@.drop_last() =~= join_effects(order));
                }
                Step { effects, outcome: WorkerResult::terminate() }
            },
        }
    }
}

} // verus!
