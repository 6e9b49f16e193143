use vstd::prelude::*;
use vstd::string::StringExecFns;

use crate::addr::SockAddr;
use crate::types::{
    effect, CommandMessage, DataMessage, Effect, ServiceMessage, Severity, Step, WorkerErr,
    WorkerOk, WorkerResult, WorkerResultHelper,
};

verus! {

/// What a peer tunnel asks of its runtime.
#[derive(Debug, PartialEq, Eq)]
pub enum PeerAction {
    /// Send a status on the service channel.
    Report(ServiceMessage),
    /// Queue a packet on the upstream channel, towards the relay.
    Upstream(DataMessage),
    /// Write a payload through the tunnel's socket to the given address.
    SendTo(Vec<u8>, SockAddr),
    /// Close the tunnel's socket.
    ReleaseSocket,
}

/// State of one peer tunnel. The socket itself belongs to the runtime;
/// `local_addr` is the address it was bound to, once it is bound.
#[derive(Clone, Copy, Debug, PartialEq, Eq, Structural)]
pub struct PeerWorker {
    pub peer_addr: SockAddr,
    pub pinned_addr: Option<SockAddr>,
    pub fwd_addr: SockAddr,
    pub local_addr: Option<SockAddr>,
}

pub open spec fn report(m: ServiceMessage, on_failure: Severity) -> Effect<PeerAction> {
    effect(PeerAction::Report(m), on_failure)
}

/// The status reported when a tunnel goes away.
pub open spec fn unbound_effects(peer_addr: SockAddr) -> Seq<Effect<PeerAction>> {
    seq![
        effect(PeerAction::ReleaseSocket, Severity::Unrecoverable),
        report(ServiceMessage::PeerUnbound(peer_addr), Severity::Unrecoverable),
    ]
}

impl PeerWorker {
    /// The tunnel never forwards to its own socket.
    pub open spec fn no_self_loop(&self) -> bool {
        self.local_addr != Some(self.fwd_addr)
    }

    /// A tunnel for `peer_addr`, not yet bound.
    pub fn new(peer_addr: SockAddr, pinned_addr: Option<SockAddr>, fwd_addr: SockAddr) -> (r:
        PeerWorker)
        ensures
            r == (PeerWorker { peer_addr, pinned_addr, fwd_addr, local_addr: None }),
            r.no_self_loop(),
    {
        PeerWorker { peer_addr, pinned_addr, fwd_addr, local_addr: None }
    }

    /// The address to bind the socket to: the pinned one, else any free
    /// port on the loopback interface.
    pub fn bind_addr(&self) -> (r: SockAddr)
        ensures
            r == match self.pinned_addr {
                Some(a) => a,
                None => SockAddr::loopback_spec(0),
            },
    {
        match self.pinned_addr {
            Some(a) => a,
            None => SockAddr::local_dyn(),
        }
    }

    /// Decides on the outcome of binding the socket: `bound` is the local
    /// address that the bound socket reports, or why binding failed. A
    /// socket bound to the forward target is refused. On success the tunnel
    /// reports `PeerBound` and enters its loop; on failure it reports
    /// `PeerBindFailed` and terminates without entering it.
    pub fn setup_socket(&mut self, bound: Result<SockAddr, String>) -> (r: Step<PeerAction>)
        ensures
            final(self).peer_addr == old(self).peer_addr,
            final(self).pinned_addr == old(self).pinned_addr,
            final(self).fwd_addr == old(self).fwd_addr,
            match bound {
                Ok(l) if l != old(self).fwd_addr => {
                    &&& final(self).local_addr == Some(l)
                    &&& r.effects@ == seq![
                        report(
                            ServiceMessage::PeerBound { peer_addr: old(self).peer_addr, local_addr: l },
                            Severity::Unrecoverable,
                        ),
                    ]
                    &&& r.outcome == Ok::<WorkerOk, WorkerErr>(WorkerOk::Continue)
                },
                _ => {
                    &&& final(self).local_addr == old(self).local_addr
                    &&& r.effects@ == seq![
                        effect(PeerAction::ReleaseSocket, Severity::Unrecoverable),
                        report(ServiceMessage::PeerBindFailed(old(self).peer_addr), Severity::Unrecoverable),
                    ]
                    &&& r.outcome == Ok::<WorkerOk, WorkerErr>(WorkerOk::Terminate)
                },
            },
            old(self).local_addr is None ==> final(self).no_self_loop(),
    {
        let mut effects: Vec<Effect<PeerAction>> = Vec::new();
        let accepted = match bound {
            Ok(l) => if l != self.fwd_addr {
                Some(l)
            } else {
                None
            },
            Err(_) => None,
        };
        match accepted {
            Some(l) => {
                self.local_addr = Some(l);
                effects.push(
                    Effect::new(
                        PeerAction::Report(
                            ServiceMessage::PeerBound { peer_addr: self.peer_addr, local_addr: l },
                        ),
                        Severity::Unrecoverable,
                    ),
                );
                Step { effects, outcome: WorkerResult::continued() }
            },
            None => {
                effects.push(Effect::new(PeerAction::ReleaseSocket, Severity::Unrecoverable));
                effects.push(
                    Effect::new(
                        PeerAction::Report(ServiceMessage::PeerBindFailed(self.peer_addr)),
                        Severity::Unrecoverable,
                    ),
                );
                Step { effects, outcome: WorkerResult::terminate() }
            },
        }
    }

    /// A packet that arrived on the tunnel's socket, a read error, or the
    /// end of the socket's stream. A packet goes upstream tagged with the
    /// peer's address; the end of the stream ends the tunnel.
    pub fn handle_socket_message(
        &mut self,
        socket_message: Option<Result<(Vec<u8>, SockAddr), String>>,
    ) -> (r: Step<PeerAction>)
        ensures
            *final(self) == *old(self),
            match socket_message {
                Some(Ok((data, _src))) => {
                    &&& r.effects@ == seq![
                        effect(PeerAction::Upstream((old(self).peer_addr, data)), Severity::Recoverable),
                    ]
                    &&& r.outcome == Ok::<WorkerOk, WorkerErr>(WorkerOk::Continue)
                },
                Some(Err(e)) => {
                    &&& r.effects@ == Seq::<Effect<PeerAction>>::empty()
                    &&& r.outcome == Err::<WorkerOk, WorkerErr>(WorkerErr::RecoverableError(e))
                },
                None => {
                    &&& r.effects@ == seq![
                        report(ServiceMessage::PeerUnbound(old(self).peer_addr), Severity::Unrecoverable),
                    ]
                    &&& r.outcome == Ok::<WorkerOk, WorkerErr>(WorkerOk::Terminate)
                },
            },
    {
        match socket_message {
            Some(Ok((data, _src))) => Step::one(
                PeerAction::Upstream((self.peer_addr, data)),
                Severity::Recoverable,
                WorkerResult::continued(),
            ),
            Some(Err(e)) => Step::just(Err(WorkerErr::RecoverableError(e))),
            None => Step::one(
                PeerAction::Report(ServiceMessage::PeerUnbound(self.peer_addr)),
                Severity::Unrecoverable,
                WorkerResult::terminate(),
            ),
        }
    }

    /// A packet from the relay, or a failure to receive one. Only a packet
    /// from this tunnel's peer is written out, to the current forward target.
    pub fn handle_relay_message(&mut self, relay_message: Result<DataMessage, String>) -> (r: Step<
        PeerAction,
    >)
        ensures
            *final(self) == *old(self),
            match relay_message {
                Ok((src, data)) => {
                    &&& r.effects@ == if src == old(self).peer_addr {
                        seq![effect(PeerAction::SendTo(data, old(self).fwd_addr), Severity::Recoverable)]
                    } else {
                        Seq::<Effect<PeerAction>>::empty()
                    }
                    &&& r.outcome == Ok::<WorkerOk, WorkerErr>(WorkerOk::Continue)
                },
                Err(e) => {
                    &&& r.effects@ == Seq::<Effect<PeerAction>>::empty()
                    &&& r.outcome == Err::<WorkerOk, WorkerErr>(WorkerErr::RecoverableError(e))
                },
            },
    {
        match relay_message {
            Ok((src, data)) => {
                if src == self.peer_addr {
                    Step::one(
                        PeerAction::SendTo(data, self.fwd_addr),
                        Severity::Recoverable,
                        WorkerResult::continued(),
                    )
                } else {
                    Step::just(WorkerResult::continued())
                }
            },
            Err(e) => Step::just(Err(WorkerErr::RecoverableError(e))),
        }
    }

    /// A broadcast command, or a failure to receive one. A new forward
    /// target equal to the tunnel's own address ends the tunnel with an
    /// unrecoverable error; a disconnect that concerns this tunnel releases
    /// the socket, reports `PeerUnbound` and ends it.
    pub fn handle_command_message(&mut self, command_message: Result<CommandMessage, String>) -> (r:
        Step<PeerAction>)
        ensures
            final(self).peer_addr == old(self).peer_addr,
            final(self).pinned_addr == old(self).pinned_addr,
            final(self).local_addr == old(self).local_addr,
            final(self).fwd_addr == match command_message {
                Ok(CommandMessage::ChangeFwdAddr(a)) => a,
                _ => old(self).fwd_addr,
            },
            match command_message {
                Err(e) => {
                    &&& r.effects@ == Seq::<Effect<PeerAction>>::empty()
                    &&& r.outcome == Err::<WorkerOk, WorkerErr>(WorkerErr::RecoverableError(e))
                },
                Ok(CommandMessage::ChangeFwdAddr(a)) => if old(self).local_addr == Some(a) {
                    &&& r.effects@ == seq![effect(PeerAction::ReleaseSocket, Severity::Unrecoverable)]
                    &&& r.outcome is Err
                    &&& r.outcome->Err_0 is UnrecoverableError
                } else {
                    &&& r.effects@ == Seq::<Effect<PeerAction>>::empty()
                    &&& r.outcome == Ok::<WorkerOk, WorkerErr>(WorkerOk::Continue)
                },
                Ok(CommandMessage::DisconnectAll) | Ok(CommandMessage::TerminateAll) => {
                    &&& r.effects@ == unbound_effects(old(self).peer_addr)
                    &&& r.outcome == Ok::<WorkerOk, WorkerErr>(WorkerOk::Terminate)
                },
                Ok(CommandMessage::DisconnectPeer(a)) => if a == old(self).peer_addr {
                    &&& r.effects@ == unbound_effects(old(self).peer_addr)
                    &&& r.outcome == Ok::<WorkerOk, WorkerErr>(WorkerOk::Terminate)
                } else {
                    &&& r.effects@ == Seq::<Effect<PeerAction>>::empty()
                    &&& r.outcome == Ok::<WorkerOk, WorkerErr>(WorkerOk::Continue)
                },
                Ok(_) => {
                    &&& r.effects@ == Seq::<Effect<PeerAction>>::empty()
                    &&& r.outcome == Ok::<WorkerOk, WorkerErr>(WorkerOk::Continue)
                },
            },
            r.outcome == Ok::<WorkerOk, WorkerErr>(WorkerOk::Continue) && old(self).no_self_loop()
                ==> final(self).no_self_loop(),
    {
        match command_message {
            Err(e) => Step::just(Err(WorkerErr::RecoverableError(e))),
            Ok(CommandMessage::ChangeFwdAddr(a)) => {
                self.fwd_addr = a;
                if self.local_addr == Some(a) {
                    Step::one(
                        PeerAction::ReleaseSocket,
                        Severity::Unrecoverable,
                        Err(
                            WorkerErr::UnrecoverableError(
                                String::from_str("refusing to forward to the tunnel's own address"),
                            ),
                        ),
                    )
                } else {
                    Step::just(WorkerResult::continued())
                }
            },
            Ok(CommandMessage::DisconnectAll) | Ok(CommandMessage::TerminateAll) => self.unbind(),
            Ok(CommandMessage::DisconnectPeer(a)) => {
                if a == self.peer_addr {
                    self.unbind()
                } else {
                    Step::just(WorkerResult::continued())
                }
            },
            Ok(_) => Step::just(WorkerResult::continued()),
        }
    }

    fn unbind(&self) -> (r: Step<PeerAction>)
        ensures
            r.effects@ == unbound_effects(self.peer_addr),
            r.outcome == Ok::<WorkerOk, WorkerErr>(WorkerOk::Terminate),
    {
        let mut effects: Vec<Effect<PeerAction>> = Vec::new();
        effects.push(Effect::new(PeerAction::ReleaseSocket, Severity::Unrecoverable));
        effects.push(
            Effect::new(
                PeerAction::Report(ServiceMessage::PeerUnbound(self.peer_addr)),
                Severity::Unrecoverable,
            ),
        );
        proof {
            assert(effects@ =~= unbound_effects(self.peer_addr));
        }
        Step { effects, outcome: WorkerResult::terminate() }
    }
}

} // verus!
