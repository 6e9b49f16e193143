use vstd::prelude::*;
use vstd::string::StringExecFns;

use crate::addr::{SockAddr, DEFAULT_RELAY_PORT};
use crate::addr_set::AddrSet;
use crate::types::{
    effect, terminate_if_spec, CommandMessage, DataMessage, Effect, ServiceMessage, Severity, Step,
    WorkerErr, WorkerOk, WorkerResult, WorkerResultHelper,
};

verus! {

broadcast use vstd::string::axiom_spec_iter;

/// Where the relay session stands.
#[derive(Clone, Copy, Debug, PartialEq, Eq, Structural)]
pub enum SessionState {
    /// No session.
    Disconnected,
    /// The server is being resolved and the session opened.
    Opening,
    /// The session is open; no allocation was granted yet.
    Connected,
    /// The relay server granted an allocation.
    Allocated,
}

/// How to find the relay server's address.
#[derive(Clone, Debug, PartialEq, Eq)]
pub enum Lookup {
    /// A name that gives its own port, as `host:port`.
    Address(String),
    /// A bare host name, with the port to use.
    HostPort(String, u16),
}

/// What the relay session reports.
#[derive(Debug, PartialEq, Eq)]
pub enum TurnEvent {
    AllocationGranted(SockAddr),
    RedirectedToAlternateServer(SockAddr),
    PermissionCreated(SockAddr),
    PermissionNotCreated(SockAddr),
    RecvFrom(SockAddr, Vec<u8>),
    Disconnected,
    PacketHandled,
    ForeignPacket(SockAddr),
    NetworkChange,
}

/// A request for the relay session.
#[derive(Debug, PartialEq, Eq)]
pub enum TurnRequest {
    AddPermission(SockAddr),
    SendTo(SockAddr, Vec<u8>),
    Disconnect,
}

/// What the relay worker asks of its runtime.
#[derive(Debug, PartialEq, Eq)]
pub enum RelayAction {
    /// Resolve the server, bind a socket on every interface and open a
    /// session with it; then hand the outcome to `handle_connect_result`
    /// and perform the effects of the step it returns, after those still
    /// pending. Unless that step ends with `Continue`, its outcome replaces
    /// the outcome of the step that asked for the connection.
    Connect { server: Lookup, username: String, password: String },
    /// Drop the session.
    CloseSession,
    /// Pass a request to the session.
    Turn(TurnRequest),
    /// Send a status on the service channel.
    Report(ServiceMessage),
    /// Broadcast a packet from the relay to the peer tunnels.
    Downstream(DataMessage),
}

/// State of the worker that owns the relay session. The session itself
/// belongs to the runtime.
#[derive(Debug)]
pub struct RelayWorker {
    pub session: SessionState,
    /// Peers that the relay allows to be sent to.
    pub granted_peers: AddrSet,
    /// Whether the loss of the session ends the worker.
    pub will_terminate: bool,
}

/// How a server name is looked up: as given when it holds a port, else with
/// the default relay port.
pub open spec fn lookup_of(server: String) -> Lookup {
    if server@.contains(':') {
        Lookup::Address(server)
    } else {
        Lookup::HostPort(server, DEFAULT_RELAY_PORT)
    }
}

pub open spec fn relay_report(m: ServiceMessage, on_failure: Severity) -> Effect<RelayAction> {
    effect(RelayAction::Report(m), on_failure)
}

/// No effect sends data to a peer outside `granted`.
pub open spec fn sends_only_to_granted(
    granted: Set<SockAddr>,
    effects: Seq<Effect<RelayAction>>,
) -> bool {
    forall|i: int|
        0 <= i < effects.len() ==> match #[trigger] effects[i].action {
            RelayAction::Turn(TurnRequest::SendTo(dst, _)) => granted.contains(dst),
            _ => true,
        }
}

/// The effects of losing the session.
pub open spec fn session_lost_effects() -> Seq<Effect<RelayAction>> {
    seq![
        effect(RelayAction::CloseSession, Severity::Unrecoverable),
        relay_report(ServiceMessage::RelayDisconnected, Severity::Unrecoverable),
    ]
}

/// Whether `s` holds a colon, that is whether a server name gives a port.
pub fn has_colon(s: &String) -> (r: bool)
    ensures
        r == s@.contains(':'),
{
    let mut found = false;
    for c in it: s.as_str().chars()
        invariant
            it.seq() == s@,
            found == (exists|i: int| 0 <= i < it.index() && it.seq()[i] == ':'),
    {
        if c == ':' {
            found = true;
        }
    }
    found
}

/// How to look up `server`.
pub fn lookup(server: String) -> (r: Lookup)
    ensures
        r == lookup_of(server),
{
    if has_colon(&server) {
        Lookup::Address(server)
    } else {
        Lookup::HostPort(server, DEFAULT_RELAY_PORT)
    }
}

impl SessionState {
    pub open spec fn is_open(self) -> bool {
        self is Connected || self is Allocated
    }
}

impl RelayWorker {
    /// Grants live only as long as a session is open.
    pub open spec fn wf(&self) -> bool {
        &&& self.granted_peers.wf()
        &&& !self.session.is_open() ==> self.granted_peers@ == Set::<SockAddr>::empty()
    }

    /// Whether a `ConnectRelay` is taken up now.
    pub open spec fn accepts_connect(&self) -> bool {
        self.session is Disconnected
    }

    /// The bookkeeping left after the session is lost.
    pub open spec fn after_session_lost(&self, next: &RelayWorker) -> bool {
        &&& next.session is Disconnected
        &&& next.granted_peers@ == Set::<SockAddr>::empty()
        &&& next.will_terminate == self.will_terminate
    }

    /// A worker with no session and no shutdown pending.
    pub fn new() -> (r: RelayWorker)
        ensures
            r.wf(),
            r.session is Disconnected,
            r.granted_peers@ == Set::<SockAddr>::empty(),
            !r.will_terminate,
    {
        RelayWorker { session: SessionState::Disconnected, granted_peers: AddrSet::new(), will_terminate: false }
    }

    fn has_session(&self) -> (r: bool)
        ensures
            r == self.session.is_open(),
    {
        match self.session {
            SessionState::Connected | SessionState::Allocated => true,
            _ => false,
        }
    }

    fn session_lost(&mut self) -> (r: Step<RelayAction>)
        requires
            old(self).wf(),
        ensures
            final(self).wf(),
            old(self).after_session_lost(&*final(self)),
            r.effects@ == session_lost_effects(),
            r.outcome == terminate_if_spec(old(self).will_terminate),
    {
        self.session = SessionState::Disconnected;
        let _ = self.granted_peers.take_all();
        let mut effects: Vec<Effect<RelayAction>> = Vec::new();
        effects.push(Effect::new(RelayAction::CloseSession, Severity::Unrecoverable));
        effects.push(
            Effect::new(RelayAction::Report(ServiceMessage::RelayDisconnected), Severity::Unrecoverable),
        );
        proof {
            assert(effects@ =~= session_lost_effects());
        }
        Step { effects, outcome: WorkerResult::terminate_if(self.will_terminate) }
    }

    /// What `handle_turn_message` does: `next` and `step` follow `self` on
    /// `turn_message`.
    pub open spec fn turn_post(
        self,
        turn_message: Option<Result<TurnEvent, String>>,
        next: RelayWorker,
        step: Step<RelayAction>,
    ) -> bool {
        let continued = Ok::<WorkerOk, WorkerErr>(WorkerOk::Continue);
        let unchanged = next.session == self.session && next.granted_peers@ == self.granted_peers@;
        &&& next.will_terminate == self.will_terminate
        &&& match turn_message {
            Some(Ok(TurnEvent::AllocationGranted(a))) => {
                &&& next.session == (if self.session is Connected {
                    SessionState::Allocated
                } else {
                    self.session
                })
                &&& next.granted_peers@ == self.granted_peers@
                &&& step.effects@ == seq![
                    relay_report(ServiceMessage::RelayAllocated(a), Severity::Unrecoverable),
                ]
                &&& step.outcome == continued
            },
            Some(Ok(TurnEvent::RecvFrom(src, data))) => {
                &&& unchanged
                &&& step.effects@ == seq![
                    effect(RelayAction::Downstream((src, data)), Severity::Recoverable),
                ]
                &&& step.outcome == continued
            },
            Some(Ok(TurnEvent::RedirectedToAlternateServer(a))) => {
                &&& unchanged
                &&& step.effects@ == seq![
                    relay_report(ServiceMessage::RelayRedirected(a), Severity::Unrecoverable),
                ]
                &&& step.outcome == continued
            },
            Some(Ok(TurnEvent::PermissionCreated(a))) => {
                &&& next.session == self.session
                &&& next.granted_peers@ == if self.session.is_open() {
                    self.granted_peers@.insert(a)
                } else {
                    self.granted_peers@
                }
                &&& step.effects@ == seq![
                    relay_report(ServiceMessage::RelayPeerGranted(a), Severity::Recoverable),
                ]
                &&& step.outcome == continued
            },
            Some(Ok(TurnEvent::PermissionNotCreated(a))) => {
                &&& next.session == self.session
                &&& next.granted_peers@ == self.granted_peers@.remove(a)
                &&& step.effects@ == seq![
                    relay_report(ServiceMessage::RelayPeerDenied(a), Severity::Recoverable),
                ]
                &&& step.outcome == continued
            },
            Some(Ok(TurnEvent::Disconnected)) => {
                &&& self.after_session_lost(&next)
                &&& step.effects@ == session_lost_effects()
                &&& step.outcome == terminate_if_spec(self.will_terminate)
            },
            Some(Ok(_)) => {
                &&& unchanged
                &&& step.effects@ == Seq::<Effect<RelayAction>>::empty()
                &&& step.outcome == continued
            },
            Some(Err(e)) => {
                &&& unchanged
                &&& step.effects@ == Seq::<Effect<RelayAction>>::empty()
                &&& step.outcome == Err::<WorkerOk, WorkerErr>(WorkerErr::RecoverableError(e))
            },
            None => if self.session.is_open() {
                &&& self.after_session_lost(&next)
                &&& step.effects@ == session_lost_effects()
                &&& step.outcome == terminate_if_spec(self.will_terminate)
            } else {
                &&& self.after_session_lost(&next)
                &&& step.effects@ == Seq::<Effect<RelayAction>>::empty()
                &&& step.outcome == terminate_if_spec(self.will_terminate)
            },
        }
    }

    /// Acts on what the relay session reports, on a failure to read it, or
    /// on the end of its stream. Losing the session, by a `Disconnected`
    /// report or by the end of the stream, drops it, forgets every granted
    /// peer and reports `RelayDisconnected`; it ends the worker only when a
    /// shutdown is pending. A stream end with no open session reports
    /// nothing but leaves no session and no grant behind either. A grant
    /// arriving with no open session is reported and not recorded.
    pub fn handle_turn_message(&mut self, turn_message: Option<Result<TurnEvent, String>>) -> (r:
        Step<RelayAction>)
        requires
            old(self).wf(),
        ensures
            final(self).wf(),
            old(self).turn_post(turn_message, *final(self), r),
            sends_only_to_granted(old(self).granted_peers@, r.effects@),
    {
        match turn_message {
            Some(Ok(TurnEvent::AllocationGranted(a))) => {
                if self.session == SessionState::Connected {
                    self.session = SessionState::Allocated;
                }
                Step::one(
                    RelayAction::Report(ServiceMessage::RelayAllocated(a)),
                    Severity::Unrecoverable,
                    WorkerResult::continued(),
                )
            },
            Some(Ok(TurnEvent::RecvFrom(src, data))) => Step::one(
                RelayAction::Downstream((src, data)),
                Severity::Recoverable,
                WorkerResult::continued(),
            ),
            Some(Ok(TurnEvent::RedirectedToAlternateServer(a))) => Step::one(
                RelayAction::Report(ServiceMessage::RelayRedirected(a)),
                Severity::Unrecoverable,
                WorkerResult::continued(),
            ),
            Some(Ok(TurnEvent::PermissionCreated(a))) => {
                if self.has_session() {
                    let _ = self.granted_peers.insert(a);
                }
                Step::one(
                    RelayAction::Report(ServiceMessage::RelayPeerGranted(a)),
                    Severity::Recoverable,
                    WorkerResult::continued(),
                )
            },
            Some(Ok(TurnEvent::PermissionNotCreated(a))) => {
                let _ = self.granted_peers.remove(a);
                Step::one(
                    RelayAction::Report(ServiceMessage::RelayPeerDenied(a)),
                    Severity::Recoverable,
                    WorkerResult::continued(),
                )
            },
            Some(Ok(TurnEvent::Disconnected)) => self.session_lost(),
            Some(Ok(_)) => Step::just(WorkerResult::continued()),
            Some(Err(e)) => Step::just(Err(WorkerErr::RecoverableError(e))),
            None => {
                if self.has_session() {
                    self.session_lost()
                } else {
                    self.session = SessionState::Disconnected;
                    let _ = self.granted_peers.take_all();
                    Step::just(WorkerResult::terminate_if(self.will_terminate))
                }
            },
        }
    }

    /// A packet from a peer tunnel, or the end of the upstream channel. The
    /// packet goes into the session only while one is open and only if its
    /// peer was granted; otherwise it is dropped.
    pub fn handle_peer_message(&mut self, peer_message: Option<DataMessage>) -> (r: Step<
        RelayAction,
    >)
        requires
            old(self).wf(),
        ensures
            final(self).wf(),
            final(self).session == old(self).session,
            final(self).granted_peers@ == old(self).granted_peers@,
            final(self).will_terminate == old(self).will_terminate,
            match peer_message {
                Some((dst, data)) => {
                    &&& r.effects@ == if old(self).session.is_open() && old(self).granted_peers@.contains(dst) {
                        seq![effect(RelayAction::Turn(TurnRequest::SendTo(dst, data)), Severity::Recoverable)]
                    } else {
                        Seq::<Effect<RelayAction>>::empty()
                    }
                    &&& r.outcome == Ok::<WorkerOk, WorkerErr>(WorkerOk::Continue)
                },
                None => {
                    &&& r.effects@ == Seq::<Effect<RelayAction>>::empty()
                    &&& r.outcome is Err
                    &&& r.outcome->Err_0 is UnrecoverableError
                },
            },
            sends_only_to_granted(old(self).granted_peers@, r.effects@),
    {
        match peer_message {
            Some((dst, data)) => {
                if self.has_session() && self.granted_peers.contains(dst) {
                    Step::one(
                        RelayAction::Turn(TurnRequest::SendTo(dst, data)),
                        Severity::Recoverable,
                        WorkerResult::continued(),
                    )
                } else {
                    Step::just(WorkerResult::continued())
                }
            },
            None => Step::just(
                Err(WorkerErr::UnrecoverableError(String::from_str("the upstream channel is closed"))),
            ),
        }
    }

    /// What `handle_command_message` does: `next` and `step` follow `self`
    /// on `command_message`.
    pub open spec fn command_post(
        self,
        command_message: Result<CommandMessage, String>,
        next: RelayWorker,
        step: Step<RelayAction>,
    ) -> bool {
        let continued = Ok::<WorkerOk, WorkerErr>(WorkerOk::Continue);
        let none = Seq::<Effect<RelayAction>>::empty();
        &&& next.granted_peers@ == self.granted_peers@
        &&& next.will_terminate == (self.will_terminate || command_message == Ok::<
            CommandMessage,
            String,
        >(CommandMessage::TerminateAll))
        &&& match command_message {
            Err(e) => {
                &&& next.session == self.session
                &&& step.effects@ == none
                &&& step.outcome == Err::<WorkerOk, WorkerErr>(WorkerErr::RecoverableError(e))
            },
            Ok(CommandMessage::ConnectRelay { server, username, password }) => if self.accepts_connect() {
                &&& next.session is Opening
                &&& step.effects@ == seq![
                    effect(
                        RelayAction::Connect { server: lookup_of(server), username, password },
                        Severity::Recoverable,
                    ),
                ]
                &&& step.outcome == continued
            } else {
                &&& next.session == self.session
                &&& step.effects@ == none
                &&& step.outcome is Err
                &&& step.outcome->Err_0 is UnrecoverableError
            },
            Ok(CommandMessage::ConnectPeer { peer_addr, .. }) => {
                &&& next.session == self.session
                &&& step.effects@ == if !self.session.is_open() {
                    seq![relay_report(ServiceMessage::RelayDisconnected, Severity::Recoverable)]
                } else if self.granted_peers@.contains(peer_addr) {
                    seq![relay_report(ServiceMessage::RelayPeerGranted(peer_addr), Severity::Recoverable)]
                } else {
                    seq![
                        effect(
                            RelayAction::Turn(TurnRequest::AddPermission(peer_addr)),
                            Severity::Recoverable,
                        ),
                    ]
                }
                &&& step.outcome == continued
            },
            Ok(CommandMessage::DisconnectAll) => {
                &&& next.session == self.session
                &&& step.effects@ == if self.session.is_open() {
                    seq![effect(RelayAction::Turn(TurnRequest::Disconnect), Severity::Recoverable)]
                } else {
                    none
                }
                &&& step.outcome == continued
            },
            Ok(CommandMessage::TerminateAll) => {
                &&& next.session == self.session
                &&& if self.session.is_open() {
                    &&& step.effects@ == seq![
                        effect(RelayAction::Turn(TurnRequest::Disconnect), Severity::Unrecoverable),
                    ]
                    &&& step.outcome == continued
                } else {
                    &&& step.effects@ == none
                    &&& step.outcome == Ok::<WorkerOk, WorkerErr>(WorkerOk::Terminate)
                }
            },
            Ok(_) => {
                &&& next.session == self.session
                &&& step.effects@ == none
                &&& step.outcome == continued
            },
        }
    }

    /// Acts on a broadcast command, or on a failure to receive one.
    ///
    /// `ConnectRelay` while a session exists or is being opened is refused
    /// as unrecoverable. `ConnectPeer` asks the session for a permission,
    /// unless the peer is granted already, when the grant is reported again,
    /// or no session is open, when `RelayDisconnected` is reported.
    /// `TerminateAll` asks the session to disconnect and ends the worker once
    /// it is lost; with no session open it ends the worker at once.
    pub fn handle_command_message(&mut self, command_message: Result<CommandMessage, String>) -> (r:
        Step<RelayAction>)
        requires
            old(self).wf(),
        ensures
            final(self).wf(),
            old(self).command_post(command_message, *final(self), r),
            sends_only_to_granted(old(self).granted_peers@, r.effects@),
    {
        match command_message {
            Err(e) => Step::just(Err(WorkerErr::RecoverableError(e))),
            Ok(CommandMessage::ConnectRelay { server, username, password }) => {
                if self.session == SessionState::Disconnected {
                    self.session = SessionState::Opening;
                    Step::one(
                        RelayAction::Connect { server: lookup(server), username, password },
                        Severity::Recoverable,
                        WorkerResult::continued(),
                    )
                } else {
                    Step::just(
                        Err(
                            WorkerErr::UnrecoverableError(
                                String::from_str("a relay session exists already"),
                            ),
                        ),
                    )
                }
            },
            Ok(CommandMessage::ConnectPeer { peer_addr, .. }) => {
                if !self.has_session() {
                    Step::one(
                        RelayAction::Report(ServiceMessage::RelayDisconnected),
                        Severity::Recoverable,
                        WorkerResult::continued(),
                    )
                } else if self.granted_peers.contains(peer_addr) {
                    Step::one(
                        RelayAction::Report(ServiceMessage::RelayPeerGranted(peer_addr)),
                        Severity::Recoverable,
                        WorkerResult::continued(),
                    )
                } else {
                    Step::one(
                        RelayAction::Turn(TurnRequest::AddPermission(peer_addr)),
                        Severity::Recoverable,
                        WorkerResult::continued(),
                    )
                }
            },
            Ok(CommandMessage::DisconnectAll) => {
                if self.has_session() {
                    Step::one(
                        RelayAction::Turn(TurnRequest::Disconnect),
                        Severity::Recoverable,
                        WorkerResult::continued(),
                    )
                } else {
                    Step::just(WorkerResult::continued())
                }
            },
            Ok(CommandMessage::TerminateAll) => {
                self.will_terminate = true;
                if self.has_session() {
                    Step::one(
                        RelayAction::Turn(TurnRequest::Disconnect),
                        Severity::Unrecoverable,
                        WorkerResult::continued(),
                    )
                } else {
                    Step::just(WorkerResult::terminate())
                }
            },
            Ok(_) => Step::just(WorkerResult::continued()),
        }
    }

    /// The outcome of a `Connect` action: the session is open, or why
    /// resolving the server or binding the socket failed, which is reported
    /// as `RelayConnectionFailed` and ends the step with a recoverable error. An outcome with no connection pending is
    /// refused as unrecoverable.
    pub fn handle_connect_result(&mut self, connected: Result<(), String>) -> (r: Step<RelayAction>)
        requires
            old(self).wf(),
        ensures
            final(self).wf(),
            final(self).granted_peers@ == old(self).granted_peers@,
            final(self).will_terminate == old(self).will_terminate,
            old(self).session is Opening ==> match connected {
                Ok(_) => {
                    &&& final(self).session is Connected
                    &&& r.effects@ == Seq::<Effect<RelayAction>>::empty()
                    &&& r.outcome == Ok::<WorkerOk, WorkerErr>(WorkerOk::Continue)
                },
                Err(e) => {
                    &&& final(self).session is Disconnected
                    &&& r.effects@ == seq![
                        relay_report(ServiceMessage::RelayConnectionFailed(e), Severity::Unrecoverable),
                    ]
                    &&& r.outcome matches Err(WorkerErr::RecoverableError(m)) && m@ == e@
                },
            },
            !(old(self).session is Opening) ==> {
                &&& final(self).session == old(self).session
                &&& r.effects@ == Seq::<Effect<RelayAction>>::empty()
                &&& r.outcome is Err
                &&& r.outcome->Err_0 is UnrecoverableError
            },
            sends_only_to_granted(old(self).granted_peers@, r.effects@),
    {
        if self.session != SessionState::Opening {
            return Step::just(
                Err(WorkerErr::UnrecoverableError(String::from_str("no relay connection is pending"))),
            );
        }
        match connected {
            Ok(()) => {
                self.session = SessionState::Connected;
                Step::just(WorkerResult::continued())
            },
            Err(e) => {
                self.session = SessionState::Disconnected;
                let message = e.clone();
                Step::one(
                    RelayAction::Report(ServiceMessage::RelayConnectionFailed(e)),
                    Severity::Unrecoverable,
                    Err(WorkerErr::RecoverableError(message)),
                )
            },
        }
    }
}

/// Once the relay worker loses its session while no shutdown is pending, it
/// goes on, and it takes up the next `ConnectRelay`: no session is left
/// behind to refuse it.
pub proof fn lemma_reconnect_after_session_loss(
    before: RelayWorker,
    event: Option<Result<TurnEvent, String>>,
    lost: RelayWorker,
    step: Step<RelayAction>,
    server: String,
    username: String,
    password: String,
    after: RelayWorker,
    connect: Step<RelayAction>,
)
    requires
        before.turn_post(event, lost, step),
        step.effects@.contains(
            relay_report(ServiceMessage::RelayDisconnected, Severity::Unrecoverable),
        ),
        !before.will_terminate,
        lost.command_post(
            Ok(CommandMessage::ConnectRelay { server, username, password }),
            after,
            connect,
        ),
    ensures
        step.outcome == Ok::<WorkerOk, WorkerErr>(WorkerOk::Continue),
        lost.session is Disconnected,
        after.session is Opening,
        connect.effects@ == seq![
            effect(
                RelayAction::Connect { server: lookup_of(server), username, password },
                Severity::Recoverable,
            ),
        ],
        connect.outcome == Ok::<WorkerOk, WorkerErr>(WorkerOk::Continue),
{
    let lost_report = relay_report(ServiceMessage::RelayDisconnected, Severity::Unrecoverable);
    let k = choose|k: int| 0 <= k < step.effects@.len() && step.effects@[k] == lost_report;
    assert(step.effects@[k] == lost_report);
}

/// A `ConnectPeer` for a peer that is granted already, while a session is
/// open, reports the grant again and asks the session for nothing.
pub proof fn lemma_granted_peer_is_not_asked_again(
    before: RelayWorker,
    peer_addr: SockAddr,
    local_addr: Option<SockAddr>,
    after: RelayWorker,
    step: Step<RelayAction>,
)
    requires
        before.command_post(
            Ok(CommandMessage::ConnectPeer { peer_addr, local_addr }),
            after,
            step,
        ),
        before.session.is_open(),
        before.granted_peers@.contains(peer_addr),
    ensures
        step.effects@ == seq![
            relay_report(ServiceMessage::RelayPeerGranted(peer_addr), Severity::Recoverable),
        ],
        forall|i: int| 0 <= i < step.effects@.len() ==> !(#[trigger] step.effects@[i].action is Turn),
        after.granted_peers@ == before.granted_peers@,
        after.session == before.session,
{
}

} // verus!
