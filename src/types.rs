use vstd::prelude::*;

use crate::addr::SockAddr;

verus! {

/// Status reported to the consumer of the service channel.
#[derive(Clone, Debug, PartialEq, Eq)]
pub enum ServiceMessage {
    RelayAllocated(SockAddr),
    RelayDisconnected,
    RelayConnectionFailed(String),
    RelayRedirected(SockAddr),
    RelayPeerGranted(SockAddr),
    RelayPeerDenied(SockAddr),
    PeerBound { peer_addr: SockAddr, local_addr: SockAddr },
    PeerBindFailed(SockAddr),
    PeerUnbound(SockAddr),
}

/// A directive broadcast to the coordinator and to every worker.
#[derive(Clone, Debug, PartialEq, Eq)]
pub enum CommandMessage {
    ConnectRelay { server: String, username: String, password: String },
    ConnectPeer { peer_addr: SockAddr, local_addr: Option<SockAddr> },
    ChangeFwdAddr(SockAddr),
    DisconnectAll,
    DisconnectPeer(SockAddr),
    TerminateAll,
}

/// A payload tagged with the remote peer it comes from or goes to.
pub type DataMessage = (SockAddr, Vec<u8>);

/// Successful outcome of one loop iteration.
#[derive(Clone, Copy, Debug, PartialEq, Eq, Structural)]
pub enum WorkerOk {
    Continue,
    Terminate,
}

/// Failed outcome of one loop iteration: a recoverable error is logged and
/// the loop goes on, an unrecoverable one ends the loop.
#[derive(Clone, Debug, PartialEq, Eq)]
pub enum WorkerErr {
    RecoverableError(String),
    UnrecoverableError(String),
}

pub type WorkerResult = Result<WorkerOk, WorkerErr>;

/// What a failure of an effect makes of the loop iteration that asked for it.
#[derive(Clone, Copy, Debug, PartialEq, Eq, Structural)]
pub enum Severity {
    Recoverable,
    Unrecoverable,
}

/// One thing for the runtime to do, with the weight of its failure.
#[derive(Clone, Debug, PartialEq, Eq)]
pub struct Effect<A> {
    pub action: A,
    pub on_failure: Severity,
}

/// The decision of a worker on one event. The runtime performs `effects` in
/// order; the first that fails ends the iteration with an error of its
/// severity, and when none fails the iteration ends with `outcome`.
#[derive(Debug, PartialEq, Eq)]
pub struct Step<A> {
    pub effects: Vec<Effect<A>>,
    pub outcome: WorkerResult,
}

pub open spec fn effect<A>(action: A, on_failure: Severity) -> Effect<A> {
    Effect { action, on_failure }
}

impl<A> Effect<A> {
    pub fn new(action: A, on_failure: Severity) -> (r: Effect<A>)
        ensures
            r == effect(action, on_failure),
    {
        Effect { action, on_failure }
    }
}

impl<A> Step<A> {
    /// A step that performs nothing and ends with `outcome`.
    pub fn just(outcome: WorkerResult) -> (r: Step<A>)
        ensures
            r.effects@ == Seq::<Effect<A>>::empty(),
            r.outcome == outcome,
    {
        Step { effects: Vec::new(), outcome }
    }

    /// A step that performs one effect and then ends with `outcome`.
    pub fn one(action: A, on_failure: Severity, outcome: WorkerResult) -> (r: Step<A>)
        ensures
            r.effects@ == seq![effect(action, on_failure)],
            r.outcome == outcome,
    {
        let mut effects: Vec<Effect<A>> = Vec::new();
        effects.push(Effect::new(action, on_failure));
        proof {
            assert(effects@ =~= seq![effect(action, on_failure)]);
        }
        Step { effects, outcome }
    }
}

/// The error that a failure of the given severity turns into.
pub open spec fn worker_err(severity: Severity, message: String) -> WorkerErr {
    match severity {
        Severity::Recoverable => WorkerErr::RecoverableError(message),
        Severity::Unrecoverable => WorkerErr::UnrecoverableError(message),
    }
}

/// Turns the failure of a plain result into a worker error.
pub trait ToWorkerErr: Sized {
    type Item;

    fn into_recoverable(self) -> Result<Self::Item, WorkerErr>;

    fn into_unrecoverable(self) -> Result<Self::Item, WorkerErr>;

    /// The error of the given severity.
    fn into_worker_err(self, severity: Severity) -> Result<Self::Item, WorkerErr>;
}

impl<T> ToWorkerErr for Result<T, String> {
    type Item = T;

    fn into_recoverable(self) -> (r: Result<T, WorkerErr>)
        ensures
            self matches Ok(v) ==> r == Ok::<T, WorkerErr>(v),
            self matches Err(e) ==> r == Err::<T, WorkerErr>(WorkerErr::RecoverableError(e)),
    {
        match self {
            Ok(v) => Ok(v),
            Err(e) => Err(WorkerErr::RecoverableError(e)),
        }
    }

    fn into_unrecoverable(self) -> (r: Result<T, WorkerErr>)
        ensures
            self matches Ok(v) ==> r == Ok::<T, WorkerErr>(v),
            self matches Err(e) ==> r == Err::<T, WorkerErr>(WorkerErr::UnrecoverableError(e)),
    {
        match self {
            Ok(v) => Ok(v),
            Err(e) => Err(WorkerErr::UnrecoverableError(e)),
        }
    }

    fn into_worker_err(self, severity: Severity) -> (r: Result<T, WorkerErr>)
        ensures
            self matches Ok(v) ==> r == Ok::<T, WorkerErr>(v),
            self matches Err(e) ==> r == Err::<T, WorkerErr>(worker_err(severity, e)),
    {
        match severity {
            Severity::Recoverable => self.into_recoverable(),
            Severity::Unrecoverable => self.into_unrecoverable(),
        }
    }
}

/// Constructors of loop outcomes.
pub trait WorkerResultHelper: Sized {
    fn continued() -> Self;

    fn terminate() -> Self;

    fn terminate_if(cond: bool) -> Self;
}

pub open spec fn terminate_if_spec(cond: bool) -> WorkerResult {
    if cond {
        Ok(WorkerOk::Terminate)
    } else {
        Ok(WorkerOk::Continue)
    }
}

impl WorkerResultHelper for WorkerResult {
    fn continued() -> (r: WorkerResult)
        ensures
            r == Ok::<WorkerOk, WorkerErr>(WorkerOk::Continue),
    {
        Ok(WorkerOk::Continue)
    }

    fn terminate() -> (r: WorkerResult)
        ensures
            r == Ok::<WorkerOk, WorkerErr>(WorkerOk::Terminate),
    {
        Ok(WorkerOk::Terminate)
    }

    fn terminate_if(cond: bool) -> (r: WorkerResult)
        ensures
            r == terminate_if_spec(cond),
    {
        if cond {
            Self::terminate()
        } else {
            Self::continued()
        }
    }
}

} // verus!
