use relay_tunnel::addr::{IpAddress, SockAddr};
use relay_tunnel::types::{Severity, ToWorkerErr, WorkerErr, WorkerOk, WorkerResult, WorkerResultHelper};

#[test]
fn addresses_of_note() {
    assert_eq!(SockAddr::local_dyn(), SockAddr { ip: IpAddress::V4(127, 0, 0, 1), port: 0 });
    assert_eq!(SockAddr::all_dyn(), SockAddr { ip: IpAddress::V4(0, 0, 0, 0), port: 0 });
    assert_eq!(SockAddr::default_fwd(), SockAddr { ip: IpAddress::V4(127, 0, 0, 1), port: 34197 });
    assert_eq!(SockAddr::loopback(9), SockAddr { ip: IpAddress::V4(127, 0, 0, 1), port: 9 });
}

#[test]
fn failures_become_worker_errors() {
    let failed: Result<u8, String> = Err("boom".to_string());
    assert_eq!(failed.clone().into_recoverable(), Err(WorkerErr::RecoverableError("boom".to_string())));
    assert_eq!(failed.clone().into_unrecoverable(), Err(WorkerErr::UnrecoverableError("boom".to_string())));
    assert_eq!(
        failed.into_worker_err(Severity::Unrecoverable),
        Err(WorkerErr::UnrecoverableError("boom".to_string()))
    );
    let fine: Result<u8, String> = Ok(3);
    assert_eq!(fine.clone().into_recoverable(), Ok(3));
    assert_eq!(fine.into_worker_err(Severity::Recoverable), Ok(3));
}

#[test]
fn loop_outcomes() {
    assert_eq!(WorkerResult::continued(), Ok(WorkerOk::Continue));
    assert_eq!(WorkerResult::terminate(), Ok(WorkerOk::Terminate));
    assert_eq!(WorkerResult::terminate_if(true), Ok(WorkerOk::Terminate));
    assert_eq!(WorkerResult::terminate_if(false), Ok(WorkerOk::Continue));
}
