//! The host library's errors, folded into the driver's own.
//!
//! The worker of the USB host resolves the completion signal of `Connect`
//! with an error type of its own. What the caller of the driver sees for
//! each of its variants is decided here.

use vstd::prelude::*;
use crate::protocol::{ConnectCause, DriverError};
use crate::worker::{Action, OpenResult, Phase, Worker, WorkerInput};
use crate::ww::{connect_error, ConnectOutcome};
use wire_weaver_client_common::Error as HostError;

verus! {

/// Makes `wire_weaver_client_common::Error` known as a type whose inside is
/// not looked at.
#[verifier::external_type_specification]
#[verifier::external_body]
pub struct ExHostError(wire_weaver_client_common::Error);

/// Which of its variants an error of the host library is, one for each of
/// its own. What an error carries stays in the error.
#[derive(Clone, Copy, Debug, PartialEq, Eq, Structural)]
pub enum HostFailure {
    EventLoopNotRunning,
    RxDispatcherNotRunning,
    DeviceNotFound,
    Timeout,
    LinkSetupTimeout,
    ShrinkWrap,
    IncompatibleDeviceProtocol,
    Disconnected,
    RemoteError,
    CmdTxDropped,
    ExitRequested,
    Transport,
    User,
    Other,
}

/// The variant of an error of the host library.
pub uninterp spec fn host_failure_of(error: wire_weaver_client_common::Error) -> HostFailure;

/// Tells the variants of `wire_weaver_client_common::Error` apart, one arm
/// for each. The contract claims only that the answer depends on the error
/// alone; which variant gives which answer is not claimed.
#[verifier::external_body]
fn failure_of(error: &wire_weaver_client_common::Error) -> (f: HostFailure)
    ensures
        f == host_failure_of(*error),
{
    match error {
        HostError::EventLoopNotRunning => HostFailure::EventLoopNotRunning,
        HostError::RxDispatcherNotRunning => HostFailure::RxDispatcherNotRunning,
        HostError::DeviceNotFound => HostFailure::DeviceNotFound,
        HostError::Timeout => HostFailure::Timeout,
        HostError::LinkSetupTimeout => HostFailure::LinkSetupTimeout,
        HostError::ShrinkWrap(_) => HostFailure::ShrinkWrap,
        HostError::IncompatibleDeviceProtocol => HostFailure::IncompatibleDeviceProtocol,
        HostError::Disconnected => HostFailure::Disconnected,
        HostError::RemoteError(_) => HostFailure::RemoteError,
        HostError::CmdTxDropped => HostFailure::CmdTxDropped,
        HostError::ExitRequested => HostFailure::ExitRequested,
        HostError::Transport(_) => HostFailure::Transport,
        HostError::User(_) => HostFailure::User, HostError::Other(_) => HostFailure::Other,
    }
}

/// The error with which `connect` fails for a failure of the host.
/// A search that found nothing, at once or when its bound had passed, is
/// `NoDeviceAvailable`. Where the worker ended without opening, it is
/// `EventLoopNotRunning`. Every other failure was the answer of a worker
/// that tried to open, and is `ConnectionFailed` with its cause; a request
/// that did not fit is `EncodingOverflow`.
pub open spec fn spec_connect_failure(f: HostFailure) -> DriverError {
    match f {
        HostFailure::DeviceNotFound => DriverError::NoDeviceAvailable,
        HostFailure::Timeout => DriverError::NoDeviceAvailable,
        HostFailure::LinkSetupTimeout => DriverError::ConnectionFailed(
            ConnectCause::ProtocolMismatch,
        ),
        HostFailure::IncompatibleDeviceProtocol => DriverError::ConnectionFailed(
            ConnectCause::ProtocolMismatch,
        ),
        HostFailure::Transport => DriverError::ConnectionFailed(ConnectCause::Transport),
        HostFailure::User => DriverError::ConnectionFailed(ConnectCause::Transport),
        HostFailure::Other => DriverError::ConnectionFailed(ConnectCause::Transport),
        HostFailure::Disconnected => DriverError::ConnectionFailed(ConnectCause::Transport),
        HostFailure::RemoteError => DriverError::ConnectionFailed(ConnectCause::Peer),
        HostFailure::ShrinkWrap => DriverError::EncodingOverflow,
        HostFailure::EventLoopNotRunning => DriverError::EventLoopNotRunning,
        HostFailure::RxDispatcherNotRunning => DriverError::EventLoopNotRunning,
        HostFailure::CmdTxDropped => DriverError::EventLoopNotRunning,
        HostFailure::ExitRequested => DriverError::EventLoopNotRunning,
    }
}

pub fn connect_failure(f: HostFailure) -> (e: DriverError)
    ensures
        e == spec_connect_failure(f),
{
    match f {
        HostFailure::DeviceNotFound => DriverError::NoDeviceAvailable,
        HostFailure::Timeout => DriverError::NoDeviceAvailable,
        HostFailure::LinkSetupTimeout => DriverError::ConnectionFailed(
            ConnectCause::ProtocolMismatch,
        ),
        HostFailure::IncompatibleDeviceProtocol => DriverError::ConnectionFailed(
            ConnectCause::ProtocolMismatch,
        ),
        HostFailure::Transport => DriverError::ConnectionFailed(ConnectCause::Transport),
        HostFailure::User => DriverError::ConnectionFailed(ConnectCause::Transport),
        HostFailure::Other => DriverError::ConnectionFailed(ConnectCause::Transport),
        HostFailure::Disconnected => DriverError::ConnectionFailed(ConnectCause::Transport),
        HostFailure::RemoteError => DriverError::ConnectionFailed(ConnectCause::Peer),
        HostFailure::ShrinkWrap => DriverError::EncodingOverflow,
        HostFailure::EventLoopNotRunning => DriverError::EventLoopNotRunning,
        HostFailure::RxDispatcherNotRunning => DriverError::EventLoopNotRunning,
        HostFailure::CmdTxDropped => DriverError::EventLoopNotRunning,
        HostFailure::ExitRequested => DriverError::EventLoopNotRunning,
    }
}

/// What became of a `Connect` whose completion signal delivered `signal`;
/// `None` stands for a signal that was dropped unresolved. A failure of the
/// host comes out as the error that `spec_connect_failure` gives for its
/// variant. The error itself is left with the caller.
pub fn connect_outcome(signal: &Option<Result<(), wire_weaver_client_common::Error>>) -> (o:
    ConnectOutcome)
    ensures
        *signal is None ==> o == ConnectOutcome::SignalDropped,
        *signal matches Some(Ok(_)) ==> o == ConnectOutcome::Resolved(Ok(())),
        *signal matches Some(Err(e)) ==> o == ConnectOutcome::Resolved(
            Err(spec_connect_failure(host_failure_of(e))),
        ),
{
    match signal {
        None => ConnectOutcome::SignalDropped,
        Some(Ok(_)) => ConnectOutcome::Resolved(Ok(())),
        Some(Err(error)) => ConnectOutcome::Resolved(Err(connect_failure(failure_of(error)))),
    }
}

/// A search that found no peripheral fails the connect with
/// `NoDeviceAvailable`: the worker refuses with it in the step in which the
/// transport says so, the host's `DeviceNotFound` stands for it, and
/// `connect` hands it to the caller.
pub proof fn lemma_no_device_fails_connect(w: Worker)
    requires
        w.phase == Phase::Opening,
    ensures
        w.next(WorkerInput::OpenResult(OpenResult::NotFound)).1 == Action::Refuse(
            DriverError::NoDeviceAvailable,
        ),
        w.next(WorkerInput::OpenResult(OpenResult::NotFound)).0.phase == Phase::Terminated,
        spec_connect_failure(HostFailure::DeviceNotFound) == DriverError::NoDeviceAvailable,
        connect_error(ConnectOutcome::Resolved(Err(DriverError::NoDeviceAvailable))) == Some(
            DriverError::NoDeviceAvailable,
        ),
{
}

} // verus!
