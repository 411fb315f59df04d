use usb_io::host::{connect_failure, connect_outcome};
use usb_io::{B193Driver, ConnectCause, ConnectOutcome, DriverError, HostFailure};
use wire_weaver_client_common::Error;

fn failed_with(e: Error) -> ConnectOutcome {
    connect_outcome(&Some(Err(e)))
}

#[test]
fn dropped_signal_is_reported_as_dropped() {
    assert_eq!(connect_outcome(&None), ConnectOutcome::SignalDropped);
}

#[test]
fn resolved_signal_is_success() {
    assert_eq!(connect_outcome(&Some(Ok(()))), ConnectOutcome::Resolved(Ok(())));
}

#[test]
fn device_not_found_is_no_device_available() {
    assert_eq!(
        failed_with(Error::DeviceNotFound),
        ConnectOutcome::Resolved(Err(DriverError::NoDeviceAvailable))
    );
    assert_eq!(
        failed_with(Error::Timeout),
        ConnectOutcome::Resolved(Err(DriverError::NoDeviceAvailable))
    );
    assert_eq!(
        B193Driver::connect(512, failed_with(Error::DeviceNotFound)).err(),
        Some(DriverError::NoDeviceAvailable)
    );
}

#[test]
fn open_failures_are_connection_failed() {
    for e in [
        Error::Transport("access denied".to_string()),
        Error::User("u".to_string()),
        Error::Other("rx dispatcher is not running".to_string()),
        Error::Disconnected,
    ] {
        assert_eq!(
            failed_with(e),
            ConnectOutcome::Resolved(Err(DriverError::ConnectionFailed(ConnectCause::Transport)))
        );
    }
    assert_eq!(
        failed_with(Error::IncompatibleDeviceProtocol),
        ConnectOutcome::Resolved(Err(DriverError::ConnectionFailed(ConnectCause::ProtocolMismatch)))
    );
    assert_eq!(
        failed_with(Error::LinkSetupTimeout),
        ConnectOutcome::Resolved(Err(DriverError::ConnectionFailed(ConnectCause::ProtocolMismatch)))
    );
}

#[test]
fn the_error_stays_with_the_caller() {
    let signal = Some(Err(Error::Transport("busy".to_string())));
    let outcome = connect_outcome(&signal);
    assert_eq!(
        outcome,
        ConnectOutcome::Resolved(Err(DriverError::ConnectionFailed(ConnectCause::Transport)))
    );
    assert!(matches!(signal, Some(Err(Error::Transport(ref s))) if s == "busy"));
}

#[test]
fn encoding_failure_is_encoding_overflow() {
    assert_eq!(
        failed_with(Error::ShrinkWrap(wire_weaver::shrink_wrap::Error::OutOfBoundsWriteU8)),
        ConnectOutcome::Resolved(Err(DriverError::EncodingOverflow))
    );
}

#[test]
fn a_worker_that_is_gone_is_event_loop_not_running() {
    for e in [
        Error::EventLoopNotRunning,
        Error::RxDispatcherNotRunning,
        Error::CmdTxDropped,
        Error::ExitRequested,
    ] {
        assert_eq!(
            failed_with(e),
            ConnectOutcome::Resolved(Err(DriverError::EventLoopNotRunning))
        );
    }
}

#[test]
fn connect_failure_of_each_variant() {
    let transport = DriverError::ConnectionFailed(ConnectCause::Transport);
    let mismatch = DriverError::ConnectionFailed(ConnectCause::ProtocolMismatch);
    assert_eq!(connect_failure(HostFailure::DeviceNotFound), DriverError::NoDeviceAvailable);
    assert_eq!(connect_failure(HostFailure::Timeout), DriverError::NoDeviceAvailable);
    assert_eq!(connect_failure(HostFailure::LinkSetupTimeout), mismatch);
    assert_eq!(connect_failure(HostFailure::IncompatibleDeviceProtocol), mismatch);
    assert_eq!(connect_failure(HostFailure::Transport), transport);
    assert_eq!(connect_failure(HostFailure::User), transport);
    assert_eq!(connect_failure(HostFailure::Other), transport);
    assert_eq!(connect_failure(HostFailure::Disconnected), transport);
    assert_eq!(
        connect_failure(HostFailure::RemoteError),
        DriverError::ConnectionFailed(ConnectCause::Peer)
    );
    assert_eq!(connect_failure(HostFailure::ShrinkWrap), DriverError::EncodingOverflow);
    assert_eq!(connect_failure(HostFailure::EventLoopNotRunning), DriverError::EventLoopNotRunning);
    assert_eq!(connect_failure(HostFailure::RxDispatcherNotRunning), DriverError::EventLoopNotRunning);
    assert_eq!(connect_failure(HostFailure::CmdTxDropped), DriverError::EventLoopNotRunning);
    assert_eq!(connect_failure(HostFailure::ExitRequested), DriverError::EventLoopNotRunning);
}
