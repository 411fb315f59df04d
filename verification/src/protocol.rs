//! Values exchanged between the dispatcher, the transport worker and the
//! connection manager.

use vstd::prelude::*;

verus! {

/// Vendor and product numbers by which a peripheral is known.
#[derive(Clone, Copy, Debug, PartialEq, Eq, Structural)]
pub struct DeviceIdentity {
    pub vid: u16,
    pub pid: u16,
}

/// Selects which peripheral a discovery may open. The core hands it on
/// unread.
#[derive(Clone, Copy, Debug, PartialEq, Eq, Structural)]
pub enum DeviceFilter {
    AnyVhrdTechIo,
    AnyVhrdTechCanBus,
    UsbVidPid { vid: u16, pid: u16 },
}

/// What the transport does when opening fails. The core hands it on unread.
#[derive(Clone, Copy, Debug, PartialEq, Eq, Structural)]
pub enum OnError {
    ExitImmediately,
    RetryFor { timeout_ms: u64 },
    KeepRetrying,
}

impl OnError {
    /// Whether a search that has found no peripheral after `elapsed_ms`
    /// milliseconds is over: at once under `ExitImmediately`, when the bound
    /// has passed under `RetryFor`, never under `KeepRetrying`.
    pub open spec fn spec_gives_up(self, elapsed_ms: u64) -> bool {
        match self {
            OnError::ExitImmediately => true,
            OnError::RetryFor { timeout_ms } => elapsed_ms >= timeout_ms,
            OnError::KeepRetrying => false,
        }
    }

    pub fn gives_up(&self, elapsed_ms: u64) -> (r: bool)
        ensures
            r == self.spec_gives_up(elapsed_ms),
    {
        match self {
            OnError::ExitImmediately => true,
            OnError::RetryFor { timeout_ms } => elapsed_ms >= *timeout_ms,
            OnError::KeepRetrying => false,
        }
    }
}

/// A search with a bound ends when the bound has passed and not before, and
/// once it is over it stays over.
pub proof fn lemma_bounded_search_ends(timeout_ms: u64, elapsed_ms: u64, later_ms: u64)
    requires
        elapsed_ms <= later_ms,
    ensures
        (OnError::RetryFor { timeout_ms }).spec_gives_up(elapsed_ms) == (elapsed_ms
            >= timeout_ms),
        (OnError::RetryFor { timeout_ms }).spec_gives_up(timeout_ms),
        (OnError::RetryFor { timeout_ms }).spec_gives_up(elapsed_ms) ==> (OnError::RetryFor {
            timeout_ms,
        }).spec_gives_up(later_ms),
{
}

/// Identifier and version of the protocol that the caller speaks.
#[derive(Clone, Copy, Debug, PartialEq, Eq, Structural)]
pub struct ProtocolInfo {
    pub protocol_id: u32,
    pub major_version: u8,
    pub minor_version: u8,
}

/// Why the transport could not open a peripheral that it had found.
#[derive(Clone, Copy, Debug, PartialEq, Eq, Structural)]
pub enum ConnectCause {
    PermissionDenied,
    Busy,
    ProtocolMismatch,
    /// The transport failed and did not say which of the others it was.
    Transport,
    /// The peer answered the opening with a failure of its own.
    Peer,
}

/// Failures that a caller of the driver can see.
#[derive(Clone, Debug, PartialEq, Eq)]
pub enum DriverError {
    /// No peripheral matched.
    NoDeviceAvailable,
    /// The transport found a peripheral and could not open it.
    ConnectionFailed(ConnectCause),
    /// The worker ended before it answered.
    EventLoopNotRunning,
    /// The request does not fit the negotiated packet size.
    EncodingOverflow,
    /// The peer answered with a failure of its own, handed on untouched.
    RemoteError(Vec<u8>),
}

/// Where a link stands.
#[derive(Clone, Copy, Debug, PartialEq, Eq, Structural)]
pub enum LinkStatus {
    Idle,
    Connected,
    Disconnected,
}

/// The record that readers of the connection state see. It is replaced as a
/// whole, never changed field by field.
#[derive(Clone, Copy, Debug, PartialEq, Eq, Structural)]
pub struct ConnectionInfo {
    pub identity: Option<DeviceIdentity>,
    pub max_packet_size: usize,
    pub status: LinkStatus,
}

impl ConnectionInfo {
    /// The record of a link that was never opened.
    pub open spec fn spec_idle(max_packet_size: usize) -> ConnectionInfo {
        ConnectionInfo { identity: None, max_packet_size, status: LinkStatus::Idle }
    }

    /// The record of a link that is open to `identity`.
    pub open spec fn spec_connected(identity: DeviceIdentity, max_packet_size: usize) -> ConnectionInfo {
        ConnectionInfo { identity: Some(identity), max_packet_size, status: LinkStatus::Connected }
    }

    /// This record with the link marked as gone; the identity last known stays.
    pub open spec fn spec_lost(self) -> ConnectionInfo {
        ConnectionInfo {
            identity: self.identity,
            max_packet_size: self.max_packet_size,
            status: LinkStatus::Disconnected,
        }
    }

    pub fn idle(max_packet_size: usize) -> (r: ConnectionInfo)
        ensures
            r == Self::spec_idle(max_packet_size),
    {
        ConnectionInfo { identity: None, max_packet_size, status: LinkStatus::Idle }
    }

    pub fn connected(identity: DeviceIdentity, max_packet_size: usize) -> (r: ConnectionInfo)
        ensures
            r == Self::spec_connected(identity, max_packet_size),
    {
        ConnectionInfo { identity: Some(identity), max_packet_size, status: LinkStatus::Connected }
    }

    pub fn lost(&self) -> (r: ConnectionInfo)
        ensures
            r == self.spec_lost(),
    {
        ConnectionInfo {
            identity: self.identity,
            max_packet_size: self.max_packet_size,
            status: LinkStatus::Disconnected,
        }
    }

    /// Whether the record shows an open link.
    pub fn is_connected(&self) -> (r: bool)
        ensures
            r == (self.status == LinkStatus::Connected),
    {
        match self.status {
            LinkStatus::Connected => true,
            _ => false,
        }
    }
}

/// A request from the dispatcher to the worker.
#[derive(Clone, Debug, PartialEq, Eq)]
pub enum Command {
    /// Open a peripheral. The completion signal travels beside the command.
    Connect { filter: DeviceFilter, on_error: OnError },
    /// Write these bytes to the link.
    Send(Vec<u8>),
    /// Shut the link down and end the worker.
    Close,
}

/// A notification from the worker.
#[derive(Clone, Debug, PartialEq, Eq)]
pub enum Event {
    Received(Vec<u8>),
    RecycleBuffer(Vec<u8>),
    /// The link is gone. Nothing follows it.
    Disconnected,
}

} // verus!
