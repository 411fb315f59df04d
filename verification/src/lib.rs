//! Connection and command-dispatch core of a host-side driver for a small
//! peripheral on a point-to-point link.
//!
//! The crate holds the decisions of the driver as verified state machines:
//! the set of connections that the manager keeps, the transport worker that
//! owns one link, and the dispatcher through which callers issue requests.
//! Moving bytes, waiting and spawning tasks are left to the caller, which
//! feeds each machine what happened and performs what it answers.

pub mod protocol;
pub mod worker;
pub mod device_manager;
pub mod client;
pub mod host;
pub mod ww;

pub use client::UsbIO;
pub use host::HostFailure;
pub use device_manager::{Connection, DeviceHandle, DeviceManager, DeviceManagerEvent};
pub use protocol::{
    Command, ConnectCause, ConnectionInfo, DeviceFilter, DeviceIdentity, DriverError, Event,
    LinkStatus, OnError, ProtocolInfo,
};
pub use worker::{Action, OpenResult, Phase, Worker, WorkerInput};
pub use ww::{B193Driver, CallOutcome, ConnectOutcome, USBIODriver};
