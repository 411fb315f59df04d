//! The handle that a caller gets when it claims a connection.

use vstd::prelude::*;
use crate::device_manager::Connection;
use crate::protocol::{Command, DriverError, Event};

verus! {

pub struct UsbIO {
    connection: Connection,
    max_packet_size: usize,
}

impl UsbIO {
    /// The connection that this handle owns.
    pub closed spec fn view(&self) -> Connection {
        self.connection
    }

    /// The packet size that was negotiated for the link.
    pub closed spec fn limit(&self) -> usize {
        self.max_packet_size
    }

    /// What becomes of an encoded request: on a link that is gone it fails
    /// with `EventLoopNotRunning`; one that is longer than the negotiated
    /// packet size fails with `EncodingOverflow`; any other is to be
    /// queued as `Send` for the worker of the link.
    pub open spec fn request(c: Connection, limit: usize, bytes: Vec<u8>) -> Result<
        (u64, Command),
        DriverError,
    > {
        match c {
            Connection::UsbDisconnected { .. } => Err(DriverError::EventLoopNotRunning),
            Connection::Usb { handle } => if bytes@.len() > limit {
                Err(DriverError::EncodingOverflow)
            } else {
                Ok((handle.id, Command::Send(bytes)))
            },
        }
    }

    /// The connection after an event of its worker: `Disconnected` ends a
    /// live link, which keeps the peer it had; nothing else changes it.
    pub open spec fn observed(c: Connection, event: Event) -> Connection {
        match c {
            Connection::Usb { handle } => if event is Disconnected {
                Connection::UsbDisconnected { identity: handle.identity }
            } else {
                c
            },
            Connection::UsbDisconnected { .. } => c,
        }
    }

    pub fn new(connection: Connection, max_packet_size: usize) -> (io: UsbIO)
        ensures
            io@ == connection,
            io.limit() == max_packet_size,
    {
        UsbIO { connection, max_packet_size }
    }

    /// The connection that this handle owns.
    pub fn connection(&self) -> (c: Connection)
        ensures
            c == self@,
    {
        self.connection
    }

    /// The packet size that was negotiated for the link.
    pub fn max_packet_size(&self) -> (n: usize)
        ensures
            n == self.limit(),
    {
        self.max_packet_size
    }

    /// Takes note of an event of the worker of the link.
    pub fn observe(&mut self, event: &Event)
        ensures
            final(self)@ == Self::observed(old(self)@, *event),
            final(self).limit() == old(self).limit(),
    {
        match self.connection {
            Connection::Usb { handle } => match event {
                Event::Disconnected => {
                    self.connection = Connection::UsbDisconnected { identity: handle.identity };
                },
                _ => {},
            },
            Connection::UsbDisconnected { .. } => {},
        }
    }

    fn send(&self, request_bytes: Vec<u8>) -> (r: Result<(u64, Command), DriverError>)
        ensures
            r == Self::request(self@, self.limit(), request_bytes),
    {
        match self.connection {
            Connection::UsbDisconnected { .. } => Err(DriverError::EventLoopNotRunning),
            Connection::Usb { handle } => {
                if request_bytes.len() > self.max_packet_size {
                    Err(DriverError::EncodingOverflow)
                } else {
                    Ok((handle.id, Command::Send(request_bytes)))
                }
            },
        }
    }

    /// Hands out the encoded request that switches the light on, to be
    /// queued for the worker of the link.
    pub fn led_on(&mut self, request_bytes: Vec<u8>) -> (r: Result<(u64, Command), DriverError>)
        ensures
            r == Self::request(old(self)@, old(self).limit(), request_bytes),
            final(self)@ == old(self)@,
            final(self).limit() == old(self).limit(),
    {
        self.send(request_bytes)
    }

    /// Hands out the encoded request that switches the light off, to be
    /// queued for the worker of the link.
    pub fn led_off(&mut self, request_bytes: Vec<u8>) -> (r: Result<(u64, Command), DriverError>)
        ensures
            r == Self::request(old(self)@, old(self).limit(), request_bytes),
            final(self)@ == old(self)@,
            final(self).limit() == old(self).limit(),
    {
        self.send(request_bytes)
    }
}

} // verus!
