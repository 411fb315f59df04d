//! The dispatcher: the object through which callers issue requests.
//!
//! A call has two halves. `begin_call` frames the request in the scratch
//! buffer and hands out the command to queue; `complete_call` takes what
//! became of the completion signal and says what the caller gets. The caller
//! queues, waits and decodes in between.

use vstd::prelude::*;
use crate::protocol::{
    Command, ConnectionInfo, DeviceFilter, DriverError, Event, OnError, ProtocolInfo,
};
use crate::worker::{Phase, Worker};

verus! {

/// What became of a `Connect` that was to be queued.
#[derive(Debug, PartialEq, Eq)]
pub enum ConnectOutcome {
    /// The command could not be queued: the worker's end of the queue is
    /// gone.
    QueueClosed,
    /// The worker ended without resolving the signal.
    SignalDropped,
    /// The worker resolved the signal.
    Resolved(Result<(), DriverError>),
}

/// What became of a request that was to be queued.
#[derive(Clone, Debug, PartialEq, Eq)]
pub enum CallOutcome {
    /// The command could not be queued: the worker's end of the queue is
    /// gone.
    QueueClosed,
    /// The worker ended without resolving the signal.
    SignalDropped,
    /// The peer answered with these bytes.
    Reply(Vec<u8>),
    /// The peer answered with a failure of its own.
    RemoteFailure(Vec<u8>),
}

/// What a dispatcher is, as plain values.
pub struct DriverView {
    /// The scratch buffer. Its length is the negotiated packet size.
    pub scratch: Seq<u8>,
    /// Whether the worker is taken to be running.
    pub running: bool,
    /// Whether a call waits for its reply.
    pub pending: bool,
}

impl DriverView {
    /// A dispatcher right after a successful connect: a zeroed buffer of the
    /// negotiated size, nothing pending.
    pub open spec fn fresh(max_packet_size: usize) -> DriverView {
        DriverView {
            scratch: Seq::new(max_packet_size as nat, |i: int| 0u8),
            running: true,
            pending: false,
        }
    }

    /// A dispatcher after it was torn down: the buffer zeroed, nothing
    /// pending, no worker.
    pub open spec fn torn_down(self) -> DriverView {
        DriverView {
            scratch: Seq::new(self.scratch.len(), |i: int| 0u8),
            running: false,
            pending: false,
        }
    }

    /// A dispatcher after it learned that its worker is gone.
    pub open spec fn stopped(self) -> DriverView {
        DriverView { scratch: self.scratch, running: false, pending: false }
    }

    /// A dispatcher after it saw an event of its worker: `Disconnected`
    /// stops it, the other events change nothing.
    pub open spec fn observed(self, event: Event) -> DriverView {
        if event is Disconnected {
            self.stopped()
        } else {
            self
        }
    }

    /// The error with which a request of `header` and `payload` is turned
    /// down, if it is.
    pub open spec fn call_error(self, header: Seq<u8>, payload: Seq<u8>) -> Option<DriverError> {
        if !self.running {
            Some(DriverError::EventLoopNotRunning)
        } else if header.len() + payload.len() > self.scratch.len() {
            Some(DriverError::EncodingOverflow)
        } else {
            None
        }
    }

    /// A dispatcher after a request of `header` and `payload` was begun: one
    /// that is turned down changes nothing; the frame of another lies at the
    /// start of the buffer.
    pub open spec fn called(self, header: Seq<u8>, payload: Seq<u8>, expects_reply: bool)
        -> DriverView {
        if self.call_error(header, payload) is Some {
            self
        } else {
            DriverView {
                scratch: (header + payload) + self.scratch.skip((header.len() + payload.len()) as int),
                running: true,
                pending: expects_reply,
            }
        }
    }

    /// A dispatcher after the outcome of a call: where the worker is found
    /// gone it is stopped, else only the pending call is cleared.
    pub open spec fn completed(self, outcome: CallOutcome) -> DriverView {
        match outcome {
            CallOutcome::QueueClosed | CallOutcome::SignalDropped => self.stopped(),
            _ => DriverView { scratch: self.scratch, running: self.running, pending: false },
        }
    }
}

/// What the caller of `connect` gets for an outcome, but for the driver
/// itself: the error, if any.
pub open spec fn connect_error(outcome: ConnectOutcome) -> Option<DriverError> {
    match outcome {
        ConnectOutcome::QueueClosed => Some(DriverError::EventLoopNotRunning),
        ConnectOutcome::SignalDropped => Some(DriverError::EventLoopNotRunning),
        ConnectOutcome::Resolved(Err(e)) => Some(e),
        ConnectOutcome::Resolved(Ok(_)) => None,
    }
}

/// What the caller of a request gets for an outcome.
pub open spec fn call_reply(outcome: CallOutcome) -> Result<Vec<u8>, DriverError> {
    match outcome {
        CallOutcome::QueueClosed => Err(DriverError::EventLoopNotRunning),
        CallOutcome::SignalDropped => Err(DriverError::EventLoopNotRunning),
        CallOutcome::Reply(bytes) => Ok(bytes),
        CallOutcome::RemoteFailure(payload) => Err(DriverError::RemoteError(payload)),
    }
}

pub struct B193Driver {
    args_scratch: Vec<u8>,
    running: bool,
    pending: bool,
}

pub type USBIODriver = B193Driver;

fn zeroed(n: usize) -> (v: Vec<u8>)
    ensures
        v@ == Seq::new(n as nat, |i: int| 0u8),
{
    let mut v: Vec<u8> = Vec::new();
    while v.len() < n
        invariant
            v@.len() <= n,
            forall|i: int| 0 <= i < v@.len() ==> v@[i] == 0u8,
        decreases n - v@.len(),
    {
        v.push(0u8);
    }
    assert(v@ =~= Seq::new(n as nat, |i: int| 0u8));
    v
}

impl B193Driver {
    pub closed spec fn view(&self) -> DriverView {
        DriverView { scratch: self.args_scratch@, running: self.running, pending: self.pending }
    }

    /// The command that asks the worker to open a peripheral.
    pub fn connect_command(filter: DeviceFilter, on_error: OnError) -> (c: Command)
        ensures
            c == (Command::Connect { filter, on_error }),
    {
        Command::Connect { filter, on_error }
    }

    /// Makes the dispatcher of a link from what became of its `Connect`.
    /// Only a signal that the worker resolved with success gives one, and it
    /// is then fresh; a worker that is gone gives `EventLoopNotRunning`; an
    /// error of the worker is handed on as it is.
    pub fn connect(max_packet_size: usize, outcome: ConnectOutcome) -> (r: Result<
        B193Driver,
        DriverError,
    >)
        ensures
            match r {
                Ok(driver) => connect_error(outcome) is None && driver@ == DriverView::fresh(
                    max_packet_size,
                ),
                Err(e) => connect_error(outcome) == Some(e),
            },
    {
        match outcome {
            ConnectOutcome::QueueClosed => Err(DriverError::EventLoopNotRunning),
            ConnectOutcome::SignalDropped => Err(DriverError::EventLoopNotRunning),
            ConnectOutcome::Resolved(Err(e)) => Err(e),
            ConnectOutcome::Resolved(Ok(_)) => Ok(
                B193Driver { args_scratch: zeroed(max_packet_size), running: true, pending: false },
            ),
        }
    }

    /// The negotiated packet size.
    pub fn max_packet_size(&self) -> (n: usize)
        ensures
            n == self@.scratch.len(),
    {
        self.args_scratch.len()
    }

    /// Whether the worker is taken to be running.
    pub fn is_running(&self) -> (r: bool)
        ensures
            r == self@.running,
    {
        self.running
    }

    /// Whether a call waits for its reply.
    pub fn has_pending_call(&self) -> (r: bool)
        ensures
            r == self@.pending,
    {
        self.pending
    }

    /// The scratch buffer as it stands.
    pub fn scratch(&self) -> (s: &Vec<u8>)
        ensures
            s@ == self@.scratch,
    {
        &self.args_scratch
    }

    /// Takes note of an event of the worker.
    pub fn observe(&mut self, event: &Event)
        ensures
            final(self)@ == old(self)@.observed(*event),
    {
        match event {
            Event::Disconnected => {
                self.running = false;
                self.pending = false;
            },
            _ => {},
        }
    }

    /// Frames a request in the scratch buffer and hands out the command to
    /// queue. Fails with `EventLoopNotRunning` where the worker is gone, else
    /// with `EncodingOverflow` where header and payload together exceed the
    /// negotiated packet size. A call begun while another waits takes its
    /// place.
    pub fn begin_call(&mut self, header: &Vec<u8>, payload: &Vec<u8>, expects_reply: bool) -> (r:
        Result<Command, DriverError>)
        ensures
            final(self)@ == old(self)@.called(header@, payload@, expects_reply),
            match r {
                Ok(Command::Send(frame)) => old(self)@.call_error(header@, payload@) is None
                    && frame@ == header@ + payload@,
                Ok(_) => false,
                Err(e) => old(self)@.call_error(header@, payload@) == Some(e),
            },
    {
        if !self.running {
            return Err(DriverError::EventLoopNotRunning);
        }
        let cap: usize = self.args_scratch.len();
        if header.len() > cap || payload.len() > cap - header.len() {
            return Err(DriverError::EncodingOverflow);
        }
        let mut frame: Vec<u8> = Vec::new();
        let mut i: usize = 0;
        while i < header.len()
            invariant
                i <= header@.len(),
                frame@ == header@.take(i as int),
            decreases header@.len() - i,
        {
            frame.push(header[i]);
            i += 1;
            assert(frame@ =~= header@.take(i as int));
        }
        assert(header@.take(i as int) =~= header@);
        let mut j: usize = 0;
        while j < payload.len()
            invariant
                j <= payload@.len(),
                frame@ == header@ + payload@.take(j as int),
            decreases payload@.len() - j,
        {
            frame.push(payload[j]);
            j += 1;
            assert(frame@ =~= header@ + payload@.take(j as int));
        }
        assert(payload@.take(j as int) =~= payload@);
        let ghost before = self.args_scratch@;
        let mut k: usize = 0;
        while k < frame.len()
            invariant
                k <= frame@.len(),
                frame@.len() <= before.len(),
                self.args_scratch@.len() == before.len(),
                self.running == old(self).running,
                self.args_scratch@ =~= frame@.take(k as int) + before.skip(k as int),
            decreases frame@.len() - k,
        {
            self.args_scratch.set(k, frame[k]);
            k += 1;
        }
        assert(frame@.take(k as int) =~= frame@);
        self.pending = expects_reply;
        Ok(Command::Send(frame))
    }

    /// Takes what became of a call and says what the caller gets. A worker
    /// found gone stops the dispatcher, so that every later call fails with
    /// `EventLoopNotRunning`.
    pub fn complete_call(&mut self, outcome: CallOutcome) -> (r: Result<Vec<u8>, DriverError>)
        ensures
            r == call_reply(outcome),
            final(self)@ == old(self)@.completed(outcome),
    {
        self.pending = false;
        match outcome {
            CallOutcome::QueueClosed => {
                self.running = false;
                Err(DriverError::EventLoopNotRunning)
            },
            CallOutcome::SignalDropped => {
                self.running = false;
                Err(DriverError::EventLoopNotRunning)
            },
            CallOutcome::Reply(bytes) => Ok(bytes),
            CallOutcome::RemoteFailure(payload) => Err(DriverError::RemoteError(payload)),
        }
    }

    /// Ends the session. With a running worker it hands out `Close` to queue
    /// and tears the dispatcher down; with none it does nothing and hands out
    /// nothing. It never fails.
    pub fn disconnect_and_exit(&mut self) -> (r: Option<Command>)
        ensures
            old(self)@.running ==> r == Some(Command::Close) && final(self)@ == old(
                self,
            )@.torn_down(),
            !old(self)@.running ==> r is None && final(self)@ == old(self)@,
    {
        if !self.running {
            return None;
        }
        self.args_scratch = zeroed(self.args_scratch.len());
        self.running = false;
        self.pending = false;
        Some(Command::Close)
    }
}

/// Ending a session twice is ending it once: the second time nothing is
/// queued and nothing changes.
pub proof fn lemma_disconnect_is_idempotent(d: DriverView)
    ensures
        !d.torn_down().running,
        d.torn_down().torn_down() == d.torn_down(),
{
    assert(d.torn_down().torn_down().scratch =~= d.torn_down().scratch);
}

/// A session leaves nothing behind: whatever the dispatcher of an earlier
/// session held, it is zeroed and idle once torn down, and the dispatcher of
/// the next connect holds a zeroed buffer and no pending call. The worker of
/// the next connect has seen nothing either.
pub proof fn lemma_reconnect_is_fresh(
    earlier: DriverView,
    max_packet_size: usize,
    protocol: ProtocolInfo,
)
    ensures
        Worker::spec_new(max_packet_size, protocol).phase == Phase::AwaitingConnect,
        Worker::spec_new(max_packet_size, protocol).info == ConnectionInfo::spec_idle(
            max_packet_size,
        ),
        Worker::spec_new(max_packet_size, protocol).wf(),
        !earlier.torn_down().pending,
        forall|i: int|
            0 <= i < earlier.scratch.len() ==> earlier.torn_down().scratch[i] == 0u8,
        DriverView::fresh(max_packet_size).scratch.len() == max_packet_size,
        forall|i: int|
            0 <= i < max_packet_size ==> DriverView::fresh(max_packet_size).scratch[i] == 0u8,
        !DriverView::fresh(max_packet_size).pending,
        DriverView::fresh(max_packet_size).running,
{
}

/// Once a dispatcher has seen `Disconnected`, every call on it fails with
/// `EventLoopNotRunning` and leaves it as it is, so the next call fails in
/// the same way.
pub proof fn lemma_calls_fail_after_disconnect(
    d: DriverView,
    header: Seq<u8>,
    payload: Seq<u8>,
    expects_reply: bool,
)
    ensures
        d.observed(Event::Disconnected).call_error(header, payload) == Some(
            DriverError::EventLoopNotRunning,
        ),
        d.observed(Event::Disconnected).called(header, payload, expects_reply) == d.observed(
            Event::Disconnected,
        ),
{
}

/// The same holds once the outcome of a call has shown the worker gone.
pub proof fn lemma_calls_fail_after_lost_signal(
    d: DriverView,
    outcome: CallOutcome,
    header: Seq<u8>,
    payload: Seq<u8>,
)
    requires
        outcome is QueueClosed || outcome is SignalDropped,
    ensures
        call_reply(outcome) == Err::<Vec<u8>, DriverError>(DriverError::EventLoopNotRunning),
        d.completed(outcome).call_error(header, payload) == Some(
            DriverError::EventLoopNotRunning,
        ),
{
}

/// A request fits exactly where header and payload together do not exceed
/// the packet size.
pub proof fn lemma_overflow_boundary(d: DriverView, header: Seq<u8>, payload: Seq<u8>)
    requires
        d.running,
    ensures
        d.call_error(header, payload) is None <==> header.len() + payload.len()
            <= d.scratch.len(),
        d.call_error(header, payload) is Some ==> d.call_error(header, payload) == Some(
            DriverError::EncodingOverflow,
        ),
{
}

} // verus!
