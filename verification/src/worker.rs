//! The transport worker: the one task that owns a link.
//!
//! The worker is a state machine. Its caller drains the command queue and
//! polls the transport, hands each thing that happened to [`Worker::step`],
//! and performs the action that comes back.

use vstd::prelude::*;
use crate::protocol::{
    Command, ConnectCause, ConnectionInfo, DeviceFilter, DeviceIdentity, DriverError, Event,
    LinkStatus, OnError, ProtocolInfo,
};

verus! {

/// How far the worker has come.
#[derive(Clone, Copy, Debug, PartialEq, Eq, Structural)]
pub enum Phase {
    /// No `Connect` has arrived yet.
    AwaitingConnect,
    /// The transport was asked to open and has not answered.
    Opening,
    /// The link is open.
    Connected,
    /// The task has ended. Nothing leaves this phase.
    Terminated,
}

/// What the transport answered to a request to open.
#[derive(Clone, Copy, Debug, PartialEq, Eq, Structural)]
pub enum OpenResult {
    Opened(DeviceIdentity),
    NotFound,
    Failed(ConnectCause),
}

/// One thing that happened to the worker.
#[derive(Clone, Debug, PartialEq, Eq)]
pub enum WorkerInput {
    /// A command taken from the queue.
    Command(Command),
    /// Every sender of the queue is gone.
    QueueClosed,
    /// The transport answered a request to open.
    OpenResult(OpenResult),
    /// Bytes came in from the peer.
    Received(Vec<u8>),
    /// A write finished and its buffer is free again.
    WriteDone(Vec<u8>),
    /// A write failed.
    WriteFailed,
    /// The transport found the link gone.
    LinkLost,
}

/// What the caller of the worker has to do after a step.
#[derive(Clone, Debug, PartialEq, Eq)]
pub enum Action {
    /// Nothing.
    Idle,
    /// Ask the transport to open a peripheral.
    Open { filter: DeviceFilter, on_error: OnError, protocol: ProtocolInfo },
    /// Keep the handle, publish the worker's record, resolve the completion
    /// signal of `Connect` with success.
    Established,
    /// Resolve the completion signal of `Connect` with this error and end the
    /// task.
    Refuse(DriverError),
    /// Write these bytes to the link.
    Write(Vec<u8>),
    /// Send this event outward. After `Disconnected`, end the task.
    Emit(Event),
    /// Shut the transport down, send nothing more, end the task.
    Shutdown,
}

/// The worker of one link.
#[derive(Clone, Copy, Debug)]
pub struct Worker {
    pub phase: Phase,
    /// The record that the worker publishes for readers of the connection
    /// state.
    pub info: ConnectionInfo,
    pub protocol: ProtocolInfo,
}

/// The error with which `Connect` fails for an answer of the transport.
pub open spec fn refusal(r: OpenResult) -> DriverError {
    match r {
        OpenResult::Failed(cause) => DriverError::ConnectionFailed(cause),
        _ => DriverError::NoDeviceAvailable,
    }
}

impl Worker {
    /// The link is marked connected exactly in the phase `Connected`, and
    /// then the peer is known.
    pub open spec fn wf(self) -> bool {
        &&& (self.phase == Phase::Connected) == (self.info.status == LinkStatus::Connected)
        &&& self.phase == Phase::Connected ==> self.info.identity is Some
        &&& (self.phase == Phase::AwaitingConnect || self.phase == Phase::Opening)
            ==> self.info == ConnectionInfo::spec_idle(self.info.max_packet_size)
    }

    /// A worker that has seen nothing.
    pub open spec fn spec_new(max_packet_size: usize, protocol: ProtocolInfo) -> Worker {
        Worker {
            phase: Phase::AwaitingConnect,
            info: ConnectionInfo::spec_idle(max_packet_size),
            protocol,
        }
    }

    /// This worker after its task has ended.
    pub open spec fn ended(self) -> Worker {
        Worker { phase: Phase::Terminated, info: self.info.spec_lost(), protocol: self.protocol }
    }

    /// This worker in another phase, its record unchanged.
    pub open spec fn in_phase(self, phase: Phase) -> Worker {
        Worker { phase, info: self.info, protocol: self.protocol }
    }

    /// The state after `input` and the action that it asks for.
    pub open spec fn next(self, input: WorkerInput) -> (Worker, Action) {
        match self.phase {
            Phase::Terminated => (self, Action::Idle),
            Phase::AwaitingConnect => match input {
                WorkerInput::Command(Command::Connect { filter, on_error }) => (
                    self.in_phase(Phase::Opening),
                    Action::Open { filter, on_error, protocol: self.protocol },
                ),
                WorkerInput::Command(Command::Close) => (self.ended(), Action::Shutdown),
                WorkerInput::QueueClosed => (self.ended(), Action::Shutdown),
                _ => (self, Action::Idle),
            },
            Phase::Opening => match input {
                WorkerInput::OpenResult(OpenResult::Opened(identity)) => (
                    Worker {
                        phase: Phase::Connected,
                        info: ConnectionInfo::spec_connected(identity, self.info.max_packet_size),
                        protocol: self.protocol,
                    },
                    Action::Established,
                ),
                WorkerInput::OpenResult(r) => (self.ended(), Action::Refuse(refusal(r))),
                WorkerInput::Command(Command::Close) => (self.ended(), Action::Shutdown),
                WorkerInput::QueueClosed => (self.ended(), Action::Shutdown),
                _ => (self, Action::Idle),
            },
            Phase::Connected => match input {
                WorkerInput::Command(Command::Send(bytes)) => (self, Action::Write(bytes)),
                WorkerInput::Command(Command::Close) => (self.ended(), Action::Shutdown),
                WorkerInput::QueueClosed => (self.ended(), Action::Shutdown),
                WorkerInput::Received(bytes) => (self, Action::Emit(Event::Received(bytes))),
                WorkerInput::WriteDone(buffer) => (
                    self,
                    Action::Emit(Event::RecycleBuffer(buffer)),
                ),
                WorkerInput::WriteFailed => (self.ended(), Action::Emit(Event::Disconnected)),
                WorkerInput::LinkLost => (self.ended(), Action::Emit(Event::Disconnected)),
                _ => (self, Action::Idle),
            },
        }
    }

    /// The state before the input at position `k` of `inputs`.
    pub open spec fn state_at(self, inputs: Seq<WorkerInput>, k: int) -> Worker
        decreases k,
    {
        if k <= 0 {
            self
        } else {
            self.state_at(inputs, k - 1).next(inputs[k - 1]).0
        }
    }

    /// The action that the input at position `k` of `inputs` asks for.
    pub open spec fn action_at(self, inputs: Seq<WorkerInput>, k: int) -> Action {
        self.state_at(inputs, k).next(inputs[k]).1
    }

    /// Whether an action resolves the completion signal of `Connect`.
    pub open spec fn resolves_connect(a: Action) -> bool {
        a is Established || a is Refuse
    }

    pub fn new(max_packet_size: usize, protocol: ProtocolInfo) -> (w: Worker)
        ensures
            w == Self::spec_new(max_packet_size, protocol),
            w.wf(),
    {
        Worker {
            phase: Phase::AwaitingConnect,
            info: ConnectionInfo::idle(max_packet_size),
            protocol,
        }
    }

    /// Whether the worker's record and its phase agree.
    pub fn is_well_formed(&self) -> (r: bool)
        ensures
            r == self.wf(),
    {
        let connected = match self.phase {
            Phase::Connected => true,
            _ => false,
        };
        let early = match self.phase {
            Phase::AwaitingConnect => true,
            Phase::Opening => true,
            _ => false,
        };
        let marked = self.info.is_connected();
        let known = self.info.identity.is_some();
        let idle = match self.info.status {
            LinkStatus::Idle => self.info.identity.is_none(),
            _ => false,
        };
        connected == marked && (!connected || known) && (!early || idle)
    }

    /// Whether the task has ended.
    pub fn is_terminated(&self) -> (r: bool)
        ensures
            r == (self.phase == Phase::Terminated),
    {
        match self.phase {
            Phase::Terminated => true,
            _ => false,
        }
    }

    /// The record to publish for readers of the connection state.
    pub fn info(&self) -> (r: ConnectionInfo)
        ensures
            r == self.info,
    {
        self.info
    }

    fn end(&mut self)
        ensures
            *final(self) == old(self).ended(),
    {
        self.phase = Phase::Terminated;
        self.info = self.info.lost();
    }

    /// Takes one input and says what to do.
    pub fn step(&mut self, input: WorkerInput) -> (action: Action)
        requires
            old(self).wf(),
        ensures
            (*final(self), action) == old(self).next(input),
            final(self).wf(),
    {
        match self.phase {
            Phase::Terminated => Action::Idle,
            Phase::AwaitingConnect => match input {
                WorkerInput::Command(Command::Connect { filter, on_error }) => {
                    self.phase = Phase::Opening;
                    Action::Open { filter, on_error, protocol: self.protocol }
                },
                WorkerInput::Command(Command::Close) | WorkerInput::QueueClosed => {
                    self.end();
                    Action::Shutdown
                },
                _ => Action::Idle,
            },
            Phase::Opening => match input {
                WorkerInput::OpenResult(OpenResult::Opened(identity)) => {
                    self.phase = Phase::Connected;
                    self.info = ConnectionInfo::connected(identity, self.info.max_packet_size);
                    Action::Established
                },
                WorkerInput::OpenResult(OpenResult::Failed(cause)) => {
                    self.end();
                    Action::Refuse(DriverError::ConnectionFailed(cause))
                },
                WorkerInput::OpenResult(OpenResult::NotFound) => {
                    self.end();
                    Action::Refuse(DriverError::NoDeviceAvailable)
                },
                WorkerInput::Command(Command::Close) | WorkerInput::QueueClosed => {
                    self.end();
                    Action::Shutdown
                },
                _ => Action::Idle,
            },
            Phase::Connected => match input {
                WorkerInput::Command(Command::Send(bytes)) => Action::Write(bytes),
                WorkerInput::Command(Command::Close) | WorkerInput::QueueClosed => {
                    self.end();
                    Action::Shutdown
                },
                WorkerInput::Received(bytes) => Action::Emit(Event::Received(bytes)),
                WorkerInput::WriteDone(buffer) => Action::Emit(Event::RecycleBuffer(buffer)),
                WorkerInput::WriteFailed | WorkerInput::LinkLost => {
                    self.end();
                    Action::Emit(Event::Disconnected)
                },
                _ => Action::Idle,
            },
        }
    }

    /// Takes the inputs in order and collects the actions.
    pub fn run(&mut self, inputs: Vec<WorkerInput>) -> (actions: Vec<Action>)
        requires
            old(self).wf(),
        ensures
            final(self).wf(),
            *final(self) == old(self).state_at(inputs@, inputs@.len() as int),
            actions@.len() == inputs@.len(),
            forall|k: int|
                0 <= k < inputs@.len() ==> actions@[k] == old(self).action_at(inputs@, k),
    {
        let ghost start = *self;
        let ghost all = inputs@;
        let mut inputs = inputs;
        let mut actions: Vec<Action> = Vec::new();
        let mut rest: Vec<WorkerInput> = Vec::new();
        // Inputs are taken from the back of a reversed copy.
        while inputs.len() > 0
            invariant
                rest@.len() + inputs@.len() == all.len(),
                forall|k: int| 0 <= k < inputs@.len() ==> inputs@[k] == all[k],
                forall|k: int|
                    0 <= k < rest@.len() ==> rest@[k] == all[all.len() - 1 - k],
            decreases inputs@.len(),
        {
            let last = inputs.pop().unwrap();
            rest.push(last);
        }
        while rest.len() > 0
            invariant
                self.wf(),
                actions@.len() + rest@.len() == all.len(),
                forall|k: int|
                    0 <= k < rest@.len() ==> rest@[k] == all[all.len() - 1 - k],
                *self == start.state_at(all, actions@.len() as int),
                forall|k: int|
                    0 <= k < actions@.len() ==> actions@[k] == start.action_at(all, k),
            decreases rest@.len(),
        {
            let input = rest.pop().unwrap();
            let action = self.step(input);
            actions.push(action);
        }
        actions
    }
}

/// Once the task has ended it stays ended.
pub proof fn lemma_terminated_is_final(w: Worker, inputs: Seq<WorkerInput>, k: int, m: int)
    requires
        0 <= k <= m,
        w.state_at(inputs, k).phase == Phase::Terminated,
    ensures
        w.state_at(inputs, m).phase == Phase::Terminated,
    decreases m,
{
    if k < m {
        lemma_terminated_is_final(w, inputs, k, m - 1);
    }
}

/// After a worker has ended, every further input asks for nothing: no
/// event is sent, no signal resolved, nothing written.
pub proof fn lemma_silent_after_end(w: Worker, inputs: Seq<WorkerInput>, k: int, m: int)
    requires
        0 <= k <= m,
        w.state_at(inputs, k).phase == Phase::Terminated,
    ensures
        w.action_at(inputs, m) == Action::Idle,
{
    lemma_terminated_is_final(w, inputs, k, m);
}

/// `Disconnected` ends the worker: whatever the inputs, every action after
/// one that emits `Disconnected` is `Idle`. So a worker emits `Disconnected`
/// at most once in its life, and no `Received` or `RecycleBuffer` follows it.
pub proof fn lemma_disconnected_is_last(w: Worker, inputs: Seq<WorkerInput>, i: int, j: int)
    requires
        0 <= i < j,
        w.action_at(inputs, i) == Action::Emit(Event::Disconnected),
    ensures
        w.action_at(inputs, j) == Action::Idle,
        w.state_at(inputs, j).phase == Phase::Terminated,
{
    assert(w.state_at(inputs, i + 1) == w.state_at(inputs, i).next(inputs[i]).0);
    lemma_terminated_is_final(w, inputs, i + 1, j);
}

/// A worker whose link is open answers the loss of the link, and a failed
/// write, with exactly `Disconnected`, and ends.
pub proof fn lemma_loss_emits_disconnected(w: Worker, input: WorkerInput)
    requires
        w.phase == Phase::Connected,
        input is LinkLost || input is WriteFailed,
    ensures
        w.next(input).1 == Action::Emit(Event::Disconnected),
        w.next(input).0.phase == Phase::Terminated,
{
}

/// Commands are served one by one in the order of the queue: a `Send` that
/// reaches a worker whose link is open is answered by the write of exactly
/// its bytes, and leaves the worker as it was.
pub proof fn lemma_send_is_written(w: Worker, inputs: Seq<WorkerInput>, k: int, bytes: Vec<u8>)
    requires
        0 <= k < inputs.len(),
        inputs[k] == WorkerInput::Command(Command::Send(bytes)),
        w.state_at(inputs, k).phase == Phase::Connected,
    ensures
        w.action_at(inputs, k) == Action::Write(bytes),
        w.state_at(inputs, k + 1) == w.state_at(inputs, k),
{
}

/// The completion signal of `Connect` is resolved at most once: after an
/// action that resolves it, no later action does.
pub proof fn lemma_connect_resolved_once(w: Worker, inputs: Seq<WorkerInput>, i: int, j: int)
    requires
        0 <= i < j,
        Worker::resolves_connect(w.action_at(inputs, i)),
    ensures
        !Worker::resolves_connect(w.action_at(inputs, j)),
{
    let s = w.state_at(inputs, i + 1);
    assert(s == w.state_at(inputs, i).next(inputs[i]).0);
    assert(s.phase == Phase::Connected || s.phase == Phase::Terminated);
    lemma_never_opening_again(w, inputs, i + 1, j);
}

/// A worker that is connected or has ended never opens again.
pub proof fn lemma_never_opening_again(w: Worker, inputs: Seq<WorkerInput>, k: int, m: int)
    requires
        0 <= k <= m,
        w.state_at(inputs, k).phase == Phase::Connected || w.state_at(inputs, k).phase
            == Phase::Terminated,
    ensures
        w.state_at(inputs, m).phase == Phase::Connected || w.state_at(inputs, m).phase
            == Phase::Terminated,
    decreases m,
{
    if k < m {
        lemma_never_opening_again(w, inputs, k, m - 1);
    }
}

} // verus!
