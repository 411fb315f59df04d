use usb_io::{
    Action, Command, ConnectCause, ConnectionInfo, DeviceFilter, DeviceIdentity, DriverError,
    Event, LinkStatus, OnError, OpenResult, Phase, ProtocolInfo, Worker, WorkerInput,
};

fn protocol() -> ProtocolInfo {
    ProtocolInfo { protocol_id: 193, major_version: 0, minor_version: 1 }
}

fn connect_input() -> WorkerInput {
    WorkerInput::Command(Command::Connect {
        filter: DeviceFilter::AnyVhrdTechIo,
        on_error: OnError::ExitImmediately,
    })
}

fn connected_worker() -> Worker {
    let mut w = Worker::new(512, protocol());
    w.step(connect_input());
    w.step(WorkerInput::OpenResult(OpenResult::Opened(DeviceIdentity { vid: 0x1209, pid: 0xb193 })));
    w
}

#[test]
fn new_worker_awaits_connect() {
    let w = Worker::new(512, protocol());
    assert_eq!(w.phase, Phase::AwaitingConnect);
    assert_eq!(
        w.info(),
        ConnectionInfo { identity: None, max_packet_size: 512, status: LinkStatus::Idle }
    );
    assert!(!w.is_terminated());
}

#[test]
fn connect_asks_transport_to_open() {
    let mut w = Worker::new(512, protocol());
    let a = w.step(WorkerInput::Command(Command::Connect {
        filter: DeviceFilter::UsbVidPid { vid: 1, pid: 2 },
        on_error: OnError::RetryFor { timeout_ms: 3000 },
    }));
    assert_eq!(
        a,
        Action::Open {
            filter: DeviceFilter::UsbVidPid { vid: 1, pid: 2 },
            on_error: OnError::RetryFor { timeout_ms: 3000 },
            protocol: protocol(),
        }
    );
    assert_eq!(w.phase, Phase::Opening);
}

#[test]
fn connect_to_single_device_reflects_identity() {
    let mut w = Worker::new(512, protocol());
    w.step(connect_input());
    let id = DeviceIdentity { vid: 0x1209, pid: 0xb193 };
    let a = w.step(WorkerInput::OpenResult(OpenResult::Opened(id)));
    assert_eq!(a, Action::Established);
    assert_eq!(w.phase, Phase::Connected);
    assert_eq!(
        w.info(),
        ConnectionInfo { identity: Some(id), max_packet_size: 512, status: LinkStatus::Connected }
    );
    assert!(w.info().is_connected());
}

#[test]
fn no_matching_device_refuses_with_no_device_available() {
    let mut w = Worker::new(512, protocol());
    w.step(connect_input());
    let a = w.step(WorkerInput::OpenResult(OpenResult::NotFound));
    assert_eq!(a, Action::Refuse(DriverError::NoDeviceAvailable));
    assert!(w.is_terminated());
    assert_eq!(w.info().status, LinkStatus::Disconnected);
}

#[test]
fn two_attempts_without_device_each_get_no_device_available() {
    for _ in 0..2 {
        let mut w = Worker::new(512, protocol());
        let a = w.step(WorkerInput::Command(Command::Connect {
            filter: DeviceFilter::AnyVhrdTechIo,
            on_error: OnError::RetryFor { timeout_ms: 3000 },
        }));
        let policy = match a {
            Action::Open { on_error, .. } => on_error,
            other => panic!("unexpected action {:?}", other),
        };
        assert!(!policy.gives_up(0));
        assert!(!policy.gives_up(2999));
        assert!(policy.gives_up(3000));
        assert!(policy.gives_up(3001));
        let r = w.step(WorkerInput::OpenResult(OpenResult::NotFound));
        assert_eq!(r, Action::Refuse(DriverError::NoDeviceAvailable));
        assert!(w.is_terminated());
    }
}

#[test]
fn give_up_rule_of_each_policy() {
    assert!(OnError::ExitImmediately.gives_up(0));
    assert!(!OnError::KeepRetrying.gives_up(u64::MAX));
    assert!(OnError::RetryFor { timeout_ms: 0 }.gives_up(0));
    assert!(!OnError::RetryFor { timeout_ms: 1 }.gives_up(0));
}

#[test]
fn open_failure_refuses_with_cause() {
    for cause in [
        ConnectCause::PermissionDenied,
        ConnectCause::Busy,
        ConnectCause::ProtocolMismatch,
        ConnectCause::Transport,
        ConnectCause::Peer,
    ] {
        let mut w = Worker::new(64, protocol());
        w.step(connect_input());
        let a = w.step(WorkerInput::OpenResult(OpenResult::Failed(cause)));
        assert_eq!(a, Action::Refuse(DriverError::ConnectionFailed(cause)));
        assert!(w.is_terminated());
    }
}

#[test]
fn send_is_written_at_once() {
    let mut w = connected_worker();
    let a = w.step(WorkerInput::Command(Command::Send(vec![1, 2, 3])));
    assert_eq!(a, Action::Write(vec![1, 2, 3]));
    assert_eq!(w.phase, Phase::Connected);
}

#[test]
fn incoming_data_is_emitted() {
    let mut w = connected_worker();
    assert_eq!(
        w.step(WorkerInput::Received(vec![9, 8])),
        Action::Emit(Event::Received(vec![9, 8]))
    );
    assert_eq!(
        w.step(WorkerInput::WriteDone(vec![0; 4])),
        Action::Emit(Event::RecycleBuffer(vec![0; 4]))
    );
    assert_eq!(w.phase, Phase::Connected);
}

#[test]
fn write_failure_becomes_disconnected_event() {
    let mut w = connected_worker();
    assert_eq!(w.step(WorkerInput::WriteFailed), Action::Emit(Event::Disconnected));
    assert!(w.is_terminated());
    assert_eq!(w.info().status, LinkStatus::Disconnected);
    assert_eq!(w.info().identity, Some(DeviceIdentity { vid: 0x1209, pid: 0xb193 }));
}

#[test]
fn link_loss_emits_disconnected_once_and_nothing_after() {
    let mut w = connected_worker();
    let actions = w.run(vec![
        WorkerInput::Received(vec![1]),
        WorkerInput::LinkLost,
        WorkerInput::LinkLost,
        WorkerInput::WriteFailed,
        WorkerInput::Received(vec![2]),
        WorkerInput::WriteDone(vec![3]),
        WorkerInput::Command(Command::Send(vec![4])),
        WorkerInput::Command(Command::Close),
        connect_input(),
    ]);
    assert_eq!(actions.len(), 9);
    assert_eq!(actions[0], Action::Emit(Event::Received(vec![1])));
    assert_eq!(actions[1], Action::Emit(Event::Disconnected));
    for a in &actions[2..] {
        assert_eq!(*a, Action::Idle);
    }
    let count = actions.iter().filter(|a| **a == Action::Emit(Event::Disconnected)).count();
    assert_eq!(count, 1);
    assert!(w.is_terminated());
}

#[test]
fn close_shuts_down_without_events() {
    let mut w = connected_worker();
    assert_eq!(w.step(WorkerInput::Command(Command::Close)), Action::Shutdown);
    assert!(w.is_terminated());
    assert_eq!(w.step(WorkerInput::LinkLost), Action::Idle);
    assert_eq!(w.step(WorkerInput::Command(Command::Close)), Action::Idle);
}

#[test]
fn close_before_connect_and_while_opening() {
    let mut w = Worker::new(512, protocol());
    assert_eq!(w.step(WorkerInput::Command(Command::Close)), Action::Shutdown);
    assert!(w.is_terminated());
    let mut w = Worker::new(512, protocol());
    w.step(connect_input());
    assert_eq!(w.step(WorkerInput::Command(Command::Close)), Action::Shutdown);
    assert!(w.is_terminated());
}

#[test]
fn closed_queue_ends_worker() {
    let mut w = connected_worker();
    assert_eq!(w.step(WorkerInput::QueueClosed), Action::Shutdown);
    assert!(w.is_terminated());
}

#[test]
fn second_connect_is_ignored() {
    let mut w = connected_worker();
    let before = w.info();
    assert_eq!(w.step(connect_input()), Action::Idle);
    assert_eq!(w.phase, Phase::Connected);
    assert_eq!(w.info(), before);
    let mut w = Worker::new(512, protocol());
    w.step(connect_input());
    assert_eq!(w.step(connect_input()), Action::Idle);
    assert_eq!(w.phase, Phase::Opening);
}

#[test]
fn inputs_without_link_ask_for_nothing() {
    let mut w = Worker::new(512, protocol());
    assert_eq!(w.step(WorkerInput::Command(Command::Send(vec![1]))), Action::Idle);
    assert_eq!(w.step(WorkerInput::Received(vec![1])), Action::Idle);
    assert_eq!(w.step(WorkerInput::LinkLost), Action::Idle);
    assert_eq!(w.step(WorkerInput::OpenResult(OpenResult::NotFound)), Action::Idle);
    assert_eq!(w.phase, Phase::AwaitingConnect);
}

#[test]
fn run_gives_what_steps_give() {
    let inputs = vec![
        connect_input(),
        WorkerInput::OpenResult(OpenResult::Opened(DeviceIdentity { vid: 3, pid: 4 })),
        WorkerInput::Command(Command::Send(vec![7; 5])),
        WorkerInput::Received(vec![1, 2]),
        WorkerInput::Command(Command::Close),
        WorkerInput::Received(vec![3]),
    ];
    let mut a = Worker::new(128, protocol());
    let mut stepped = Vec::new();
    for i in inputs.clone() {
        stepped.push(a.step(i));
    }
    let mut b = Worker::new(128, protocol());
    let ran = b.run(inputs);
    assert_eq!(ran, stepped);
    assert_eq!(a.phase, b.phase);
    assert_eq!(a.info(), b.info());
    assert_eq!(
        ran,
        vec![
            Action::Open {
                filter: DeviceFilter::AnyVhrdTechIo,
                on_error: OnError::ExitImmediately,
                protocol: protocol(),
            },
            Action::Established,
            Action::Write(vec![7; 5]),
            Action::Emit(Event::Received(vec![1, 2])),
            Action::Shutdown,
            Action::Idle,
        ]
    );
}

#[test]
fn connection_info_constructors() {
    let id = DeviceIdentity { vid: 10, pid: 20 };
    let c = ConnectionInfo::connected(id, 64);
    assert_eq!(c, ConnectionInfo { identity: Some(id), max_packet_size: 64, status: LinkStatus::Connected });
    assert_eq!(
        c.lost(),
        ConnectionInfo { identity: Some(id), max_packet_size: 64, status: LinkStatus::Disconnected }
    );
    assert!(!c.lost().is_connected());
    assert!(!ConnectionInfo::idle(64).is_connected());
}

#[test]
fn record_and_phase_agree_through_a_session() {
    let mut w = Worker::new(512, protocol());
    assert!(w.is_well_formed());
    w.step(connect_input());
    assert!(w.is_well_formed());
    w.step(WorkerInput::OpenResult(OpenResult::Opened(DeviceIdentity { vid: 1, pid: 2 })));
    assert!(w.is_well_formed());
    w.step(WorkerInput::LinkLost);
    assert!(w.is_well_formed());
}

#[test]
fn record_that_disagrees_with_phase_is_not_well_formed() {
    let w = Worker {
        phase: Phase::Connected,
        info: ConnectionInfo::idle(512),
        protocol: protocol(),
    };
    assert!(!w.is_well_formed());
    let w = Worker {
        phase: Phase::Opening,
        info: ConnectionInfo::connected(DeviceIdentity { vid: 1, pid: 2 }, 512),
        protocol: protocol(),
    };
    assert!(!w.is_well_formed());
    let w = Worker {
        phase: Phase::Terminated,
        info: ConnectionInfo::idle(512).lost(),
        protocol: protocol(),
    };
    assert!(w.is_well_formed());
}
