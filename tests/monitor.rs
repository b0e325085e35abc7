use dfs_monitor::{
    Action, CancelSignal, Command, ControlError, DeliveryError, Event, ExitReason,
    InvocationError, Monitor, Phase, Reply, WaitOutcome, WaitPoll, WorkerLoop, WorkerState,
    PROBE_INTERVAL_SECS,
};

fn started(m: &mut Monitor, recipient: i64) -> WorkerLoop {
    match m.start(recipient) {
        Ok(w) => w,
        Err(e) => panic!("start refused: {:?}", e),
    }
}

fn probe_ok(out: &[u8]) -> Event {
    Event::ProbeDone(Ok(out.to_vec()))
}

#[test]
fn new_monitor_is_stopped() {
    let m = Monitor::new();
    assert_eq!(m.state(), WorkerState::Stopped);
    assert!(!m.cancel_pending());
}

#[test]
fn start_then_stop_during_wait_exits_at_once() {
    let mut m = Monitor::new();
    let mut w = started(&mut m, 7);
    assert_eq!(m.state(), WorkerState::Running);
    assert_eq!(w.step(&mut m, Event::Begin), Action::Probe);
    assert_eq!(w.step(&mut m, probe_ok(b"")), Action::Wait { secs: 360 });
    assert_eq!(PROBE_INTERVAL_SECS, 360);
    // parked in the wait, one second in
    assert_eq!(w.step(&mut m, Event::WaitCheck { elapsed: false }), Action::KeepWaiting);
    assert_eq!(m.stop(), Ok(()));
    assert_eq!(m.state(), WorkerState::Stopping);
    // the wake-up after the stop ends the wait without the interval running out
    assert_eq!(
        w.step(&mut m, Event::WaitCheck { elapsed: false }),
        Action::Exit(ExitReason::StopRequested)
    );
    assert_eq!(m.state(), WorkerState::Stopped);
    assert_eq!(w.phase(), Phase::Finished);
}

#[test]
fn second_start_is_refused() {
    let mut m = Monitor::new();
    let w = started(&mut m, 1);
    assert!(matches!(m.start(2), Err(ControlError::AlreadyRunning)));
    assert!(matches!(m.start(3), Err(ControlError::AlreadyRunning)));
    assert_eq!(m.state(), WorkerState::Running);
    assert_eq!(w.recipient(), 1);
    assert_eq!(w.phase(), Phase::Starting);
}

#[test]
fn start_while_stopping_is_refused() {
    let mut m = Monitor::new();
    let _w = started(&mut m, 1);
    assert_eq!(m.stop(), Ok(()));
    assert!(matches!(m.start(1), Err(ControlError::AlreadyRunning)));
    assert_eq!(m.state(), WorkerState::Stopping);
    assert!(m.cancel_pending());
}

#[test]
fn probe_failure_stops_the_worker() {
    let mut m = Monitor::new();
    let mut w = started(&mut m, 5);
    assert_eq!(w.step(&mut m, Event::Begin), Action::Probe);
    let err = InvocationError { reason: "no such command".to_string() };
    assert_eq!(
        w.step(&mut m, Event::ProbeDone(Err(err.clone()))),
        Action::Exit(ExitReason::ProbeFailed(err))
    );
    assert_eq!(m.state(), WorkerState::Stopped);
    assert_eq!(w.phase(), Phase::Finished);
    assert!(!w.expects(&Event::Begin));
    assert!(!w.expects(&probe_ok(b"x")));
    assert!(!w.expects(&Event::WaitCheck { elapsed: true }));
    // only a new start brings a new worker
    let w2 = started(&mut m, 5);
    assert_eq!(w2.phase(), Phase::Starting);
}

#[test]
fn stop_while_stopped_is_refused() {
    let mut m = Monitor::new();
    assert_eq!(m.stop(), Err(ControlError::NotRunning));
    assert_eq!(m.state(), WorkerState::Stopped);
    assert!(!m.cancel_pending());
}

#[test]
fn second_stop_is_refused_without_change() {
    let mut m = Monitor::new();
    let _w = started(&mut m, 1);
    assert_eq!(m.stop(), Ok(()));
    assert_eq!(m.stop(), Err(ControlError::NotRunning));
    assert_eq!(m.state(), WorkerState::Stopping);
    assert!(m.cancel_pending());
}

#[test]
fn signal_raised_before_wait_cancels_first_look() {
    let mut s = CancelSignal::new();
    s.notify();
    assert_eq!(s.poll_wait(false), WaitPoll::Ready(WaitOutcome::Cancelled));
    assert!(!s.is_pending());
}

#[test]
fn signal_raises_coalesce() {
    let mut s = CancelSignal::new();
    s.notify();
    s.notify();
    s.notify();
    assert_eq!(s.poll_wait(false), WaitPoll::Ready(WaitOutcome::Cancelled));
    assert_eq!(s.poll_wait(false), WaitPoll::Pending);
}

#[test]
fn signal_wait_elapses_without_raise() {
    let mut s = CancelSignal::new();
    assert_eq!(s.poll_wait(false), WaitPoll::Pending);
    assert_eq!(s.poll_wait(true), WaitPoll::Ready(WaitOutcome::Elapsed));
}

#[test]
fn signal_wins_over_elapsed_interval() {
    let mut s = CancelSignal::new();
    s.notify();
    assert_eq!(s.poll_wait(true), WaitPoll::Ready(WaitOutcome::Cancelled));
}

#[test]
fn cleared_signal_does_not_cancel() {
    let mut s = CancelSignal::new();
    s.notify();
    s.clear();
    assert_eq!(s.poll_wait(false), WaitPoll::Pending);
}

#[test]
fn empty_output_sends_nothing() {
    let mut m = Monitor::new();
    let mut w = started(&mut m, 9);
    assert_eq!(w.step(&mut m, Event::Begin), Action::Probe);
    let a = w.step(&mut m, probe_ok(b""));
    assert!(!matches!(a, Action::Notify { .. }));
    assert_eq!(a, Action::Wait { secs: 360 });
    assert_eq!(w.phase(), Phase::Waiting);
}

#[test]
fn output_sends_one_notification() {
    let mut m = Monitor::new();
    let mut w = started(&mut m, 9);
    assert_eq!(w.step(&mut m, Event::Begin), Action::Probe);
    assert_eq!(
        w.step(&mut m, probe_ok(b"WLAN_DEBUG_DFS_ALWAYS radar\n")),
        Action::Notify { recipient: 9, text: "WLAN_DEBUG_DFS_ALWAYS radar\n".to_string() }
    );
    assert_eq!(w.phase(), Phase::Notifying);
    assert_eq!(w.step(&mut m, Event::NotifyDone(Ok(()))), Action::Wait { secs: 360 });
    assert_eq!(w.phase(), Phase::Waiting);
}

#[test]
fn invalid_utf8_output_is_replaced() {
    let mut m = Monitor::new();
    let mut w = started(&mut m, 3);
    assert_eq!(w.step(&mut m, Event::Begin), Action::Probe);
    assert_eq!(
        w.step(&mut m, probe_ok(&[b'a', 0xff, b'b'])),
        Action::Notify { recipient: 3, text: "a\u{FFFD}b".to_string() }
    );
}

#[test]
fn delivery_failure_keeps_the_loop() {
    let mut m = Monitor::new();
    let mut w = started(&mut m, 2);
    assert_eq!(w.step(&mut m, Event::Begin), Action::Probe);
    assert!(matches!(w.step(&mut m, probe_ok(b"x")), Action::Notify { .. }));
    let err = DeliveryError { reason: "network down".to_string() };
    assert_eq!(w.step(&mut m, Event::NotifyDone(Err(err))), Action::Wait { secs: 360 });
    assert_eq!(w.step(&mut m, Event::WaitCheck { elapsed: true }), Action::Probe);
    assert_eq!(m.state(), WorkerState::Running);
}

#[test]
fn stop_does_not_preempt_probe_in_flight() {
    let mut m = Monitor::new();
    let mut w = started(&mut m, 4);
    assert_eq!(w.step(&mut m, Event::Begin), Action::Probe);
    assert_eq!(m.stop(), Ok(()));
    assert!(matches!(w.step(&mut m, probe_ok(b"late")), Action::Notify { .. }));
    assert_eq!(w.step(&mut m, Event::NotifyDone(Ok(()))), Action::Wait { secs: 360 });
    assert_eq!(m.state(), WorkerState::Stopping);
    assert_eq!(
        w.step(&mut m, Event::WaitCheck { elapsed: false }),
        Action::Exit(ExitReason::StopRequested)
    );
    assert_eq!(m.state(), WorkerState::Stopped);
}

#[test]
fn stop_before_worker_begins() {
    let mut m = Monitor::new();
    let mut w = started(&mut m, 4);
    assert_eq!(m.stop(), Ok(()));
    assert_eq!(w.step(&mut m, Event::Begin), Action::Exit(ExitReason::StopRequested));
    assert_eq!(m.state(), WorkerState::Stopped);
    assert!(!m.cancel_pending());
}

#[test]
fn restart_does_not_inherit_old_signal() {
    let mut m = Monitor::new();
    let mut w = started(&mut m, 4);
    assert_eq!(m.stop(), Ok(()));
    assert_eq!(w.step(&mut m, Event::Begin), Action::Exit(ExitReason::StopRequested));
    let mut w2 = started(&mut m, 4);
    assert_eq!(w2.step(&mut m, Event::Begin), Action::Probe);
    assert_eq!(w2.step(&mut m, probe_ok(b"")), Action::Wait { secs: 360 });
    assert_eq!(w2.step(&mut m, Event::WaitCheck { elapsed: false }), Action::KeepWaiting);
}

#[test]
fn expects_follows_phase() {
    let mut m = Monitor::new();
    let mut w = started(&mut m, 1);
    assert!(w.expects(&Event::Begin));
    assert!(!w.expects(&Event::WaitCheck { elapsed: false }));
    w.step(&mut m, Event::Begin);
    assert!(w.expects(&probe_ok(b"")));
    assert!(!w.expects(&Event::NotifyDone(Ok(()))));
    w.step(&mut m, probe_ok(b"z"));
    assert!(w.expects(&Event::NotifyDone(Ok(()))));
    w.step(&mut m, Event::NotifyDone(Ok(())));
    assert!(w.expects(&Event::WaitCheck { elapsed: true }));
}

#[test]
fn commands_route_to_controller() {
    let mut m = Monitor::new();
    let r = m.handle(Command::Help, 8);
    assert!(matches!(r, Reply::Help));
    assert_eq!(r.status_text(), None);
    assert_eq!(m.state(), WorkerState::Stopped);

    let r = m.handle(Command::Stop, 8);
    assert!(matches!(r, Reply::NotRunning));
    assert_eq!(r.status_text(), Some("Monitor is not running.".to_string()));

    let r = m.handle(Command::Start, 8);
    assert_eq!(r.status_text(), Some("Monitor started.".to_string()));
    match r {
        Reply::Started(w) => assert_eq!(w.recipient(), 8),
        _ => panic!("expected a started worker"),
    }
    assert_eq!(m.state(), WorkerState::Running);

    let r = m.handle(Command::Start, 8);
    assert!(matches!(r, Reply::AlreadyRunning));
    assert_eq!(r.status_text(), Some("Monitor is already running.".to_string()));

    let r = m.handle(Command::Stop, 8);
    assert!(matches!(r, Reply::Stopping));
    assert_eq!(r.status_text(), Some("Monitor stopping.".to_string()));
    assert_eq!(m.state(), WorkerState::Stopping);
}

#[test]
fn control_error_messages() {
    assert_eq!(ControlError::AlreadyRunning.message(), "Monitor is already running.");
    assert_eq!(ControlError::NotRunning.message(), "Monitor is not running.");
}
