use vstd::prelude::*;

use crate::signal::{CancelSignal, WaitPoll};

verus! {

/// Seconds the worker idles between two probes.
pub const PROBE_INTERVAL_SECS: u64 = 360;

/// Lifecycle of the one worker that a monitor may own.
#[derive(Clone, Copy, Debug, PartialEq, Eq, Structural)]
pub enum WorkerState {
    Stopped,
    Running,
    Stopping,
}

/// Refusals of the state controller. Neither changes any state.
#[derive(Clone, Copy, Debug, PartialEq, Eq, Structural)]
pub enum ControlError {
    /// Start while a worker is running or stopping.
    AlreadyRunning,
    /// Stop while no worker is running.
    NotRunning,
}

/// Why the probe could not be run at all.
#[derive(Clone, Debug, PartialEq, Eq)]
pub struct InvocationError {
    pub reason: String,
}

/// Why a notification could not be delivered.
#[derive(Clone, Debug, PartialEq, Eq)]
pub struct DeliveryError {
    pub reason: String,
}

/// Where the worker loop stands: what it last asked for, or that it is done.
#[derive(Clone, Copy, Debug, PartialEq, Eq, Structural)]
pub enum Phase {
    /// Spawned; its first look at the state is still to come.
    Starting,
    /// Waiting for the probe's output.
    Probing,
    /// Waiting for a notification to be delivered.
    Notifying,
    /// In the cancellable idle wait.
    Waiting,
    /// Exited; the monitor is stopped.
    Finished,
}

/// What happened outside since the worker last asked for something.
#[derive(Debug)]
pub enum Event {
    /// The worker's task began to run.
    Begin,
    /// The probe came back: its standard output, or why it could not run.
    ProbeDone(Result<Vec<u8>, InvocationError>),
    /// The notifier came back.
    NotifyDone(Result<(), DeliveryError>),
    /// The idle wait woke up; `elapsed` tells whether its interval has run out.
    WaitCheck { elapsed: bool },
}

/// Why the worker loop exited.
#[derive(Clone, Debug, PartialEq, Eq)]
pub enum ExitReason {
    /// It found the monitor stopping.
    StopRequested,
    /// The probe could not be run.
    ProbeFailed(InvocationError),
}

/// What the worker asks to be done next.
#[derive(Clone, Debug, PartialEq, Eq)]
pub enum Action {
    /// Run the probe once.
    Probe,
    /// Send `text` to `recipient`.
    Notify { recipient: i64, text: String },
    /// Start an idle wait of `secs` seconds, cut short by the cancel signal.
    Wait { secs: u64 },
    /// The wait is not over: sleep until the interval ends or the signal fires.
    KeepWaiting,
    /// The loop is over; the monitor is stopped.
    Exit(ExitReason),
}

/// The text that a probe's raw output reads as.
pub uninterp spec fn lossy_text(b: Seq<u8>) -> Seq<char>;

/// Relies on `String::from_utf8_lossy`: the text depends on the bytes alone.
#[verifier::external_body]
fn text_of(b: &Vec<u8>) -> (r: String)
    ensures
        r@ == lossy_text(b@),
{
    String::from_utf8_lossy(b.as_slice()).into_owned()
}

/// What a monitor is: its worker's lifecycle state and its cancel signal.
pub struct MonitorModel {
    pub state: WorkerState,
    pub cancel_pending: bool,
}

impl MonitorModel {
    /// The cancel signal is raised exactly while a stop is in progress.
    pub open spec fn wf(self) -> bool {
        self.cancel_pending <==> self.state is Stopping
    }

    pub open spec fn initial() -> MonitorModel {
        MonitorModel { state: WorkerState::Stopped, cancel_pending: false }
    }

    pub open spec fn after_start(self) -> MonitorModel {
        if self.state is Stopped {
            MonitorModel { state: WorkerState::Running, cancel_pending: false }
        } else {
            self
        }
    }

    pub open spec fn after_stop(self) -> MonitorModel {
        if self.state is Running {
            MonitorModel { state: WorkerState::Stopping, cancel_pending: true }
        } else {
            self
        }
    }

    /// The worker's exit: stopped, with no stale signal left for the next one.
    pub open spec fn finished() -> MonitorModel {
        MonitorModel { state: WorkerState::Stopped, cancel_pending: false }
    }
}

/// What a worker loop is: whom it reports to and where it stands.
pub struct WorkerModel {
    pub recipient: i64,
    pub phase: Phase,
}

impl WorkerModel {
    pub open spec fn live(self) -> bool {
        self.phase !is Finished
    }

    /// The event that answers what the worker last asked for.
    pub open spec fn expects(self, ev: Event) -> bool {
        match self.phase {
            Phase::Starting => ev is Begin,
            Phase::Probing => ev is ProbeDone,
            Phase::Notifying => ev is NotifyDone,
            Phase::Waiting => ev is WaitCheck,
            Phase::Finished => false,
        }
    }

    pub open spec fn with_phase(self, phase: Phase) -> WorkerModel {
        WorkerModel { recipient: self.recipient, phase }
    }

    /// The look at the state at the top of each cycle.
    pub open spec fn check(self, m: MonitorModel) -> (WorkerModel, MonitorModel) {
        if m.state is Running {
            (self.with_phase(Phase::Probing), m)
        } else {
            (self.with_phase(Phase::Finished), MonitorModel::finished())
        }
    }

    /// The worker and monitor after the worker handles `ev`.
    pub open spec fn step(self, m: MonitorModel, ev: Event) -> (WorkerModel, MonitorModel) {
        match ev {
            Event::Begin => self.check(m),
            Event::ProbeDone(Err(_)) => (self.with_phase(Phase::Finished), MonitorModel::finished()),
            Event::ProbeDone(Ok(out)) => if out@.len() > 0 {
                (self.with_phase(Phase::Notifying), m)
            } else {
                (self.with_phase(Phase::Waiting), m)
            },
            Event::NotifyDone(_) => (self.with_phase(Phase::Waiting), m),
            Event::WaitCheck { elapsed } => if m.cancel_pending {
                self.check(MonitorModel { state: m.state, cancel_pending: false })
            } else if elapsed {
                self.check(m)
            } else {
                (self, m)
            },
        }
    }

    /// Whether handling `ev` asks the notifier for a delivery.
    pub open spec fn notifies(self, ev: Event) -> bool {
        ev matches Event::ProbeDone(Ok(out)) && out@.len() > 0
    }

    /// The action asked for after handling `ev`.
    pub open spec fn action_fits(self, m: MonitorModel, ev: Event, act: Action) -> bool {
        match ev {
            Event::Begin => if m.state is Running {
                act == Action::Probe
            } else {
                act == Action::Exit(ExitReason::StopRequested)
            },
            Event::ProbeDone(Err(e)) => act == Action::Exit(ExitReason::ProbeFailed(e)),
            Event::ProbeDone(Ok(out)) => if out@.len() > 0 {
                act matches Action::Notify { recipient, text } && recipient == self.recipient
                    && text@ == lossy_text(out@)
            } else {
                act == Action::Wait { secs: PROBE_INTERVAL_SECS }
            },
            Event::NotifyDone(_) => act == Action::Wait { secs: PROBE_INTERVAL_SECS },
            Event::WaitCheck { elapsed } => if !m.cancel_pending && !elapsed {
                act == Action::KeepWaiting
            } else if m.state is Running {
                act == Action::Probe
            } else {
                act == Action::Exit(ExitReason::StopRequested)
            },
        }
    }
}

/// The state controller: the one place that says whether a worker runs.
pub struct Monitor {
    state: WorkerState,
    signal: CancelSignal,
}

impl View for Monitor {
    type V = MonitorModel;

    closed spec fn view(&self) -> MonitorModel {
        MonitorModel { state: self.state, cancel_pending: self.signal.pending }
    }
}

/// One worker loop, bound to the recipient of its notifications. Only
/// [`Monitor::start`] makes one.
pub struct WorkerLoop {
    recipient: i64,
    phase: Phase,
}

impl View for WorkerLoop {
    type V = WorkerModel;

    closed spec fn view(&self) -> WorkerModel {
        WorkerModel { recipient: self.recipient, phase: self.phase }
    }
}

impl Monitor {
    /// A monitor with no worker.
    pub fn new() -> (r: Monitor)
        ensures
            r@ == MonitorModel::initial(),
    {
        Monitor { state: WorkerState::Stopped, signal: CancelSignal::new() }
    }

    pub fn state(&self) -> (r: WorkerState)
        ensures
            r == self@.state,
    {
        self.state
    }

    pub fn cancel_pending(&self) -> (r: bool)
        ensures
            r == self@.cancel_pending,
    {
        self.signal.is_pending()
    }

    /// Starts a worker for `recipient` if none is running or stopping, and
    /// hands it over to be run; otherwise refuses and changes nothing.
    pub fn start(&mut self, recipient: i64) -> (r: Result<WorkerLoop, ControlError>)
        ensures
            final(self)@ == old(self)@.after_start(),
            r is Ok <==> old(self)@.state is Stopped,
            r matches Ok(w) ==> w@ == (WorkerModel { recipient, phase: Phase::Starting }),
            r matches Err(e) ==> e == ControlError::AlreadyRunning,
    {
        match self.state {
            WorkerState::Stopped => {
                self.state = WorkerState::Running;
                self.signal.clear();
                Ok(WorkerLoop { recipient, phase: Phase::Starting })
            },
            _ => Err(ControlError::AlreadyRunning),
        }
    }

    /// Asks a running worker to stop and raises the cancel signal, so that an
    /// idle wait ends at once; otherwise refuses and changes nothing.
    pub fn stop(&mut self) -> (r: Result<(), ControlError>)
        ensures
            final(self)@ == old(self)@.after_stop(),
            r is Ok <==> old(self)@.state is Running,
            r matches Err(e) ==> e == ControlError::NotRunning,
    {
        match self.state {
            WorkerState::Running => {
                self.state = WorkerState::Stopping;
                self.signal.notify();
                Ok(())
            },
            _ => Err(ControlError::NotRunning),
        }
    }
}

impl WorkerLoop {
    pub fn recipient(&self) -> (r: i64)
        ensures
            r == self@.recipient,
    {
        self.recipient
    }

    pub fn phase(&self) -> (r: Phase)
        ensures
            r == self@.phase,
    {
        self.phase
    }

    /// Whether `ev` answers what this worker last asked for.
    pub fn expects(&self, ev: &Event) -> (r: bool)
        ensures
            r == self@.expects(*ev),
    {
        match self.phase {
            Phase::Starting => matches!(ev, Event::Begin),
            Phase::Probing => matches!(ev, Event::ProbeDone(_)),
            Phase::Notifying => matches!(ev, Event::NotifyDone(_)),
            Phase::Waiting => matches!(ev, Event::WaitCheck { .. }),
            Phase::Finished => false,
        }
    }

    fn check(&mut self, ctl: &mut Monitor) -> (act: Action)
        ensures
            (final(self)@, final(ctl)@) == old(self)@.check(old(ctl)@),
            act == (if old(ctl)@.state is Running {
                Action::Probe
            } else {
                Action::Exit(ExitReason::StopRequested)
            }),
    {
        match ctl.state {
            WorkerState::Running => {
                self.phase = Phase::Probing;
                Action::Probe
            },
            _ => {
                self.phase = Phase::Finished;
                ctl.state = WorkerState::Stopped;
                ctl.signal.clear();
                Action::Exit(ExitReason::StopRequested)
            },
        }
    }

    /// Handles one event and says what to do next: one probe, one
    /// notification for non-empty output, one cancellable wait, and a look at
    /// the state before each probe. The loop exits, leaving the monitor
    /// stopped, when it finds the monitor stopping or the probe cannot run.
    pub fn step(&mut self, ctl: &mut Monitor, ev: Event) -> (act: Action)
        requires
            old(self)@.expects(ev),
        ensures
            (final(self)@, final(ctl)@) == old(self)@.step(old(ctl)@, ev),
            old(self)@.action_fits(old(ctl)@, ev, act),
            (act is Notify) <==> old(self)@.notifies(ev),
            final(self)@.recipient == old(self)@.recipient,
    {
        match ev {
            Event::Begin => self.check(ctl),
            Event::ProbeDone(Err(e)) => {
                self.phase = Phase::Finished;
                ctl.state = WorkerState::Stopped;
                ctl.signal.clear();
                Action::Exit(ExitReason::ProbeFailed(e))
            },
            Event::ProbeDone(Ok(out)) => {
                if out.len() > 0 {
                    self.phase = Phase::Notifying;
                    Action::Notify { recipient: self.recipient, text: text_of(&out) }
                } else {
                    self.phase = Phase::Waiting;
                    Action::Wait { secs: PROBE_INTERVAL_SECS }
                }
            },
            Event::NotifyDone(_) => {
                self.phase = Phase::Waiting;
                Action::Wait { secs: PROBE_INTERVAL_SECS }
            },
            Event::WaitCheck { elapsed } => {
                match ctl.signal.poll_wait(elapsed) {
                    WaitPoll::Pending => Action::KeepWaiting,
                    WaitPoll::Ready(_) => self.check(ctl),
                }
            },
        }
    }
}

} // verus!
