use vstd::prelude::*;
use vstd::string::StringExecFns;

use crate::monitor::{ControlError, Monitor, MonitorModel, Phase, WorkerLoop, WorkerModel};

verus! {

/// The operator's commands.
#[derive(Clone, Copy, Debug, PartialEq, Eq, Structural)]
pub enum Command {
    /// Show the list of commands.
    Help,
    /// Start the monitor.
    Start,
    /// Stop the monitor.
    Stop,
}

/// The outcome of one command.
pub enum Reply {
    /// The list of commands is to be shown.
    Help,
    /// A worker was started; it is to be run.
    Started(WorkerLoop),
    /// Start was refused.
    AlreadyRunning,
    /// The worker was asked to stop.
    Stopping,
    /// Stop was refused.
    NotRunning,
}

/// The monitor after handling `cmd`.
pub open spec fn after_command(m: MonitorModel, cmd: Command) -> MonitorModel {
    match cmd {
        Command::Help => m,
        Command::Start => m.after_start(),
        Command::Stop => m.after_stop(),
    }
}

/// The reply that `cmd` gets from a monitor in `m`, a started worker aside.
pub open spec fn reply_fits(m: MonitorModel, cmd: Command, recipient: i64, r: Reply) -> bool {
    match cmd {
        Command::Help => r is Help,
        Command::Start => if m.state is Stopped {
            r matches Reply::Started(w) && w@ == (WorkerModel { recipient, phase: Phase::Starting })
        } else {
            r is AlreadyRunning
        },
        Command::Stop => if m.state is Running {
            r is Stopping
        } else {
            r is NotRunning
        },
    }
}

impl Monitor {
    /// Carries out one operator command sent by `recipient`.
    pub fn handle(&mut self, cmd: Command, recipient: i64) -> (r: Reply)
        ensures
            final(self)@ == after_command(old(self)@, cmd),
            reply_fits(old(self)@, cmd, recipient, r),
    {
        match cmd {
            Command::Help => Reply::Help,
            Command::Start => match self.start(recipient) {
                Ok(w) => Reply::Started(w),
                Err(_) => Reply::AlreadyRunning,
            },
            Command::Stop => match self.stop() {
                Ok(()) => Reply::Stopping,
                Err(_) => Reply::NotRunning,
            },
        }
    }
}

/// The status line that tells the operator how a command went; the list of
/// commands has none.
pub open spec fn status_spec(r: Reply) -> Option<Seq<char>> {
    match r {
        Reply::Help => None,
        Reply::Started(_) => Some("Monitor started."@),
        Reply::AlreadyRunning => Some("Monitor is already running."@),
        Reply::Stopping => Some("Monitor stopping."@),
        Reply::NotRunning => Some("Monitor is not running."@),
    }
}

impl Reply {
    pub fn status_text(&self) -> (r: Option<String>)
        ensures
            r is None <==> status_spec(*self) is None,
            r matches Some(t) ==> Some(t@) == status_spec(*self),
    {
        match self {
            Reply::Help => None,
            Reply::Started(_) => Some(String::from_str("Monitor started.")),
            Reply::AlreadyRunning => Some(String::from_str("Monitor is already running.")),
            Reply::Stopping => Some(String::from_str("Monitor stopping.")),
            Reply::NotRunning => Some(String::from_str("Monitor is not running.")),
        }
    }
}

impl ControlError {
    /// The status line for a refused command.
    pub fn message(&self) -> (r: String)
        ensures
            r@ == (match *self {
                ControlError::AlreadyRunning => "Monitor is already running."@,
                ControlError::NotRunning => "Monitor is not running."@,
            }),
    {
        match self {
            ControlError::AlreadyRunning => String::from_str("Monitor is already running."),
            ControlError::NotRunning => String::from_str("Monitor is not running."),
        }
    }
}

} // verus!
