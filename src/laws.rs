use vstd::prelude::*;

use crate::monitor::{DeliveryError, Event, MonitorModel, Phase, WorkerModel};
use crate::router::{after_command, Command};
use crate::signal::{CancelSignal, WaitOutcome, WaitPoll};

verus! {

/// A monitor together with every worker it has started, live or finished.
pub struct SystemModel {
    pub ctl: MonitorModel,
    pub workers: Seq<WorkerModel>,
}

/// One thing that can happen to the system: a command from the operator, or
/// an event handled by one of the workers.
pub enum Op {
    Control(Command, i64),
    Step(nat, Event),
}

pub open spec fn initial_system() -> SystemModel {
    SystemModel { ctl: MonitorModel::initial(), workers: Seq::empty() }
}

/// How many workers have not exited.
pub open spec fn live_count(ws: Seq<WorkerModel>) -> nat
    decreases ws.len(),
{
    if ws.len() == 0 {
        0
    } else {
        live_count(ws.drop_last()) + if ws.last().live() {
            1nat
        } else {
            0nat
        }
    }
}

/// The system after `op`. An event that the worker does not expect is not
/// handed to it.
pub open spec fn system_next(s: SystemModel, op: Op) -> SystemModel {
    match op {
        Op::Control(cmd, recipient) => SystemModel {
            ctl: after_command(s.ctl, cmd),
            workers: if cmd is Start && s.ctl.state is Stopped {
                s.workers.push(WorkerModel { recipient, phase: Phase::Starting })
            } else {
                s.workers
            },
        },
        Op::Step(i, ev) => if i < s.workers.len() && s.workers[i as int].expects(ev) {
            let (w, m) = s.workers[i as int].step(s.ctl, ev);
            SystemModel { ctl: m, workers: s.workers.update(i as int, w) }
        } else {
            s
        },
    }
}

/// The system after `ops`, in order, from `s`.
pub open spec fn run(s: SystemModel, ops: Seq<Op>) -> SystemModel
    decreases ops.len(),
{
    if ops.len() == 0 {
        s
    } else {
        system_next(run(s, ops.drop_last()), ops.last())
    }
}

/// One live worker while the monitor runs or stops, none while it is stopped.
pub open spec fn system_inv(s: SystemModel) -> bool {
    &&& s.ctl.wf()
    &&& live_count(s.workers) == if s.ctl.state is Stopped {
        0nat
    } else {
        1nat
    }
}

proof fn lemma_live_count_update(ws: Seq<WorkerModel>, i: int, w: WorkerModel)
    requires
        0 <= i < ws.len(),
    ensures
        live_count(ws.update(i, w)) + (if ws[i].live() { 1int } else { 0int })
            == live_count(ws) + (if w.live() { 1int } else { 0int }),
    decreases ws.len(),
{
    let u = ws.update(i, w);
    if i == ws.len() - 1 {
        assert(u.drop_last() =~= ws.drop_last());
    } else {
        lemma_live_count_update(ws.drop_last(), i, w);
        assert(u.drop_last() =~= ws.drop_last().update(i, w));
    }
}

proof fn lemma_live_count_push(ws: Seq<WorkerModel>, w: WorkerModel)
    ensures
        live_count(ws.push(w)) == live_count(ws) + if w.live() {
            1nat
        } else {
            0nat
        },
{
    assert(ws.push(w).drop_last() =~= ws);
}

/// Every operation keeps exactly one live worker while the monitor runs or
/// stops and none while it is stopped; so at most one worker is ever live.
pub proof fn lemma_op_keeps_one_worker(s: SystemModel, op: Op)
    requires
        system_inv(s),
    ensures
        system_inv(system_next(s, op)),
        live_count(system_next(s, op).workers) <= 1,
{
    match op {
        Op::Control(cmd, recipient) => {
            if cmd is Start && s.ctl.state is Stopped {
                lemma_live_count_push(s.workers, WorkerModel { recipient, phase: Phase::Starting });
            }
        },
        Op::Step(i, ev) => {
            if i < s.workers.len() && s.workers[i as int].expects(ev) {
                let (w, m) = s.workers[i as int].step(s.ctl, ev);
                lemma_live_count_update(s.workers, i as int, w);
            }
        },
    }
}

/// Whatever commands arrive and whatever the workers meet, in any order, at
/// most one worker is live at a time.
pub proof fn lemma_at_most_one_worker(ops: Seq<Op>)
    ensures
        system_inv(run(initial_system(), ops)),
        live_count(run(initial_system(), ops).workers) <= 1,
    decreases ops.len(),
{
    if ops.len() == 0 {
    } else {
        lemma_at_most_one_worker(ops.drop_last());
        lemma_op_keeps_one_worker(run(initial_system(), ops.drop_last()), ops.last());
    }
}

/// Events a stopping worker may still handle before it exits.
pub open spec fn stop_distance(w: WorkerModel) -> nat {
    match w.phase {
        Phase::Probing => 2,
        Phase::Notifying => 1,
        _ => 0,
    }
}

/// Once a stop is under way, every event the worker handles either ends the
/// loop, leaving the monitor stopped, or brings it nearer to that end: at
/// most the probe in flight, its notification and one look at the wait,
/// which ends at once whether or not its interval has run out.
pub proof fn lemma_stop_completes(w: WorkerModel, m: MonitorModel, ev: Event)
    requires
        m.wf(),
        m.state is Stopping,
        w.live(),
        w.expects(ev),
    ensures
        stop_distance(w) <= 2,
        ({
            let (w2, m2) = w.step(m, ev);
            ||| !w2.live() && m2.state is Stopped
            ||| m2 == m && w2.live() && stop_distance(w2) < stop_distance(w)
        }),
{
}

/// A stop under way is not undone: no command takes the monitor out of
/// stopping; only its worker's exit does.
pub proof fn lemma_stopping_holds(m: MonitorModel, cmd: Command)
    requires
        m.state is Stopping,
    ensures
        after_command(m, cmd) == m,
{
}

/// A probe with empty output asks for no notification; one with output asks
/// for exactly one, after which the worker goes to its wait.
pub proof fn lemma_one_notification_per_cycle(
    w: WorkerModel,
    m: MonitorModel,
    out: Vec<u8>,
    delivery: Result<(), DeliveryError>,
    elapsed: bool,
)
    requires
        w.phase is Probing,
    ensures
        w.notifies(Event::ProbeDone(Ok(out))) <==> out@.len() > 0,
        ({
            let (w1, m1) = w.step(m, Event::ProbeDone(Ok(out)));
            &&& out@.len() > 0 ==> {
                &&& w1.phase is Notifying
                &&& !w1.notifies(Event::NotifyDone(delivery))
                &&& w1.step(m1, Event::NotifyDone(delivery)).0.phase is Waiting
            }
            &&& out@.len() == 0 ==> w1.phase is Waiting
        }),
        !w.with_phase(Phase::Waiting).notifies(Event::WaitCheck { elapsed }),
{
}

/// The signal after `times` raises in a row.
pub open spec fn raised(s: CancelSignal, times: nat) -> CancelSignal
    decreases times,
{
    if times == 0 {
        s
    } else {
        raised(s, (times - 1) as nat).notified()
    }
}

/// A signal raised, once or several times, before a wait begins ends that
/// wait on its first look; the raises coalesce, so the next wait is not cut
/// short by them.
pub proof fn lemma_signal_before_wait(s: CancelSignal, times: nat, elapsed: bool)
    requires
        times >= 1,
    ensures
        raised(s, times).poll_spec(elapsed) == WaitPoll::Ready(WaitOutcome::Cancelled),
        raised(s, times).after_poll().poll_spec(false) == WaitPoll::Pending,
{
    assert(raised(s, times) == raised(s, (times - 1) as nat).notified());
}

} // verus!
