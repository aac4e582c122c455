//! Sample workload actors: workers that accumulate units of work handed to
//! them, and a manager that accumulates completion reports. A tagged-variant
//! actor lets one system run workers and a manager side by side, since each
//! actor type is bound to exactly one message type.

use vstd::prelude::*;

use crate::actor::Actor;
use crate::message::Message;

verus! {

/// A unit of work for a worker: the amount to process.
#[derive(Debug)]
pub struct Work(pub u64);

/// A completion report for the manager: the amount finished.
#[derive(Debug)]
pub struct WorkComplete(pub u64);

impl Message for Work {}

impl Message for WorkComplete {}

/// The figure a worker computes for `n` units of work: the sum of the
/// squares below `n`, with wrapping arithmetic throughout.
pub open spec fn work_result_spec(n: int) -> u64
    decreases n,
{
    if n <= 0 {
        0u64
    } else {
        work_result_spec(n - 1).wrapping_add(((n - 1) as u64).wrapping_mul((n - 1) as u64))
    }
}

/// Computes the worker's figure for `amount` units of work.
pub fn work_result(amount: u64) -> (r: u64)
    ensures
        r == work_result_spec(amount as int),
{
    let mut acc: u64 = 0;
    let mut x: u64 = 0;
    while x < amount
        invariant
            x <= amount,
            acc == work_result_spec(x as int),
        decreases amount - x,
    {
        acc = acc.wrapping_add(x.wrapping_mul(x));
        x = x + 1;
    }
    acc
}

/// An actor that processes `Work` messages, accumulating the amounts it has
/// worked off.
pub struct WorkerActor {
    pub id: String,
    pub work_done: u64,
}

impl Actor for WorkerActor {
    type Message = Work;

    open spec fn id_spec(&self) -> Seq<char> {
        self.id@
    }

    open spec fn step_spec(&self, msg: Work) -> WorkerActor {
        WorkerActor { id: self.id, work_done: self.work_done.wrapping_add(msg.0) }
    }

    fn id(&self) -> (r: &str)
        ensures
            r@ == self.id_spec(),
    {
        self.id.as_str()
    }

    fn handle(&mut self, msg: Work)
        ensures
            *final(self) == old(self).step_spec(msg),
            final(self).id_spec() == old(self).id_spec(),
    {
        self.work_done = self.work_done.wrapping_add(msg.0);
    }
}

/// An actor that processes `WorkComplete` reports, accumulating the total
/// amount of work done across all workers.
pub struct ManagerActor {
    pub id: String,
    pub total_work: u64,
}

impl Actor for ManagerActor {
    type Message = WorkComplete;

    open spec fn id_spec(&self) -> Seq<char> {
        self.id@
    }

    open spec fn step_spec(&self, msg: WorkComplete) -> ManagerActor {
        ManagerActor { id: self.id, total_work: self.total_work.wrapping_add(msg.0) }
    }

    fn id(&self) -> (r: &str)
        ensures
            r@ == self.id_spec(),
    {
        self.id.as_str()
    }

    fn handle(&mut self, msg: WorkComplete)
        ensures
            *final(self) == old(self).step_spec(msg),
            final(self).id_spec() == old(self).id_spec(),
    {
        self.total_work = self.total_work.wrapping_add(msg.0);
    }
}

/// A message for a tagged-variant actor: either a unit of work or a
/// completion report.
#[derive(Debug)]
pub enum WorkloadMessage {
    Work(Work),
    WorkComplete(WorkComplete),
}

impl Message for WorkloadMessage {}

/// A tagged-variant actor, so that workers and a manager — each bound to its
/// own message type — can run side by side in one system. A message of the
/// kind the wrapped actor does not consume is ignored.
pub enum WorkloadActor {
    Worker(WorkerActor),
    Manager(ManagerActor),
}

impl Actor for WorkloadActor {
    type Message = WorkloadMessage;

    open spec fn id_spec(&self) -> Seq<char> {
        match self {
            WorkloadActor::Worker(w) => w.id_spec(),
            WorkloadActor::Manager(m) => m.id_spec(),
        }
    }

    open spec fn step_spec(&self, msg: WorkloadMessage) -> WorkloadActor {
        match (self, msg) {
            (WorkloadActor::Worker(w), WorkloadMessage::Work(m)) => WorkloadActor::Worker(
                w.step_spec(m),
            ),
            (WorkloadActor::Manager(a), WorkloadMessage::WorkComplete(m)) => WorkloadActor::Manager(
                a.step_spec(m),
            ),
            _ => *self,
        }
    }

    fn id(&self) -> (r: &str)
        ensures
            r@ == self.id_spec(),
    {
        match self {
            WorkloadActor::Worker(w) => w.id(),
            WorkloadActor::Manager(m) => m.id(),
        }
    }

    fn handle(&mut self, msg: WorkloadMessage)
        ensures
            *final(self) == old(self).step_spec(msg),
            final(self).id_spec() == old(self).id_spec(),
    {
        match self {
            WorkloadActor::Worker(w) => {
                match msg {
                    WorkloadMessage::Work(m) => w.handle(m),
                    WorkloadMessage::WorkComplete(_) => (),
                }
            },
            WorkloadActor::Manager(a) => {
                match msg {
                    WorkloadMessage::WorkComplete(m) => a.handle(m),
                    WorkloadMessage::Work(_) => (),
                }
            },
        }
    }
}

} // verus!
