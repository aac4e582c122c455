//! The actor-system facade. It owns the executor, exposes actor creation —
//! which wires a fresh mailbox to a fresh processing loop and hands back the
//! producer handle — and offers a graceful shutdown that closes every
//! mailbox and drains every loop.

use vstd::prelude::*;

use crate::actor::Actor;
use crate::actor::ActorContainer;
use crate::actor::ActorRef;
use crate::actor::SendError;
use crate::actor::enqueue_outcome;
use crate::executor::Executor;
use crate::executor::drained_from;
use crate::executor::shut_down_from;
use crate::mailbox::Mailbox;

verus! {

/// The facade over one executor; all actors created through one system
/// share that executor.
pub struct ActorSystem<A: Actor> {
    executor: Executor<A>,
}

impl<A: Actor> ActorSystem<A> {
    /// The processing-loop containers of the actors this system runs, in
    /// creation order.
    pub closed spec fn containers(self) -> Seq<ActorContainer<A>> {
        self.executor.containers()
    }

    /// How many actors have been created through this system.
    pub open spec fn actor_count(self) -> nat {
        self.containers().len()
    }

    /// Every container of the system is well-formed.
    pub open spec fn wf(self) -> bool {
        forall|i: int|
            0 <= i < self.containers().len() ==> (#[trigger] self.containers()[i]).wf()
    }

    /// Constructs a system with a fresh executor and no actors.
    pub fn new() -> (s: Self)
        ensures
            s.wf(),
            s.actor_count() == 0,
    {
        ActorSystem { executor: Executor::new() }
    }

    /// Allocates a bounded mailbox, binds the actor instance to its consumer
    /// side in a fresh processing loop, admits the loop onto the executor,
    /// and returns the producer handle. This is the only way to obtain an
    /// `ActorRef`.
    pub fn create_actor(&mut self, actor: A) -> (r: ActorRef)
        requires
            old(self).wf(),
        ensures
            final(self).wf(),
            final(self).actor_count() == old(self).actor_count() + 1,
            forall|j: int|
                0 <= j < old(self).containers().len()
                    ==> final(self).containers()[j] == old(self).containers()[j],
            r.target() == old(self).actor_count(),
            r.bound_to(*final(self)),
            final(self).containers()[r.target()].actor_state() == actor,
            final(self).containers()[r.target()].sent() == Seq::<A::Message>::empty(),
            final(self).containers()[r.target()].delivered() == Seq::<A::Message>::empty(),
            final(self).containers()[r.target()].pending().len() == 0,
            !final(self).containers()[r.target()].is_closed(),
            !final(self).containers()[r.target()].is_finished(),
    {
        let mailbox = Mailbox::new();
        let container = ActorContainer::new(actor, mailbox);
        let index = self.executor.spawn(container);
        ActorRef::new(index)
    }

    /// Admits one message into the mailbox bound to `index`; the verified
    /// entry point for `ActorRef::send`.
    pub(crate) fn send_to(&mut self, index: usize, msg: A::Message) -> (r: Result<
        (),
        SendError<A::Message>,
    >)
        requires
            old(self).wf(),
            index < old(self).containers().len(),
        ensures
            final(self).wf(),
            final(self).containers().len() == old(self).containers().len(),
            forall|j: int|
                0 <= j < old(self).containers().len() && j != index
                    ==> final(self).containers()[j] == old(self).containers()[j],
            enqueue_outcome(
                old(self).containers()[index as int],
                final(self).containers()[index as int],
                msg,
                r,
            ),
    {
        self.executor.send_to(index, msg)
    }

    /// Runs the processing loop of the actor `r` is bound to until its
    /// mailbox is empty. Every other actor's container is untouched.
    pub fn run_actor(&mut self, r: &ActorRef)
        requires
            old(self).wf(),
            r.bound_to(*old(self)),
        ensures
            final(self).wf(),
            final(self).actor_count() == old(self).actor_count(),
            forall|j: int|
                0 <= j < old(self).containers().len() && j != r.target()
                    ==> final(self).containers()[j] == old(self).containers()[j],
            drained_from(
                final(self).containers()[r.target()],
                old(self).containers()[r.target()],
            ),
    {
        self.executor.run_at(r.index());
    }

    /// Runs every actor's processing loop until its mailbox is empty.
    pub fn drain(&mut self)
        requires
            old(self).wf(),
        ensures
            final(self).wf(),
            final(self).actor_count() == old(self).actor_count(),
            forall|j: int|
                0 <= j < old(self).containers().len()
                    ==> drained_from(
                    #[trigger] final(self).containers()[j],
                    old(self).containers()[j],
                ),
    {
        self.executor.run_all();
    }

    /// Graceful shutdown: closes every mailbox, then drains every loop to
    /// termination. Afterwards every message ever admitted has been handled,
    /// in admission order, and every later send fails with the closed error.
    pub fn shutdown(&mut self)
        requires
            old(self).wf(),
        ensures
            final(self).wf(),
            final(self).actor_count() == old(self).actor_count(),
            forall|j: int|
                0 <= j < old(self).containers().len()
                    ==> shut_down_from(
                    #[trigger] final(self).containers()[j],
                    old(self).containers()[j],
                ),
    {
        self.executor.shutdown_all();
    }

    /// Read access to the actor instance `r` is bound to. The runtime itself
    /// never reads an actor's state; this accessor is for the quiescent
    /// system, after its loops have drained.
    pub fn actor(&self, r: &ActorRef) -> (a: &A)
        requires
            r.bound_to(*self),
        ensures
            *a == self.containers()[r.target()].actor_state(),
    {
        self.executor.container_at(r.index()).actor()
    }

    /// How many actors have been created, as an executable count.
    pub fn len(&self) -> (n: usize)
        ensures
            n == self.actor_count(),
    {
        self.executor.container_count()
    }

    /// How many messages wait in the mailbox of the actor `r` is bound to.
    pub fn mailbox_len(&self, r: &ActorRef) -> (n: usize)
        requires
            r.bound_to(*self),
        ensures
            n == self.containers()[r.target()].pending().len(),
    {
        self.executor.container_at(r.index()).pending_len()
    }

    /// Whether the processing loop of the actor `r` is bound to has
    /// terminated; afterwards every send to it fails with the closed error.
    pub fn is_terminated(&self, r: &ActorRef) -> (b: bool)
        requires
            r.bound_to(*self),
        ensures
            b == self.containers()[r.target()].is_finished(),
    {
        self.executor.container_at(r.index()).finished()
    }
}

} // verus!
