//! The executor: the shared resource that admits processing loops and runs
//! them. It owns every admitted container and multiplexes their loops;
//! running one actor's loop never touches another actor's container, which
//! is the isolation guarantee of the runtime.

use vstd::prelude::*;

use crate::actor::Actor;
use crate::actor::ActorContainer;
use crate::actor::SendError;
use crate::actor::enqueue_outcome;
use crate::actor::run_steps;

verus! {

/// How running a processing loop to quiescence changes its container: every
/// message that was pending has been handled, in order, after the ones
/// already handled; nothing was admitted meanwhile; the loop terminates
/// exactly when its mailbox was closed.
pub open spec fn drained_from<A: Actor>(c1: ActorContainer<A>, c0: ActorContainer<A>) -> bool {
    &&& c1.wf()
    &&& c1.sent() == c0.sent()
    &&& c1.delivered() == c0.delivered() + c0.pending()
    &&& c1.pending().len() == 0
    &&& c1.is_closed() == c0.is_closed()
    &&& c1.is_finished() == (c0.is_finished() || c0.is_closed())
    &&& c1.actor_id() == c0.actor_id()
    &&& c1.actor_state() == run_steps(c0.actor_state(), c0.pending())
}

/// How a graceful shutdown changes a container: the mailbox is closed, every
/// message ever admitted has been handled, in admission order, and the loop
/// has terminated.
pub open spec fn shut_down_from<A: Actor>(c1: ActorContainer<A>, c0: ActorContainer<A>) -> bool {
    &&& c1.wf()
    &&& c1.sent() == c0.sent()
    &&& c1.delivered() == c0.sent()
    &&& c1.pending().len() == 0
    &&& c1.is_closed()
    &&& c1.is_finished()
    &&& c1.actor_id() == c0.actor_id()
    &&& c1.actor_state() == run_steps(c0.actor_state(), c0.pending())
}

/// Isolation: after a container whose actor had handled nothing is drained,
/// the actor's state is a function of exactly the messages admitted into its
/// own mailbox, in admission order — no other actor's traffic enters into it.
pub proof fn lemma_state_from_own_messages<A: Actor>(c0: ActorContainer<A>, c1: ActorContainer<A>)
    requires
        c0.wf(),
        c0.delivered() == Seq::<A::Message>::empty(),
        drained_from(c1, c0),
    ensures
        c1.actor_state() == run_steps(c0.actor_state(), c0.sent()),
{
    assert(c0.sent() =~= c0.pending());
}

/// Owns the pool that processing loops are admitted onto and runs them.
pub struct Executor<A: Actor> {
    containers: Vec<ActorContainer<A>>,
}

impl<A: Actor> Executor<A> {
    /// The admitted containers, in admission order.
    pub closed spec fn containers(self) -> Seq<ActorContainer<A>> {
        self.containers@
    }

    /// Every admitted container is well-formed.
    pub open spec fn wf(self) -> bool {
        forall|i: int|
            0 <= i < self.containers().len() ==> (#[trigger] self.containers()[i]).wf()
    }

    /// A fresh executor with nothing admitted.
    pub fn new() -> (e: Self)
        ensures
            e.wf(),
            e.containers().len() == 0,
    {
        Executor { containers: Vec::new() }
    }

    /// Admits a processing loop onto the pool. Returns at once with the
    /// loop's position, which serves as its task handle; admission never
    /// waits on mailbox activity.
    pub fn spawn(&mut self, container: ActorContainer<A>) -> (h: usize)
        requires
            old(self).wf(),
            container.wf(),
        ensures
            final(self).wf(),
            final(self).containers() == old(self).containers().push(container),
            h == old(self).containers().len(),
    {
        let h = self.containers.len();
        self.containers.push(container);
        proof {
            assert forall|i: int|
                0 <= i < self.containers().len() implies (#[trigger] self.containers()[i]).wf() by {
                if i < old(self).containers().len() {
                    assert(self.containers()[i] == old(self).containers()[i]);
                } else {
                    assert(self.containers()[i] == container);
                }
            }
        }
        h
    }

    /// Admits one message into the mailbox of the container at `index`,
    /// leaving every other container untouched.
    pub fn send_to(&mut self, index: usize, msg: A::Message) -> (r: Result<
        (),
        SendError<A::Message>,
    >)
        requires
            old(self).wf(),
            index < old(self).containers().len(),
        ensures
            final(self).wf(),
            final(self).containers().len() == old(self).containers().len(),
            forall|j: int|
                0 <= j < old(self).containers().len() && j != index
                    ==> final(self).containers()[j] == old(self).containers()[j],
            enqueue_outcome(
                old(self).containers()[index as int],
                final(self).containers()[index as int],
                msg,
                r,
            ),
    {
        let mut c = self.containers.remove(index);
        let r = c.enqueue(msg);
        let ghost cafter = c;
        self.containers.insert(index, c);
        proof {
            assert(self.containers@ =~= old(self).containers@.update(index as int, cafter));
        }
        r
    }

    /// Runs the processing loop of the container at `index` until its
    /// mailbox is empty, leaving every other container untouched.
    pub fn run_at(&mut self, index: usize)
        requires
            old(self).wf(),
            index < old(self).containers().len(),
        ensures
            final(self).wf(),
            final(self).containers().len() == old(self).containers().len(),
            forall|j: int|
                0 <= j < old(self).containers().len() && j != index
                    ==> final(self).containers()[j] == old(self).containers()[j],
            drained_from(
                final(self).containers()[index as int],
                old(self).containers()[index as int],
            ),
    {
        let mut c = self.containers.remove(index);
        c.run();
        let ghost cafter = c;
        self.containers.insert(index, c);
        proof {
            assert(self.containers@ =~= old(self).containers@.update(index as int, cafter));
        }
    }

    /// Runs every admitted processing loop until its mailbox is empty.
    pub fn run_all(&mut self)
        requires
            old(self).wf(),
        ensures
            final(self).wf(),
            final(self).containers().len() == old(self).containers().len(),
            forall|j: int|
                0 <= j < old(self).containers().len()
                    ==> drained_from(
                    #[trigger] final(self).containers()[j],
                    old(self).containers()[j],
                ),
    {
        let n = self.containers.len();
        let ghost cs0 = self.containers@;
        let mut i: usize = 0;
        while i < n
            invariant
                n == cs0.len(),
                i <= n,
                self.containers@.len() == n,
                forall|j: int| 0 <= j < n ==> (#[trigger] cs0[j]).wf(),
                forall|j: int| 0 <= j < i ==> drained_from(#[trigger] self.containers@[j], cs0[j]),
                forall|j: int| i <= j < n ==> #[trigger] self.containers@[j] == cs0[j],
            decreases n - i,
        {
            let ghost prev = self.containers@;
            let mut c = self.containers.remove(i);
            c.run();
            let ghost cafter = c;
            self.containers.insert(i, c);
            proof {
                assert(self.containers@ =~= prev.update(i as int, cafter));
            }
            i += 1;
        }
    }

    /// Graceful shutdown: closes every mailbox, then runs every loop until
    /// it has drained and terminated. Every message admitted before the
    /// shutdown is still handled, in admission order.
    pub fn shutdown_all(&mut self)
        requires
            old(self).wf(),
        ensures
            final(self).wf(),
            final(self).containers().len() == old(self).containers().len(),
            forall|j: int|
                0 <= j < old(self).containers().len()
                    ==> shut_down_from(
                    #[trigger] final(self).containers()[j],
                    old(self).containers()[j],
                ),
    {
        let n = self.containers.len();
        let ghost cs0 = self.containers@;
        let mut i: usize = 0;
        while i < n
            invariant
                n == cs0.len(),
                i <= n,
                self.containers@.len() == n,
                forall|j: int| 0 <= j < n ==> (#[trigger] cs0[j]).wf(),
                forall|j: int| 0 <= j < i ==> shut_down_from(#[trigger] self.containers@[j], cs0[j]),
                forall|j: int| i <= j < n ==> #[trigger] self.containers@[j] == cs0[j],
            decreases n - i,
        {
            let ghost prev = self.containers@;
            let mut c = self.containers.remove(i);
            c.close_mailbox();
            c.run();
            let ghost cafter = c;
            self.containers.insert(i, c);
            proof {
                assert(self.containers@ =~= prev.update(i as int, cafter));
            }
            i += 1;
        }
    }

    /// How many containers have been admitted.
    pub fn container_count(&self) -> (n: usize)
        ensures
            n == self.containers().len(),
    {
        self.containers.len()
    }

    /// Read access to the container at `index`.
    pub fn container_at(&self, index: usize) -> (c: &ActorContainer<A>)
        requires
            index < self.containers().len(),
        ensures
            *c == self.containers()[index as int],
    {
        &self.containers[index]
    }
}

} // verus!
