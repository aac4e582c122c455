//! The actor capability, the producer-side handle (`ActorRef`), and the
//! processing-loop container that binds one actor instance to the consumer
//! side of its mailbox.
//!
//! The container keeps two ghost logs: the messages admitted into the mailbox
//! (`sent`) and the messages the actor has handled (`delivered`). Its
//! well-formedness invariant, `sent == delivered + pending`, is the FIFO
//! guarantee: messages are handled in exactly their admission order, none
//! dropped and none duplicated.

use vstd::prelude::*;

use crate::mailbox::Mailbox;
use crate::mailbox::MAILBOX_CAPACITY;
use crate::message::Message;
use crate::system::ActorSystem;

verus! {

/// The capability every actor type implements: the message type it consumes,
/// a stable identity used for diagnostics, and a handler invoked once per
/// received message. Handling one message never changes the identity.
pub trait Actor: Sized {
    type Message: Message;

    /// The identity token as an abstract value.
    spec fn id_spec(&self) -> Seq<char>;

    /// The handler's effect on the actor's private state, as a function of
    /// the state and the one message consumed.
    spec fn step_spec(&self, msg: Self::Message) -> Self;

    /// Returns the actor's stable identity.
    fn id(&self) -> (r: &str)
        ensures
            r@ == self.id_spec(),
    ;

    /// Consumes one message and mutates the actor's private state. Runs to
    /// completion before the next message for the same actor is dequeued,
    /// and never changes the actor's identity.
    fn handle(&mut self, msg: Self::Message)
        ensures
            *final(self) == old(self).step_spec(msg),
            final(self).id_spec() == old(self).id_spec(),
    ;
}

/// The state an actor reaches by handling each message of `msgs` in order,
/// starting from `a`.
pub open spec fn run_steps<A: Actor>(a: A, msgs: Seq<A::Message>) -> A
    decreases msgs.len(),
{
    if msgs.len() == 0 {
        a
    } else {
        run_steps(a.step_spec(msgs[0]), msgs.skip(1))
    }
}

/// The error returned by a send whose target mailbox is closed: the
/// undelivered message is handed back to the caller, so nothing is lost.
#[derive(Debug)]
pub struct SendError<M: Message>(pub M);

/// A shared, cloneable producer handle bound to exactly one actor's mailbox.
/// It carries no actor state, only the send capability; the message type it
/// accepts is fixed by the type of the system that issued it.
#[derive(Clone, Copy)]
pub struct ActorRef {
    index: usize,
}

impl ActorRef {
    /// The position of the bound actor among the containers its system runs.
    pub closed spec fn target(self) -> int {
        self.index as int
    }

    pub(crate) fn new(index: usize) -> (r: Self)
        ensures
            r.target() == index,
    {
        ActorRef { index }
    }

    pub(crate) fn index(&self) -> (i: usize)
        ensures
            i == self.target(),
    {
        self.index
    }

    /// Whether this handle is bound to an actor of the given system.
    pub open spec fn bound_to<A: Actor>(self, system: ActorSystem<A>) -> bool {
        0 <= self.target() < system.containers().len()
    }

    /// Enqueues `msg` in the bound actor's mailbox. If the mailbox is at
    /// capacity the sender waits: the oldest pending message is handled
    /// first, then `msg` is admitted, so admission never drops or reorders.
    /// If the mailbox is closed the message comes back in the error and the
    /// system is left unchanged. No other actor is touched in either case.
    pub fn send<A: Actor>(&self, system: &mut ActorSystem<A>, msg: A::Message) -> (r: Result<
        (),
        SendError<A::Message>,
    >)
        requires
            old(system).wf(),
            self.bound_to(*old(system)),
        ensures
            final(system).wf(),
            final(system).containers().len() == old(system).containers().len(),
            forall|j: int|
                0 <= j < old(system).containers().len() && j != self.target()
                    ==> final(system).containers()[j] == old(system).containers()[j],
            enqueue_outcome(
                old(system).containers()[self.target()],
                final(system).containers()[self.target()],
                msg,
                r,
            ),
    {
        system.send_to(self.index, msg)
    }
}

impl<M: Message> SendError<M> {
    /// Takes the undelivered message back out of the error.
    pub fn into_message(self) -> (m: M)
        ensures
            m == self.0,
    {
        self.0
    }
}

/// Binds exactly one actor instance to the consumer side of one mailbox and
/// runs the processing loop: dequeue the next message, invoke the actor's
/// handler, repeat. 1:1 with the actor; never shared, never cloned.
pub struct ActorContainer<A: Actor> {
    actor: A,
    mailbox: Mailbox<A::Message>,
    finished: bool,
    sent: Ghost<Seq<A::Message>>,
    delivered: Ghost<Seq<A::Message>>,
}

/// How one admission changes a container: on a closed mailbox the message
/// comes back in the error and nothing changes; on an open one the message is
/// admitted at the back, after the oldest pending message was handled first
/// if the queue was at capacity.
pub open spec fn enqueue_outcome<A: Actor>(
    c0: ActorContainer<A>,
    c1: ActorContainer<A>,
    msg: A::Message,
    r: Result<(), SendError<A::Message>>,
) -> bool {
    if c0.is_closed() {
        &&& r == Err::<(), SendError<A::Message>>(SendError(msg))
        &&& c1 == c0
    } else {
        &&& r == Ok::<(), SendError<A::Message>>(())
        &&& c1.sent() == c0.sent().push(msg)
        &&& !c1.is_closed()
        &&& !c1.is_finished()
        &&& c1.actor_id() == c0.actor_id()
        &&& (c0.pending().len() < MAILBOX_CAPACITY ==> {
            &&& c1.delivered() == c0.delivered()
            &&& c1.pending() == c0.pending().push(msg)
            &&& c1.actor_state() == c0.actor_state()
        })
        &&& (c0.pending().len() == MAILBOX_CAPACITY ==> {
            &&& c1.delivered() == c0.delivered().push(c0.pending()[0])
            &&& c1.pending() == c0.pending().skip(1).push(msg)
            &&& c1.actor_state() == c0.actor_state().step_spec(c0.pending()[0])
        })
    }
}

impl<A: Actor> ActorContainer<A> {
    /// Every message ever admitted into the mailbox, in admission order.
    pub closed spec fn sent(self) -> Seq<A::Message> {
        self.sent@
    }

    /// Every message the actor has handled, in handling order.
    pub closed spec fn delivered(self) -> Seq<A::Message> {
        self.delivered@
    }

    /// The messages still waiting in the mailbox, oldest first.
    pub closed spec fn pending(self) -> Seq<A::Message> {
        self.mailbox.pending()
    }

    /// Whether the mailbox has been closed.
    pub closed spec fn is_closed(self) -> bool {
        self.mailbox.is_closed()
    }

    /// Whether the processing loop has terminated.
    pub closed spec fn is_finished(self) -> bool {
        self.finished
    }

    /// The actor instance this loop owns.
    pub closed spec fn actor_state(self) -> A {
        self.actor
    }

    /// The owned actor's identity.
    pub open spec fn actor_id(self) -> Seq<char> {
        self.actor_state().id_spec()
    }

    /// The container invariant: the queue respects its capacity, admission
    /// order equals delivery order (`sent == delivered + pending`), and a
    /// terminated loop has a closed, drained mailbox.
    pub open spec fn wf(self) -> bool {
        &&& self.pending().len() <= MAILBOX_CAPACITY
        &&& self.sent() == self.delivered() + self.pending()
        &&& (self.is_finished() ==> self.is_closed() && self.pending().len() == 0)
    }

    /// Binds a fresh actor instance to the consumer side of a fresh mailbox.
    pub fn new(actor: A, mailbox: Mailbox<A::Message>) -> (c: Self)
        requires
            mailbox.wf(),
            !mailbox.is_closed(),
            mailbox.pending().len() == 0,
        ensures
            c.wf(),
            c.actor_state() == actor,
            c.sent() == Seq::<A::Message>::empty(),
            c.delivered() == Seq::<A::Message>::empty(),
            c.pending().len() == 0,
            !c.is_closed(),
            !c.is_finished(),
    {
        let c = ActorContainer {
            actor,
            mailbox,
            finished: false,
            sent: Ghost(Seq::empty()),
            delivered: Ghost(Seq::empty()),
        };
        proof {
            assert(c.sent() =~= c.delivered() + c.pending());
        }
        c
    }

    /// Admits one message, handling the oldest pending one first when the
    /// queue is at capacity; on a closed mailbox the message comes back.
    pub fn enqueue(&mut self, msg: A::Message) -> (r: Result<(), SendError<A::Message>>)
        requires
            old(self).wf(),
        ensures
            final(self).wf(),
            enqueue_outcome(*old(self), *final(self), msg, r),
    {
        if self.mailbox.closed() {
            return Err(SendError(msg));
        }
        if self.mailbox.is_full() {
            self.deliver_next();
        }
        self.mailbox.push_back(msg);
        self.sent = Ghost(self.sent@.push(msg));
        proof {
            assert(self.sent() =~= self.delivered() + self.pending());
        }
        Ok(())
    }

    /// Dequeues the oldest pending message and invokes the actor's handler
    /// on it, to completion.
    pub fn deliver_next(&mut self)
        requires
            old(self).wf(),
            old(self).pending().len() > 0,
        ensures
            final(self).wf(),
            final(self).sent() == old(self).sent(),
            final(self).delivered() == old(self).delivered().push(old(self).pending()[0]),
            final(self).pending() == old(self).pending().skip(1),
            final(self).is_closed() == old(self).is_closed(),
            final(self).is_finished() == old(self).is_finished(),
            final(self).actor_id() == old(self).actor_id(),
            final(self).actor_state() == old(self).actor_state().step_spec(old(self).pending()[0]),
    {
        let msg = self.mailbox.pop_front();
        self.delivered = Ghost(self.delivered@.push(msg));
        self.actor.handle(msg);
        proof {
            assert(self.sent() =~= self.delivered() + self.pending());
        }
    }

    /// The processing loop: handles pending messages in order until the
    /// mailbox is empty, then terminates if the mailbox is closed.
    pub fn run(&mut self)
        requires
            old(self).wf(),
        ensures
            final(self).wf(),
            final(self).sent() == old(self).sent(),
            final(self).delivered() == old(self).delivered() + old(self).pending(),
            final(self).pending().len() == 0,
            final(self).is_closed() == old(self).is_closed(),
            final(self).is_finished() == (old(self).is_finished() || old(self).is_closed()),
            final(self).actor_id() == old(self).actor_id(),
            final(self).actor_state() == run_steps(old(self).actor_state(), old(self).pending()),
    {
        let ghost sent0 = self.sent();
        let ghost log0 = self.delivered() + self.pending();
        let ghost closed0 = self.is_closed();
        let ghost finished0 = self.is_finished();
        let ghost id0 = self.actor_id();
        let ghost target0 = run_steps(self.actor_state(), self.pending());
        while !self.mailbox.is_empty()
            invariant
                self.wf(),
                self.sent() == sent0,
                self.is_closed() == closed0,
                self.is_finished() == finished0,
                self.actor_id() == id0,
                self.delivered() + self.pending() == log0,
                run_steps(self.actor_state(), self.pending()) == target0,
            decreases self.pending().len(),
        {
            let ghost before = self.delivered() + self.pending();
            let ghost a_before = self.actor_state();
            let ghost p_before = self.pending();
            self.deliver_next();
            proof {
                assert(self.delivered() + self.pending() =~= before);
                assert(run_steps(a_before, p_before) == run_steps(
                    self.actor_state(),
                    self.pending(),
                ));
            }
        }
        proof {
            assert(self.delivered() =~= self.delivered() + self.pending());
            assert(run_steps(self.actor_state(), self.pending()) == self.actor_state());
        }
        if self.mailbox.closed() {
            self.finished = true;
        }
    }

    /// Closes the mailbox: pending messages stay and will still be handled,
    /// but every later admission fails.
    pub fn close_mailbox(&mut self)
        requires
            old(self).wf(),
        ensures
            final(self).wf(),
            final(self).sent() == old(self).sent(),
            final(self).delivered() == old(self).delivered(),
            final(self).pending() == old(self).pending(),
            final(self).is_closed(),
            final(self).is_finished() == old(self).is_finished(),
            final(self).actor_state() == old(self).actor_state(),
    {
        self.mailbox.close();
    }

    /// Read access to the owned actor.
    pub fn actor(&self) -> (a: &A)
        ensures
            *a == self.actor_state(),
    {
        &self.actor
    }

    /// How many messages wait in the mailbox.
    pub fn pending_len(&self) -> (n: usize)
        ensures
            n == self.pending().len(),
    {
        self.mailbox.len()
    }

    /// Whether the mailbox has been closed.
    pub fn closed(&self) -> (b: bool)
        ensures
            b == self.is_closed(),
    {
        self.mailbox.closed()
    }

    /// Whether the processing loop has terminated.
    pub fn finished(&self) -> (b: bool)
        ensures
            b == self.is_finished(),
    {
        self.finished
    }
}

/// FIFO per actor: in a well-formed container the handled messages are
/// exactly the first `delivered().len()` admitted ones, in admission order.
pub proof fn lemma_fifo_per_actor<A: Actor>(c: ActorContainer<A>)
    requires
        c.wf(),
    ensures
        c.delivered().len() <= c.sent().len(),
        c.delivered() == c.sent().take(c.delivered().len() as int),
        forall|i: int| 0 <= i < c.delivered().len() ==> c.delivered()[i] == c.sent()[i],
{
    assert(c.delivered() =~= c.sent().take(c.delivered().len() as int));
}

/// Closed-mailbox error: once a processing loop has terminated, any further
/// admission fails with the closed error, the undelivered message comes back
/// in it, and the container is left exactly as it was.
pub proof fn lemma_send_after_termination_fails<A: Actor>(
    c0: ActorContainer<A>,
    c1: ActorContainer<A>,
    msg: A::Message,
    r: Result<(), SendError<A::Message>>,
)
    requires
        c0.wf(),
        c0.is_finished(),
        enqueue_outcome(c0, c1, msg, r),
    ensures
        r == Err::<(), SendError<A::Message>>(SendError(msg)),
        c1 == c0,
{
}

/// Backpressure correctness: admission beyond the mailbox capacity loses and
/// reorders nothing. In a well-formed container every admitted message was
/// either already handled or still waits in the queue, exactly once, and the
/// queue never exceeds its capacity.
pub proof fn lemma_no_message_lost<A: Actor>(c: ActorContainer<A>)
    requires
        c.wf(),
    ensures
        c.sent() == c.delivered() + c.pending(),
        c.sent().len() == c.delivered().len() + c.pending().len(),
        c.pending().len() <= MAILBOX_CAPACITY,
{
}

} // verus!
