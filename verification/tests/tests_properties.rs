use actor_system::Actor;
use actor_system::ActorSystem;
use actor_system::MAILBOX_CAPACITY;
use actor_system::ManagerActor;
use actor_system::Message;
use actor_system::Work;
use actor_system::WorkComplete;
use actor_system::WorkerActor;

#[derive(Debug)]
struct Tick(u64);

impl Message for Tick {}

/// An actor that appends every received integer to a log, to observe the
/// order in which messages are handled.
struct LogActor {
    name: String,
    log: Vec<u64>,
}

impl Actor for LogActor {
    type Message = Tick;

    // The trait's ghost items are erased from every call site, so these two
    // bodies can never run; they only complete the impl.
    fn id_spec(&self) -> vstd::seq::Seq<char> {
        unreachable!()
    }

    fn step_spec(&self, _msg: Tick) -> LogActor {
        unreachable!()
    }

    fn id(&self) -> &str {
        self.name.as_str()
    }

    fn handle(&mut self, msg: Tick) {
        self.log.push(msg.0);
    }
}

#[test]
fn test_fifo_per_actor() {
    let mut system = ActorSystem::new();
    let r = system.create_actor(LogActor { name: String::from("log"), log: Vec::new() });
    for i in 1..=50u64 {
        r.send(&mut system, Tick(i)).expect("send should succeed on an open mailbox");
    }
    system.drain();
    let expected: Vec<u64> = (1..=50).collect();
    assert_eq!(system.actor(&r).log, expected);
}

#[test]
fn test_backpressure_loses_nothing() {
    let mut system = ActorSystem::new();
    let r = system.create_actor(LogActor { name: String::from("log"), log: Vec::new() });
    let count = MAILBOX_CAPACITY as u64 + 50;
    for i in 1..=count {
        r.send(&mut system, Tick(i)).expect("send should succeed on an open mailbox");
    }
    // The queue is saturated: admission beyond capacity waited for delivery.
    assert_eq!(system.mailbox_len(&r), MAILBOX_CAPACITY);
    assert_eq!(system.actor(&r).log.len(), 50);
    system.drain();
    let expected: Vec<u64> = (1..=count).collect();
    assert_eq!(system.actor(&r).log, expected);
}

#[test]
fn test_closed_mailbox_error() {
    let mut system = ActorSystem::new();
    let r = system.create_actor(ManagerActor { id: String::from("m"), total_work: 0 });
    r.send(&mut system, WorkComplete(1)).unwrap();
    system.shutdown();
    assert!(system.is_terminated(&r));
    let err = r.send(&mut system, WorkComplete(7)).expect_err("send to a closed mailbox must fail");
    assert_eq!(err.into_message().0, 7);
    // The message handled before the shutdown still counted; the failed one
    // did not.
    assert_eq!(system.actor(&r).total_work, 1);
}

#[test]
fn test_isolation_between_actors() {
    let mut system = ActorSystem::new();
    let a = system.create_actor(LogActor { name: String::from("a"), log: Vec::new() });
    let b = system.create_actor(LogActor { name: String::from("b"), log: Vec::new() });
    for i in 1..=3u64 {
        a.send(&mut system, Tick(i)).unwrap();
        b.send(&mut system, Tick(i * 10)).unwrap();
    }
    system.run_actor(&a);
    assert_eq!(system.actor(&a).log, vec![1, 2, 3]);
    assert_eq!(system.actor(&b).log.len(), 0, "running one actor must not touch another");
    assert_eq!(system.mailbox_len(&b), 3);
    system.drain();
    assert_eq!(system.actor(&b).log, vec![10, 20, 30]);
}

#[test]
fn test_id_stable_across_lifetime() {
    let mut system = ActorSystem::new();
    let r = system.create_actor(WorkerActor { id: String::from("worker_0"), work_done: 0 });
    assert_eq!(system.actor(&r).id(), "worker_0");
    for _ in 0..10 {
        r.send(&mut system, Work(2)).unwrap();
    }
    system.drain();
    assert_eq!(system.actor(&r).id(), "worker_0");
    assert_eq!(system.actor(&r).work_done, 20);
    system.shutdown();
    assert_eq!(system.actor(&r).id(), "worker_0");
}
