use actor_system::ActorSystem;
use actor_system::ManagerActor;
use actor_system::Work;
use actor_system::WorkComplete;
use actor_system::WorkerActor;
use actor_system::WorkloadActor;
use actor_system::WorkloadMessage;
use actor_system::work_result;
use rand::RngExt;

fn worker_total(system: &ActorSystem<WorkloadActor>, r: &actor_system::ActorRef) -> u64 {
    match system.actor(r) {
        WorkloadActor::Worker(w) => w.work_done,
        WorkloadActor::Manager(_) => panic!("expected a worker"),
    }
}

fn manager_total(system: &ActorSystem<WorkloadActor>, r: &actor_system::ActorRef) -> u64 {
    match system.actor(r) {
        WorkloadActor::Manager(m) => m.total_work,
        WorkloadActor::Worker(_) => panic!("expected the manager"),
    }
}

#[test]
fn test_complex_actor_system() {
    let mut system = ActorSystem::new();

    let manager = system.create_actor(WorkloadActor::Manager(ManagerActor {
        id: String::from("manager"),
        total_work: 0,
    }));

    let worker_count: usize = 5;
    let mut workers = Vec::with_capacity(worker_count);
    for i in 0..worker_count {
        let worker = system.create_actor(WorkloadActor::Worker(WorkerActor {
            id: format!("worker_{}", i),
            work_done: 0,
        }));
        workers.push(worker);
    }

    let work_iterations: u64 = 20;
    let mut expected_worker = vec![0u64; worker_count];
    let mut expected_total: u64 = 0;

    for i in 0..work_iterations {
        for j in 0..worker_count {
            let work_amount = i * worker_count as u64 + j as u64 + 1;
            workers[j]
                .send(&mut system, WorkloadMessage::Work(Work(work_amount)))
                .unwrap();
            manager
                .send(&mut system, WorkloadMessage::WorkComplete(WorkComplete(work_amount)))
                .unwrap();
            expected_worker[j] += work_amount;
            expected_total += work_amount;
        }
    }

    system.shutdown();

    for j in 0..worker_count {
        assert_eq!(worker_total(&system, &workers[j]), expected_worker[j]);
    }
    assert_eq!(manager_total(&system, &manager), expected_total);
    println!("Actor system shut down successfully");
}

#[test]
fn test_manager_accumulates_random_workload() {
    // Sends to different actors carry no relative ordering guarantee, so only
    // the per-actor totals are asserted: the manager's total must equal the
    // sum of all individual amounts, however arrival interleaves.
    let mut system = ActorSystem::new();

    let manager = system.create_actor(WorkloadActor::Manager(ManagerActor {
        id: String::from("manager"),
        total_work: 0,
    }));

    let worker_count: usize = 10;
    let mut workers = Vec::with_capacity(worker_count);
    for i in 0..worker_count {
        let worker = system.create_actor(WorkloadActor::Worker(WorkerActor {
            id: format!("worker_{}", i),
            work_done: 0,
        }));
        workers.push(worker);
    }

    let total_work_items: usize = 10000;
    let max_work_amount: u64 = 1000;
    let mut rng = rand::rng();
    let mut expected_worker = vec![0u64; worker_count];
    let mut expected_total: u64 = 0;

    for _ in 0..total_work_items {
        let j = rng.random_range(0..worker_count);
        let work_amount = rng.random_range(1..=max_work_amount);
        workers[j]
            .send(&mut system, WorkloadMessage::Work(Work(work_amount)))
            .unwrap();
        manager
            .send(&mut system, WorkloadMessage::WorkComplete(WorkComplete(work_amount)))
            .unwrap();
        expected_worker[j] += work_amount;
        expected_total += work_amount;
    }

    system.drain();

    for j in 0..worker_count {
        assert_eq!(worker_total(&system, &workers[j]), expected_worker[j]);
    }
    assert_eq!(manager_total(&system, &manager), expected_total);
}

#[test]
fn test_work_result_values() {
    assert_eq!(work_result(0), 0);
    assert_eq!(work_result(1), 0);
    assert_eq!(work_result(3), 5);
    assert_eq!(work_result(5), 30);
    assert_eq!(work_result(10), 285);
}

#[test]
fn test_mismatched_message_is_ignored() {
    let mut system = ActorSystem::new();
    let manager = system.create_actor(WorkloadActor::Manager(ManagerActor {
        id: String::from("manager"),
        total_work: 0,
    }));
    manager
        .send(&mut system, WorkloadMessage::Work(Work(9)))
        .unwrap();
    manager
        .send(&mut system, WorkloadMessage::WorkComplete(WorkComplete(4)))
        .unwrap();
    system.drain();
    assert_eq!(manager_total(&system, &manager), 4);
}
