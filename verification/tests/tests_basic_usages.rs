use actor_system::ActorSystem;
use actor_system::ManagerActor;
use actor_system::WorkComplete;

#[test]
fn test_create_actor_system() {
    let system: ActorSystem<ManagerActor> = ActorSystem::new();
    assert!(system.len() == 0, "ActorSystem should be created with no actors");
}

#[test]
fn test_create_actor() {
    let mut system = ActorSystem::new();
    let actor = ManagerActor { id: String::from("test_actor"), total_work: 0 };
    let actor_ref = system.create_actor(actor);
    assert!(
        actor_ref.send(&mut system, WorkComplete(1)).is_ok(),
        "Should be able to send a message to the actor"
    );
}

#[test]
fn test_actor_message_handling() {
    let mut system = ActorSystem::new();
    let actor = ManagerActor { id: String::from("test_actor"), total_work: 0 };
    let actor_ref = system.create_actor(actor);

    actor_ref.send(&mut system, WorkComplete(1)).expect("Failed to send message");
    actor_ref.send(&mut system, WorkComplete(2)).expect("Failed to send message");

    system.drain();

    assert_eq!(
        system.actor(&actor_ref).total_work,
        3,
        "Counter should be 3 after processing messages"
    );
}

#[test]
fn test_multiple_actors() {
    let mut system = ActorSystem::new();

    let actor1 = ManagerActor { id: String::from("actor1"), total_work: 0 };
    let actor2 = ManagerActor { id: String::from("actor2"), total_work: 0 };

    let actor_ref1 = system.create_actor(actor1);
    let actor_ref2 = system.create_actor(actor2);

    actor_ref1.send(&mut system, WorkComplete(1)).expect("Failed to send message to actor1");
    actor_ref2.send(&mut system, WorkComplete(2)).expect("Failed to send message to actor2");

    system.drain();

    assert_eq!(system.actor(&actor_ref1).total_work, 1, "Counter1 should be 1");
    assert_eq!(system.actor(&actor_ref2).total_work, 2, "Counter2 should be 2");
}
