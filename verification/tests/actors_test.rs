use vype::actors::ActorRef;

#[test]
fn actor_ref_can_send_and_receive_messages() {
    let (tx, rx) = std::sync::mpsc::channel::<String>();

    let actor_ref = ActorRef::new(tx);

    actor_ref.send("hello".to_string()).unwrap();
    actor_ref.send("world".to_string()).unwrap();

    assert_eq!(rx.recv().unwrap(), "hello");
    assert_eq!(rx.recv().unwrap(), "world");
}

#[test]
fn actor_ref_can_be_cloned() {
    let (tx, rx) = std::sync::mpsc::channel::<i32>();

    let actor_ref1 = ActorRef::new(tx);
    let actor_ref2 = actor_ref1.clone();

    actor_ref1.send(1).unwrap();
    actor_ref2.send(2).unwrap();

    assert_eq!(rx.recv().unwrap(), 1);
    assert_eq!(rx.recv().unwrap(), 2);
}

#[test]
fn send_to_a_closed_mailbox_hands_the_message_back() {
    let (tx, rx) = std::sync::mpsc::channel::<String>();
    let actor_ref = ActorRef::new(tx);
    drop(rx);

    let undelivered = actor_ref.send("lost".to_string()).unwrap_err();
    assert_eq!(undelivered.0, "lost");
}

#[test]
fn messages_of_one_sender_arrive_in_send_order() {
    let (tx, rx) = std::sync::mpsc::channel::<u32>();
    let actor_ref = ActorRef::new(tx);
    for i in 0..100u32 {
        actor_ref.send(i).unwrap();
    }
    drop(actor_ref);
    let received: Vec<u32> = rx.iter().collect();
    let expected: Vec<u32> = (0..100u32).collect();
    assert_eq!(received, expected);
}
