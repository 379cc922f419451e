use opensea_stream::json::JsonValue;
use opensea_stream::protocol::Event;
use opensea_stream::schema::Payload;
use opensea_stream::stream::{next_step, RecvOutcome, RegistrationError, StreamStep};
use tokio::sync::broadcast;
use tokio::sync::broadcast::error::TryRecvError;

fn s(text: &str) -> JsonValue {
    JsonValue::Str(text.to_string())
}

fn cancelled_body(item_id: &str) -> JsonValue {
    JsonValue::Obj(vec![
        ("item_id".to_string(), s(item_id)),
        ("collection_slug".to_string(), s("wandernauts")),
        ("listing_type".to_string(), s("dutch")),
    ])
}

/// What arrived on a receive handle, as the decision layer sees it.
fn outcome_of(received: Result<(String, String), TryRecvError>) -> RecvOutcome {
    match received {
        Ok((discriminator, item_id)) => {
            let body = if item_id == "malformed" {
                // A body missing its required fields.
                JsonValue::Obj(vec![("unrelated".to_string(), JsonValue::Null)])
            } else {
                cancelled_body(&item_id)
            };
            RecvOutcome::Message { discriminator, body }
        }
        Err(TryRecvError::Lagged(missed)) => RecvOutcome::Lagged { missed },
        Err(TryRecvError::Closed) => RecvOutcome::Closed,
        Err(TryRecvError::Empty) => RecvOutcome::Closed,
    }
}

#[test]
fn valid_message_is_delivered() {
    let step = next_step(RecvOutcome::Message {
        discriminator: "item_cancelled".to_string(),
        body: cancelled_body("wander/7"),
    });
    match step {
        StreamStep::Deliver(ev) => {
            assert_eq!(ev.event, Event::ItemCancelled);
            match ev.payload {
                Payload::ItemCancelled(d) => assert_eq!(d.item_id, "wander/7"),
                other => panic!("wrong payload variant: {:?}", other),
            }
        }
        other => panic!("expected delivery, got {:?}", other),
    }
}

#[test]
fn undecodable_message_is_skipped_not_fatal() {
    let step = next_step(RecvOutcome::Message {
        discriminator: "item_teleported".to_string(),
        body: cancelled_body("wander/7"),
    });
    assert!(matches!(step, StreamStep::Skip(_)));
}

#[test]
fn lag_is_surfaced_explicitly() {
    let step = next_step(RecvOutcome::Lagged { missed: 12 });
    assert_eq!(step, StreamStep::ConsumerLagged { missed: 12 });
}

#[test]
fn closure_ends_the_stream() {
    assert_eq!(next_step(RecvOutcome::Closed), StreamStep::Ended);
}

#[test]
fn registration_errors_are_distinguished() {
    assert_ne!(RegistrationError::TransportRejected, RegistrationError::DuplicateTopic);
}

#[test]
fn two_receive_handles_observe_same_order() {
    // Two subscriptions to the same target: independent receive handles
    // fed by one broadcast, each seeing injected messages in the same
    // relative order.
    let (tx, mut first) = broadcast::channel::<(String, String)>(16);
    let mut second = tx.subscribe();
    tx.send(("item_cancelled".to_string(), "wander/1".to_string())).unwrap();
    tx.send(("item_cancelled".to_string(), "wander/2".to_string())).unwrap();
    for handle in [&mut first, &mut second] {
        for expected in ["wander/1", "wander/2"] {
            match next_step(outcome_of(handle.try_recv())) {
                StreamStep::Deliver(ev) => match ev.payload {
                    Payload::ItemCancelled(d) => assert_eq!(d.item_id, expected),
                    other => panic!("wrong payload variant: {:?}", other),
                },
                other => panic!("expected delivery, got {:?}", other),
            }
        }
    }
}

#[test]
fn bad_message_leaves_other_consumers_unaffected() {
    // One consumer receives a malformed message; the other still
    // receives the next valid one, and so does the first.
    let (tx, mut first) = broadcast::channel::<(String, String)>(16);
    let mut second = tx.subscribe();
    tx.send(("item_cancelled".to_string(), "malformed".to_string())).unwrap();
    tx.send(("item_cancelled".to_string(), "wander/3".to_string())).unwrap();

    assert!(matches!(
        next_step(outcome_of(first.try_recv())),
        StreamStep::Skip(_)
    ));
    match next_step(outcome_of(first.try_recv())) {
        StreamStep::Deliver(ev) => assert_eq!(ev.event, Event::ItemCancelled),
        other => panic!("expected delivery, got {:?}", other),
    }

    assert!(matches!(
        next_step(outcome_of(second.try_recv())),
        StreamStep::Skip(_)
    ));
    match next_step(outcome_of(second.try_recv())) {
        StreamStep::Deliver(ev) => assert_eq!(ev.event, Event::ItemCancelled),
        other => panic!("expected delivery, got {:?}", other),
    }
}

#[test]
fn slow_consumer_observes_lag_not_loss() {
    // A bounded buffer of two: a consumer that stops reading while four
    // messages pass observes an explicit lagged signal, then resumes
    // with the retained messages; a consumer that kept reading is
    // unaffected.
    let (tx, mut slow) = broadcast::channel::<(String, String)>(2);
    let mut steady = tx.subscribe();
    for i in 1..=2 {
        tx.send(("item_cancelled".to_string(), format!("wander/{}", i))).unwrap();
        match next_step(outcome_of(steady.try_recv())) {
            StreamStep::Deliver(_) => {}
            other => panic!("expected delivery, got {:?}", other),
        }
    }
    for i in 3..=4 {
        tx.send(("item_cancelled".to_string(), format!("wander/{}", i))).unwrap();
        match next_step(outcome_of(steady.try_recv())) {
            StreamStep::Deliver(_) => {}
            other => panic!("expected delivery, got {:?}", other),
        }
    }
    // The slow consumer missed the two oldest messages.
    match next_step(outcome_of(slow.try_recv())) {
        StreamStep::ConsumerLagged { missed } => assert_eq!(missed, 2),
        other => panic!("expected lag, got {:?}", other),
    }
    match next_step(outcome_of(slow.try_recv())) {
        StreamStep::Deliver(ev) => match ev.payload {
            Payload::ItemCancelled(d) => assert_eq!(d.item_id, "wander/3"),
            other => panic!("wrong payload variant: {:?}", other),
        },
        other => panic!("expected delivery, got {:?}", other),
    }
}
