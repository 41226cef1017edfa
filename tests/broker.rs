use gametable::cli::{run_mode, Cli, Command, RunMode, Tool};
use gametable::queue::{
    consumer_binding, consumer_queue, consumer_step, game_complete_publication,
    game_starting_publication, one_shot_binding, one_shot_outcome, one_shot_queue, outgoing_topic,
    topic_exchanges, ConsumeOneError, ConsumerStep, StreamEvent, INCOMING_TOPIC, OUTGOING_TOPIC,
};

#[test]
fn both_topics_are_durable() {
    let ex = topic_exchanges();
    assert_eq!(ex.len(), 2);
    assert_eq!(ex[0].name, "game.starting");
    assert_eq!(ex[1].name, "game.complete");
    assert!(ex.iter().all(|e| e.durable));
    assert_eq!(outgoing_topic(), OUTGOING_TOPIC);
}

#[test]
fn continuous_consumer_binds_everything_on_incoming() {
    let q = consumer_queue("starts");
    assert_eq!(q.name, "starts");
    assert!(q.durable && !q.exclusive && !q.auto_delete);
    let b = consumer_binding();
    assert_eq!(b.exchange, INCOMING_TOPIC);
    assert_eq!(b.pattern, "#");
}

#[test]
fn one_shot_queue_is_private_and_temporary() {
    let q = one_shot_queue();
    assert_eq!(q.name, "");
    assert!(!q.durable && q.exclusive && q.auto_delete);
    let b = one_shot_binding(OUTGOING_TOPIC, "m1");
    assert_eq!(b.exchange, "game.complete");
    assert_eq!(b.pattern, "m1");
}

#[test]
fn publications_are_persistent_and_routed() {
    let s = game_starting_publication(b"start");
    assert_eq!(s.exchange, "game.starting");
    assert_eq!(s.routing_key, "");
    assert_eq!(s.delivery_mode, 2);
    assert_eq!(s.content_type, "application/json");
    assert_eq!(s.payload, b"start".to_vec());
    let c = game_complete_publication("m7", b"done");
    assert_eq!(c.exchange, "game.complete");
    assert_eq!(c.routing_key, "m7");
    assert_eq!(c.delivery_mode, 2);
    assert_eq!(c.payload, b"done".to_vec());
}

#[test]
fn complete_event_meets_the_one_shot_binding_for_its_key() {
    let payload = br#"{"match_id":"K","status":"completed"}"#;
    let c = game_complete_publication("K", payload);
    let b = one_shot_binding(&outgoing_topic(), "K");
    assert_eq!(c.exchange, b.exchange);
    assert_eq!(c.routing_key, b.pattern);
    assert_eq!(c.payload, payload.to_vec());
}

#[test]
fn consumer_steps() {
    assert!(matches!(consumer_step(StreamEvent::Delivery), ConsumerStep::HandleThenAck));
    assert!(matches!(consumer_step(StreamEvent::Ended), ConsumerStep::Finish));
    match consumer_step(StreamEvent::Failed("gone".to_string())) {
        ConsumerStep::Fail(m) => assert_eq!(m, "gone"),
        _ => panic!("expected a failure"),
    }
}

#[test]
fn one_shot_outcomes() {
    assert_eq!(one_shot_outcome(Some(Ok(vec![1, 2, 3]))).ok().unwrap(), vec![1, 2, 3]);
    assert!(matches!(one_shot_outcome(None), Err(ConsumeOneError::NoMessage)));
    match one_shot_outcome(Some(Err("closed".to_string()))) {
        Err(ConsumeOneError::Broker(m)) => assert_eq!(m, "closed"),
        _ => panic!("expected a broker error"),
    }
}

#[test]
fn run_modes() {
    let health = Cli { command: Some(Command::Service), health_check: true };
    assert!(matches!(run_mode(&health), RunMode::HealthCheck));
    let tools = Cli {
        command: Some(Command::Tools { tool: Tool::QueueMatch { players: vec!["a".to_string()] } }),
        health_check: false,
    };
    assert!(matches!(run_mode(&tools), RunMode::Tools));
    let none = Cli { command: None, health_check: false };
    assert!(matches!(run_mode(&none), RunMode::Service));
    let service = Cli { command: Some(Command::Service), health_check: false };
    assert!(matches!(run_mode(&service), RunMode::Service));
}
