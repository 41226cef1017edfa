use gametable::controllers::GameController;
use gametable::game_pool::{
    seat_controllers, status_message, GamePool, GamePoolMessage, GameStatus, PoolAction,
    DEFAULT_SEAT_PLAYER,
};

fn names(v: &[&str]) -> Vec<String> {
    v.iter().map(|s| s.to_string()).collect()
}

fn seat_strings(cs: &[GameController]) -> Vec<String> {
    cs.iter().map(|c| c.to_string()).collect()
}

fn start(pool: &mut GamePool<u32>, id: &str, players: &[&str], handle: u32) {
    match pool.handle(GamePoolMessage::StartGame { match_id: id.to_string(), players: names(players) }) {
        PoolAction::Launch { match_id, .. } => {
            assert!(pool.register(match_id, handle).is_none());
        }
        _ => panic!("expected a launch"),
    }
}

#[test]
fn seats_are_padded_to_four_in_order() {
    for n in 0..=4usize {
        let all = ["p0", "p1", "p2", "p3"];
        let players = names(&all[..n]);
        let seats = seat_strings(&seat_controllers(&players));
        assert_eq!(seats.len(), 4);
        for i in 0..4 {
            if i < n {
                assert_eq!(seats[i], all[i]);
            } else {
                assert_eq!(seats[i], DEFAULT_SEAT_PLAYER);
            }
        }
    }
}

#[test]
fn seats_drop_players_past_the_fourth() {
    let seats = seat_strings(&seat_controllers(&names(&["a", "b", "c", "d", "e"])));
    assert_eq!(seats, names(&["a", "b", "c", "d"]));
}

#[test]
fn seats_are_embedded_controllers() {
    for c in seat_controllers(&names(&["a"])) {
        assert!(matches!(c, GameController::Embedded(_)));
    }
}

#[test]
fn controller_names() {
    assert_eq!(GameController::Embedded("zoe".to_string()).to_string(), "zoe");
    assert_eq!(GameController::External.to_string(), "External");
}

#[test]
fn start_game_asks_for_a_launch_and_keeps_the_table() {
    let mut pool: GamePool<u32> = GamePool::new();
    let action = pool.handle(GamePoolMessage::StartGame {
        match_id: "m1".to_string(),
        players: names(&["alice", "bob"]),
    });
    match action {
        PoolAction::Launch { match_id, controllers } => {
            assert_eq!(match_id, "m1");
            assert_eq!(
                seat_strings(&controllers),
                names(&["alice", "bob", "AngryDiscardoBot", "AngryDiscardoBot"])
            );
        }
        _ => panic!("expected a launch"),
    }
    assert_eq!(pool.active_count(), 0);
    assert!(pool.running());
}

#[test]
fn concrete_match_runs_to_completion() {
    let mut pool: GamePool<u32> = GamePool::new();
    let action = pool.handle(GamePoolMessage::StartGame {
        match_id: "m1".to_string(),
        players: names(&["alice", "bob"]),
    });
    let id = match action {
        PoolAction::Launch { match_id, controllers } => {
            assert_eq!(
                seat_strings(&controllers),
                names(&["alice", "bob", "AngryDiscardoBot", "AngryDiscardoBot"])
            );
            match_id
        }
        _ => panic!("expected a launch"),
    };
    assert!(pool.register(id, 7).is_none());
    assert_eq!(pool.active_count(), 1);
    let msg = status_message("m1".to_string(), GameStatus::Finished);
    assert!(matches!(&msg, GamePoolMessage::GameComplete { match_id } if match_id == "m1"));
    match pool.handle(msg) {
        PoolAction::Publish { match_id, payload, error, released } => {
            assert_eq!(match_id, "m1");
            assert_eq!(payload, r#"{"match_id":"m1","status":"completed"}"#);
            assert!(error.is_none());
            assert_eq!(released, Some(7));
        }
        _ => panic!("expected a publication"),
    }
    assert_eq!(pool.active_count(), 0);
}

#[test]
fn runner_error_publishes_and_removes() {
    let mut pool: GamePool<u32> = GamePool::new();
    start(&mut pool, "m2", &["x"], 3);
    let msg = status_message("m2".to_string(), GameStatus::Error("boom".to_string()));
    match pool.handle(msg) {
        PoolAction::Publish { match_id, payload, error, released } => {
            assert_eq!(match_id, "m2");
            assert_eq!(payload, r#"{"match_id":"m2","status":"completed"}"#);
            assert_eq!(error, Some("boom".to_string()));
            assert_eq!(released, Some(3));
        }
        _ => panic!("expected a publication"),
    }
    assert_eq!(pool.active_count(), 0);
}

#[test]
fn external_finish_cancels_the_tracked_job() {
    let mut pool: GamePool<u32> = GamePool::new();
    start(&mut pool, "a", &[], 1);
    start(&mut pool, "b", &[], 2);
    match pool.handle(GamePoolMessage::GameFinished { match_id: "a".to_string() }) {
        PoolAction::Cancel(h) => assert_eq!(h, Some(1)),
        _ => panic!("expected a cancel"),
    }
    assert_eq!(pool.active_count(), 1);
    match pool.handle(GamePoolMessage::GameFinished { match_id: "a".to_string() }) {
        PoolAction::Cancel(h) => assert_eq!(h, None),
        _ => panic!("expected a cancel"),
    }
    assert_eq!(pool.active_count(), 1);
}

#[test]
fn cleanup_of_unknown_id_changes_nothing() {
    let mut pool: GamePool<u32> = GamePool::new();
    start(&mut pool, "known", &[], 5);
    match pool.handle(GamePoolMessage::GameComplete { match_id: "ghost".to_string() }) {
        PoolAction::Publish { released, .. } => assert_eq!(released, None),
        _ => panic!("expected a publication"),
    }
    match pool.handle(GamePoolMessage::GameFinished { match_id: "ghost".to_string() }) {
        PoolAction::Cancel(h) => assert_eq!(h, None),
        _ => panic!("expected a cancel"),
    }
    assert_eq!(pool.active_count(), 1);
    assert!(pool.running());
}

#[test]
fn one_entry_per_id() {
    let mut pool: GamePool<u32> = GamePool::new();
    start(&mut pool, "dup", &[], 1);
    assert_eq!(pool.register("dup".to_string(), 2), Some(1));
    assert_eq!(pool.active_count(), 1);
    match pool.handle(GamePoolMessage::GameComplete { match_id: "dup".to_string() }) {
        PoolAction::Publish { released, .. } => assert_eq!(released, Some(2)),
        _ => panic!("expected a publication"),
    }
    assert_eq!(pool.active_count(), 0);
}

#[test]
fn shutdown_drains_and_stops() {
    let mut pool: GamePool<u32> = GamePool::new();
    start(&mut pool, "a", &[], 1);
    start(&mut pool, "b", &[], 2);
    match pool.handle(GamePoolMessage::Shutdown) {
        PoolAction::Stop(all) => {
            let mut ids: Vec<(String, u32)> = all;
            ids.sort();
            assert_eq!(ids, vec![("a".to_string(), 1), ("b".to_string(), 2)]);
        }
        _ => panic!("expected a stop"),
    }
    assert_eq!(pool.active_count(), 0);
    assert!(!pool.running());
    let later = pool.handle(GamePoolMessage::StartGame { match_id: "c".to_string(), players: vec![] });
    assert!(matches!(later, PoolAction::Ignore));
    let later = pool.handle(GamePoolMessage::GameComplete { match_id: "a".to_string() });
    assert!(matches!(later, PoolAction::Ignore));
    assert_eq!(pool.active_count(), 0);
}

#[test]
fn status_message_carries_the_error() {
    let msg = status_message("m".to_string(), GameStatus::Error("bad".to_string()));
    match msg {
        GamePoolMessage::GameError { match_id, error } => {
            assert_eq!(match_id, "m");
            assert_eq!(error, "bad");
        }
        _ => panic!("expected an error message"),
    }
}
