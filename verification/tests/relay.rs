use critter_relay::message::{Message, MessageType};
use critter_relay::player::{Player, Pos};
use critter_relay::relay::{RegisterError, Relay};

fn update_from(name: &str, x: i32, y: i32) -> Message {
    let mut p = Player::new();
    p.set_name(name);
    p.pos = Pos { pos_x: x, pos_y: y };
    Message::player_update(&p)
}

#[test]
fn register_binds_the_carried_name() {
    let mut relay = Relay::new();
    assert_eq!(Ok(()), relay.register(&update_from("alice", 0, 0)));
    assert_eq!(1, relay.connections.len());
    assert_eq!("alice", relay.connections[0].name);
}

#[test]
fn register_rejects_world_state_first() {
    // A connection whose first message is a world snapshot is refused and
    // takes no part in any relay.
    let mut relay = Relay::new();
    let first = Message { mtype: MessageType::WorldState, world: Some(vec![]), player: None };
    assert_eq!(Err(RegisterError::WrongKind), relay.register(&first));
    assert!(relay.connections.is_empty());
    let later = update_from("bob", 5, 5);
    assert_eq!(Vec::<usize>::new(), relay.targets(&later));
}

#[test]
fn register_rejects_missing_player() {
    let mut relay = Relay::new();
    let first = Message { mtype: MessageType::PlayerPosition, world: None, player: None };
    assert_eq!(Err(RegisterError::MissingPlayer), relay.register(&first));
    assert!(relay.connections.is_empty());
}

#[test]
fn relay_suppresses_the_originator() {
    let mut relay = Relay::new();
    relay.register(&update_from("alice", 0, 0)).unwrap();
    relay.register(&update_from("bob", 5, 5)).unwrap();
    assert_eq!(vec![1], relay.targets(&update_from("alice", 1, 0)));
    assert_eq!(vec![0], relay.targets(&update_from("bob", 5, 6)));
}

#[test]
fn dropouts_are_skipped_forever() {
    let mut relay = Relay::new();
    relay.register(&update_from("alice", 0, 0)).unwrap();
    relay.register(&update_from("bob", 5, 5)).unwrap();
    relay.register(&update_from("carol", 9, 9)).unwrap();
    let bob_name = relay.connections[1].name.clone();
    relay.mark_dropout(&bob_name);
    assert_eq!(vec![2], relay.targets(&update_from("alice", 1, 0)));
    // A later registration does not resurrect the dropout.
    relay.register(&update_from("dave", 3, 3)).unwrap();
    assert_eq!(vec![2, 3], relay.targets(&update_from("alice", 2, 0)));
    let carol_name = relay.connections[2].name.clone();
    relay.mark_dropout(&carol_name);
    assert_eq!(vec![3], relay.targets(&update_from("alice", 3, 0)));
}

#[test]
fn malformed_envelope_is_delivered_nowhere() {
    let mut relay = Relay::new();
    relay.register(&update_from("alice", 0, 0)).unwrap();
    relay.register(&update_from("bob", 5, 5)).unwrap();
    // A position update that also carries a world payload is not
    // well-formed; it is discarded rather than relayed.
    let mut twisted = update_from("carol", 1, 1);
    twisted.world = Some(vec![]);
    assert_eq!(Vec::<usize>::new(), relay.targets(&twisted));
    let snapshot = Message { mtype: MessageType::WorldState, world: Some(vec![]), player: None };
    assert_eq!(Vec::<usize>::new(), relay.targets(&snapshot));
}
