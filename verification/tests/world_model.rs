use backend::gamestate::{GameState, Player, Position};

fn at(x: f32, y: f32) -> Position {
    Position { x: x.to_bits(), y: y.to_bits() }
}

#[test]
fn default_position_is_the_origin() {
    assert_eq!(Position::default(), at(0.0, 0.0));
    assert_eq!(Position::default(), Position { x: 0, y: 0 });
}

#[test]
fn new_player_stands_at_the_origin() {
    let player = Player::new(7);
    assert_eq!(player, Player { id: 7, position: at(0.0, 0.0) });
}

#[test]
fn default_player_has_the_nil_identity() {
    assert_eq!(Player::default(), Player { id: 0, position: Position { x: 0, y: 0 } });
    assert_eq!(uuid::Uuid::from_u128(Player::default().id), uuid::Uuid::nil());
}

#[test]
fn new_world_is_empty() {
    let world = GameState::new();
    assert_eq!(world.player_count(), 0);
    assert!(world.players().is_empty());
    assert_eq!(world.get_player(&1), None);
    assert_eq!(GameState::default(), world);
}

#[test]
fn add_player_returns_the_id_and_files_the_player() {
    let mut world = GameState::new();
    assert_eq!(world.add_player(42), 42);
    assert_eq!(world.player_count(), 1);
    assert_eq!(world.get_player(&42), Some(&Player { id: 42, position: at(0.0, 0.0) }));
    assert_eq!(world.get_player(&43), None);
}

#[test]
fn adding_a_player_again_resets_the_position() {
    let mut world = GameState::new();
    world.add_player(42);
    world.move_player(&42, at(3.5, -1.25));
    assert_eq!(world.get_player(&42).unwrap().position, at(3.5, -1.25));
    world.add_player(42);
    assert_eq!(world.player_count(), 1);
    assert_eq!(world.get_player(&42).unwrap().position, at(0.0, 0.0));
}

#[test]
fn move_player_overwrites_the_position() {
    let mut world = GameState::new();
    world.add_player(1);
    world.add_player(2);
    world.move_player(&1, at(1.0, 2.0));
    world.move_player(&1, at(-4.0, 0.5));
    assert_eq!(world.get_player(&1), Some(&Player { id: 1, position: at(-4.0, 0.5) }));
    assert_eq!(world.get_player(&2), Some(&Player { id: 2, position: at(0.0, 0.0) }));
}

#[test]
fn move_player_on_an_absent_id_changes_nothing() {
    let mut world = GameState::new();
    world.add_player(1);
    world.move_player(&1, at(1.0, 1.0));
    let before = world.snapshot();
    world.move_player(&2, at(9.0, 9.0));
    assert_eq!(world.player_count(), 1);
    assert_eq!(world.get_player(&2), None);
    assert_eq!(world, before);

    let mut empty = GameState::new();
    empty.move_player(&5, at(1.0, 1.0));
    assert_eq!(empty.player_count(), 0);
}

#[test]
fn remove_player_takes_the_player_out() {
    let mut world = GameState::new();
    world.add_player(1);
    world.add_player(2);
    world.remove_player(&1);
    assert_eq!(world.player_count(), 1);
    assert_eq!(world.get_player(&1), None);
    assert!(world.get_player(&2).is_some());
}

#[test]
fn remove_player_on_an_absent_id_changes_nothing() {
    let mut world = GameState::new();
    world.add_player(1);
    let before = world.snapshot();
    world.remove_player(&2);
    assert_eq!(world, before);
}

#[test]
fn players_lists_every_player_under_its_id() {
    let mut world = GameState::new();
    world.add_player(10);
    world.add_player(20);
    world.move_player(&20, at(2.0, 4.0));
    let players = world.players();
    assert_eq!(players.len(), 2);
    assert_eq!(players.get(&10), Some(&Player { id: 10, position: at(0.0, 0.0) }));
    assert_eq!(players.get(&20), Some(&Player { id: 20, position: at(2.0, 4.0) }));
}

#[test]
fn snapshot_is_an_independent_copy() {
    let mut world = GameState::new();
    world.add_player(1);
    world.move_player(&1, at(1.0, 2.0));
    let copy = world.snapshot();
    world.move_player(&1, at(5.0, 5.0));
    world.add_player(2);
    assert_eq!(copy.player_count(), 1);
    assert_eq!(copy.get_player(&1).unwrap().position, at(1.0, 2.0));
    assert_eq!(world.clone(), world);
    assert_ne!(copy, world);
}

#[test]
fn coordinates_keep_their_bit_pattern() {
    let mut world = GameState::new();
    world.add_player(1);
    let far = Position { x: f32::MAX.to_bits(), y: (-0.0f32).to_bits() };
    world.move_player(&1, far);
    let stored = world.get_player(&1).unwrap().position;
    assert_eq!(stored, far);
    assert_eq!(f32::from_bits(stored.x), f32::MAX);
    assert!(f32::from_bits(stored.y).is_sign_negative());
}
