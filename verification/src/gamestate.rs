//! The world model: the players of a session and where they stand.

use std::collections::HashMap;
use vstd::prelude::*;

verus! {

broadcast use vstd::std_specs::hash::group_hash_axioms;

/// Logical identity of a participant: the 128-bit value of a UUID.
pub type PlayerId = u128;

/// A point of the plane.
///
/// Each coordinate is the bit pattern of an IEEE 754 single-precision number.
/// The world model only stores and hands back coordinates, so the pattern
/// is kept as it came from the wire.
#[derive(Clone, Copy, Debug, PartialEq, Eq, Structural)]
pub struct Position {
    pub x: u32,
    pub y: u32,
}

impl Position {
    /// The position every player starts at: both coordinates positive zero.
    pub open spec fn origin() -> Position {
        Position { x: 0, y: 0 }
    }
}

impl Default for Position {
    fn default() -> (position: Position)
        ensures
            position == Position::origin(),
    {
        Position { x: 0, y: 0 }
    }
}

/// One participant of the session.
#[derive(Clone, Copy, Debug, PartialEq, Eq, Structural)]
pub struct Player {
    pub id: PlayerId,
    pub position: Position,
}

impl Player {
    /// A player standing at the origin.
    pub fn new(id: PlayerId) -> (player: Player)
        ensures
            player == (Player { id, position: Position::origin() }),
    {
        Player { id, position: Position::default() }
    }
}

impl Default for Player {
    /// The player with the nil identity, standing at the origin.
    fn default() -> (player: Player)
        ensures
            player == (Player { id: 0, position: Position::origin() }),
    {
        Player::new(0)
    }
}

/// The authoritative set of players, keyed by identity.
///
/// Seen through its view, a world is a map from the identity of each player
/// to that player's position.
#[derive(Debug, PartialEq, Eq)]
pub struct GameState {
    players: HashMap<PlayerId, Player>,
}

impl View for GameState {
    type V = Map<PlayerId, Position>;

    closed spec fn view(&self) -> Map<PlayerId, Position> {
        Map::new(
            |id: PlayerId| self.players@.contains_key(id),
            |id: PlayerId| self.players@[id].position,
        )
    }
}

impl GameState {
    /// Every player is filed under its own identity.
    #[verifier::type_invariant]
    spec fn filed_by_id(self) -> bool {
        forall|id: PlayerId|
            self.players@.contains_key(id) ==> (#[trigger] self.players@[id]).id == id
    }

    /// The world without players.
    pub fn new() -> (world: GameState)
        ensures
            world@ == Map::<PlayerId, Position>::empty(),
    {
        let world = GameState { players: HashMap::new() };
        assert(world@ =~= Map::<PlayerId, Position>::empty());
        world
    }

    /// Puts the player `id` at the origin, whether or not it was there before.
    pub fn add_player(&mut self, id: PlayerId) -> (added: PlayerId)
        ensures
            added == id,
            final(self)@ == old(self)@.insert(id, Position::origin()),
    {
        proof {
            use_type_invariant(&*self);
        }
        let new_player = Player::new(id);
        let mut players = HashMap::new();
        std::mem::swap(&mut players, &mut self.players);
        players.insert(id, new_player);
        self.players = players;
        assert(self@ =~= old(self)@.insert(id, Position::origin()));
        id
    }

    /// Takes the player `player_id` out of the world; an absent player is left absent.
    pub fn remove_player(&mut self, player_id: &PlayerId)
        ensures
            final(self)@ == old(self)@.remove(*player_id),
    {
        proof {
            use_type_invariant(&*self);
        }
        let mut players = HashMap::new();
        std::mem::swap(&mut players, &mut self.players);
        players.remove(player_id);
        self.players = players;
        assert(self@ =~= old(self)@.remove(*player_id));
    }

    /// Looks the player `player_id` up.
    pub fn get_player(&self, player_id: &PlayerId) -> (found: Option<&Player>)
        ensures
            found is Some <==> self@.contains_key(*player_id),
            found matches Some(player) ==> *player == (Player {
                id: *player_id,
                position: self@[*player_id],
            }),
    {
        proof {
            use_type_invariant(self);
        }
        self.players.get(player_id)
    }

    /// Moves the player `player_id` to `position`. A move for a player that
    /// is not in the world changes nothing.
    pub fn move_player(&mut self, player_id: &PlayerId, position: Position)
        ensures
            old(self)@.contains_key(*player_id) ==> final(self)@ == old(self)@.insert(
                *player_id,
                position,
            ),
            !old(self)@.contains_key(*player_id) ==> final(self)@ == old(self)@,
    {
        proof {
            use_type_invariant(&*self);
        }
        if self.players.contains_key(player_id) {
            let mut players = HashMap::new();
            std::mem::swap(&mut players, &mut self.players);
            players.insert(*player_id, Player { id: *player_id, position });
            self.players = players;
            assert(self@ =~= old(self)@.insert(*player_id, position));
        }
    }

    /// The players as they are stored, each under its identity.
    pub fn players(&self) -> (players: &HashMap<PlayerId, Player>)
        ensures
            players@.dom() == self@.dom(),
            forall|id: PlayerId| #[trigger]
                players@.contains_key(id) ==> players@[id] == (Player {
                    id,
                    position: self@[id],
                }),
    {
        proof {
            use_type_invariant(self);
            assert(self.players@.dom() =~= self@.dom());
        }
        &self.players
    }

    /// The number of players in the world.
    pub fn player_count(&self) -> (count: usize)
        ensures
            count == self@.len(),
    {
        proof {
            assert(self.players@.dom() =~= self@.dom());
        }
        self.players.len()
    }

    /// An independent copy of the world, for publication.
    pub fn snapshot(&self) -> (copy: GameState)
        ensures
            copy@ == self@,
    {
        self.clone()
    }
}

impl Clone for GameState {
    fn clone(&self) -> (copy: GameState)
        ensures
            copy@ == self@,
    {
        proof {
            use_type_invariant(self);
        }
        let copy = GameState { players: self.players.clone() };
        assert(copy@ =~= self@);
        copy
    }
}

impl Default for GameState {
    fn default() -> (world: GameState)
        ensures
            world@ == Map::<PlayerId, Position>::empty(),
    {
        GameState::new()
    }
}

} // verus!
