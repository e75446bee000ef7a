//! The identity registry and the simulation step.

use crate::gamestate::{GameState, PlayerId, Position};
use crate::messages::{ClientMessage, ClientMessageType, ConnectionId};
use std::collections::HashMap;
use vstd::prelude::*;

verus! {

broadcast use vstd::std_specs::hash::group_hash_axioms;

/// The two maps that a tick works on: who is registered, and who stands where.
pub struct Simulation {
    pub registry: Map<ConnectionId, PlayerId>,
    pub world: Map<PlayerId, Position>,
}

/// The effect of one message.
///
/// A message whose connection is not registered has no effect. Otherwise a
/// `Connect` puts the connection's player at the origin, a `SendPosition`
/// moves the player if the world holds it, and a `Disconnect` takes the
/// connection out of the registry and leaves the world as it is.
pub open spec fn step(s: Simulation, msg: ClientMessage) -> Simulation {
    if !s.registry.contains_key(msg.address) {
        s
    } else {
        let id = s.registry[msg.address];
        match msg.message_type {
            ClientMessageType::Connect { .. } => Simulation {
                registry: s.registry,
                world: s.world.insert(id, Position::origin()),
            },
            ClientMessageType::SendPosition { x, y } => if s.world.contains_key(id) {
                Simulation { registry: s.registry, world: s.world.insert(id, Position { x, y }) }
            } else {
                s
            },
            ClientMessageType::Disconnect => Simulation {
                registry: s.registry.remove(msg.address),
                world: s.world,
            },
        }
    }
}

/// The effect of a batch: its messages one after the other, in order.
pub open spec fn run(s: Simulation, msgs: Seq<ClientMessage>) -> Simulation
    decreases msgs.len(),
{
    if msgs.len() == 0 {
        s
    } else {
        step(run(s, msgs.drop_last()), msgs.last())
    }
}

/// What every identity minted by the registry looks like: a UUID of
/// version 4 in the RFC variant.
pub open spec fn is_random_uuid(id: PlayerId) -> bool {
    (id >> 76) & 0xf == 4 && (id >> 62) & 0x3 == 2
}

/// Draws a fresh identity with `uuid::Uuid::new_v4` and reads it with
/// `Uuid::as_u128`.
///
/// Trusted: the value is random but for the version and variant bits, which
/// `new_v4` always sets. Nothing is claimed about two draws being different.
/// The draw fails only if the operating system cannot provide random bytes.
#[verifier::external_body]
fn random_player_id() -> (id: PlayerId)
    ensures
        is_random_uuid(id),
{
    uuid::Uuid::new_v4().as_u128()
}

/// The identity registry: which player each open connection speaks for.
#[derive(Debug, Clone)]
pub struct GameEngine {
    player_id_map: HashMap<ConnectionId, PlayerId>,
}

impl View for GameEngine {
    type V = Map<ConnectionId, PlayerId>;

    closed spec fn view(&self) -> Map<ConnectionId, PlayerId> {
        self.player_id_map@
    }
}

impl GameEngine {
    /// The registry without connections.
    pub fn new() -> (engine: GameEngine)
        ensures
            engine@ == Map::<ConnectionId, PlayerId>::empty(),
    {
        GameEngine { player_id_map: HashMap::new() }
    }

    /// The player that the connection `address` speaks for, if it is registered.
    pub fn get_player_id(&self, address: &ConnectionId) -> (found: Option<PlayerId>)
        ensures
            found == (if self@.contains_key(*address) {
                Some(self@[*address])
            } else {
                None
            }),
    {
        match self.player_id_map.get(address) {
            Some(id) => Some(*id),
            None => None,
        }
    }

    /// Registers the connection `address` under a freshly drawn identity
    /// and returns that identity.
    pub fn add_player(&mut self, address: ConnectionId) -> (id: PlayerId)
        ensures
            is_random_uuid(id),
            final(self)@ == old(self)@.insert(address, id),
    {
        let id: PlayerId = random_player_id();
        self.add_player_as(address, id)
    }

    /// Registers the connection `address` under the identity `id`. An entry
    /// that the connection already had is replaced.
    pub fn add_player_as(&mut self, address: ConnectionId, id: PlayerId) -> (added: PlayerId)
        ensures
            added == id,
            final(self)@ == old(self)@.insert(address, id),
    {
        self.player_id_map.insert(address, id);
        id
    }

    /// Forgets the connection `address`; an unknown connection is left unknown.
    pub fn remove_player(&mut self, address: &ConnectionId)
        ensures
            final(self)@ == old(self)@.remove(*address),
    {
        self.player_id_map.remove(address);
    }

    /// The registered connections, each with its player.
    pub fn get_players(&self) -> (players: &HashMap<ConnectionId, PlayerId>)
        ensures
            players@ == self@,
    {
        &self.player_id_map
    }

    /// The number of registered connections.
    pub fn get_player_count(&self) -> (count: usize)
        ensures
            count == self@.len(),
    {
        self.player_id_map.len()
    }

    /// The simulation step: applies the batch `inputs`, in order, to the
    /// registry and to the world `game_state`.
    pub fn process_tick(&mut self, game_state: &mut GameState, inputs: Vec<ClientMessage>)
        ensures
            (Simulation { registry: final(self)@, world: final(game_state)@ }) == run(
                Simulation { registry: old(self)@, world: old(game_state)@ },
                inputs@,
            ),
    {
        let ghost start = Simulation { registry: self@, world: game_state@ };
        let mut i: usize = 0;
        while i < inputs.len()
            invariant
                i <= inputs.len(),
                (Simulation { registry: self@, world: game_state@ }) == run(
                    start,
                    inputs@.take(i as int),
                ),
            decreases inputs.len() - i,
        {
            let input = &inputs[i];
            proof {
                assert(inputs@.take(i + 1).drop_last() =~= inputs@.take(i as int));
                assert(inputs@.take(i + 1).last() == inputs@[i as int]);
            }
            match self.get_player_id(&input.address) {
                None => {},
                Some(player_id) => {
                    match &input.message_type {
                        ClientMessageType::SendPosition { x, y } => {
                            game_state.move_player(&player_id, Position { x: *x, y: *y });
                        },
                        ClientMessageType::Connect { .. } => {
                            game_state.add_player(player_id);
                        },
                        ClientMessageType::Disconnect => {
                            self.remove_player(&input.address);
                        },
                    }
                },
            }
            i += 1;
        }
        proof {
            assert(inputs@.take(inputs.len() as int) =~= inputs@);
        }
    }
}

/// Whether `msg` is a `Disconnect` that arrived on the connection `address`.
pub open spec fn hangs_up(msg: ClientMessage, address: ConnectionId) -> bool {
    msg.address == address && msg.message_type is Disconnect
}

/// Whether one of the first `n` messages of the batch is a `Disconnect`
/// that arrived on the connection `address`.
pub open spec fn hung_up_within(msgs: Seq<ClientMessage>, address: ConnectionId, n: int) -> bool {
    exists|j: int| 0 <= j < n && j < msgs.len() && hangs_up(#[trigger] msgs[j], address)
}

/// Whether the message at position `i` finds its connection registered
/// when its turn comes: the connection was registered before the batch,
/// and no earlier message of the batch is a `Disconnect` from it.
pub open spec fn resolvable(
    registry: Map<ConnectionId, PlayerId>,
    msgs: Seq<ClientMessage>,
    i: int,
) -> bool {
    registry.contains_key(msgs[i].address) && !hung_up_within(msgs, msgs[i].address, i)
}

/// Whether the message at position `i` is a resolvable `Connect` of the
/// connection that speaks for the player `id`.
pub open spec fn enters_at(
    registry: Map<ConnectionId, PlayerId>,
    msgs: Seq<ClientMessage>,
    i: int,
    id: PlayerId,
) -> bool {
    &&& 0 <= i < msgs.len()
    &&& msgs[i].message_type is Connect
    &&& resolvable(registry, msgs, i)
    &&& registry[msgs[i].address] == id
}

/// Whether one of the first `n` messages of the batch brings the player
/// `id` into the world.
pub open spec fn enters_within(
    registry: Map<ConnectionId, PlayerId>,
    msgs: Seq<ClientMessage>,
    id: PlayerId,
    n: int,
) -> bool {
    exists|i: int| 0 <= i < n && #[trigger] enters_at(registry, msgs, i, id)
}

proof fn lemma_hung_up_unfold(msgs: Seq<ClientMessage>, address: ConnectionId, n: int)
    requires
        0 < n <= msgs.len(),
    ensures
        hung_up_within(msgs, address, n) <==> hung_up_within(msgs, address, n - 1) || hangs_up(
            msgs[n - 1],
            address,
        ),
{
    if hung_up_within(msgs, address, n) {
        let j = choose|j: int| 0 <= j < n && j < msgs.len() && hangs_up(#[trigger] msgs[j], address);
        if j < n - 1 {
            assert(hangs_up(msgs[j], address));
        }
    }
    if hung_up_within(msgs, address, n - 1) {
        let j = choose|j: int|
            0 <= j < n - 1 && j < msgs.len() && hangs_up(#[trigger] msgs[j], address);
        assert(hangs_up(msgs[j], address));
    }
    if hangs_up(msgs[n - 1], address) {
        assert(hung_up_within(msgs, address, n));
    }
}

proof fn lemma_enters_unfold(
    registry: Map<ConnectionId, PlayerId>,
    msgs: Seq<ClientMessage>,
    id: PlayerId,
    n: int,
)
    requires
        0 < n <= msgs.len(),
    ensures
        enters_within(registry, msgs, id, n) <==> enters_within(registry, msgs, id, n - 1)
            || enters_at(registry, msgs, n - 1, id),
{
    if enters_within(registry, msgs, id, n) {
        let i = choose|i: int| 0 <= i < n && #[trigger] enters_at(registry, msgs, i, id);
        if i < n - 1 {
            assert(enters_within(registry, msgs, id, n - 1));
        }
    }
    if enters_within(registry, msgs, id, n - 1) {
        let i = choose|i: int| 0 <= i < n - 1 && #[trigger] enters_at(registry, msgs, i, id);
        assert(enters_at(registry, msgs, i, id));
    }
    if enters_at(registry, msgs, n - 1, id) {
        assert(enters_within(registry, msgs, id, n));
    }
}

proof fn lemma_run_prefix(s: Simulation, msgs: Seq<ClientMessage>, n: int)
    requires
        0 < n <= msgs.len(),
    ensures
        run(s, msgs.take(n)) == step(run(s, msgs.take(n - 1)), msgs[n - 1]),
{
    assert(msgs.take(n).drop_last() =~= msgs.take(n - 1));
    assert(msgs.take(n).last() == msgs[n - 1]);
}

proof fn lemma_registry_after_prefix(s: Simulation, msgs: Seq<ClientMessage>, n: int)
    requires
        0 <= n <= msgs.len(),
    ensures
        forall|c: ConnectionId| #[trigger]
            run(s, msgs.take(n)).registry.contains_key(c) <==> s.registry.contains_key(c)
                && !hung_up_within(msgs, c, n),
        forall|c: ConnectionId| #[trigger]
            run(s, msgs.take(n)).registry.contains_key(c) ==> run(s, msgs.take(n)).registry[c]
                == s.registry[c],
    decreases n,
{
    if n == 0 {
        assert(msgs.take(0) =~= Seq::<ClientMessage>::empty());
    } else {
        lemma_registry_after_prefix(s, msgs, n - 1);
        lemma_run_prefix(s, msgs, n);
        let before = run(s, msgs.take(n - 1));
        let after = run(s, msgs.take(n));
        assert forall|c: ConnectionId| #[trigger]
            after.registry.contains_key(c) <==> s.registry.contains_key(c) && !hung_up_within(
                msgs,
                c,
                n,
            ) by {
            lemma_hung_up_unfold(msgs, c, n);
            assert(before.registry.contains_key(c) <==> s.registry.contains_key(c)
                && !hung_up_within(msgs, c, n - 1));
        }
        assert forall|c: ConnectionId| #[trigger]
            after.registry.contains_key(c) implies after.registry[c] == s.registry[c] by {
            assert(before.registry.contains_key(c));
        }
    }
}

proof fn lemma_world_after_prefix(s: Simulation, msgs: Seq<ClientMessage>, n: int)
    requires
        0 <= n <= msgs.len(),
    ensures
        forall|id: PlayerId| #[trigger]
            run(s, msgs.take(n)).world.contains_key(id) <==> s.world.contains_key(id)
                || enters_within(s.registry, msgs, id, n),
    decreases n,
{
    if n == 0 {
        assert(msgs.take(0) =~= Seq::<ClientMessage>::empty());
    } else {
        lemma_world_after_prefix(s, msgs, n - 1);
        lemma_registry_after_prefix(s, msgs, n - 1);
        lemma_run_prefix(s, msgs, n);
        let before = run(s, msgs.take(n - 1));
        let after = run(s, msgs.take(n));
        let last = msgs[n - 1];
        assert(before.registry.contains_key(last.address) <==> resolvable(
            s.registry,
            msgs,
            n - 1,
        ));
        assert forall|id: PlayerId| #[trigger]
            after.world.contains_key(id) <==> s.world.contains_key(id) || enters_within(
                s.registry,
                msgs,
                id,
                n,
            ) by {
            lemma_enters_unfold(s.registry, msgs, id, n);
            assert(before.world.contains_key(id) <==> s.world.contains_key(id) || enters_within(
                s.registry,
                msgs,
                id,
                n - 1,
            ));
        }
    }
}

/// After a batch, the registry holds the connections that it held before
/// and that sent no `Disconnect` in the batch, each with the player it had.
pub proof fn lemma_registry_after_batch(s: Simulation, msgs: Seq<ClientMessage>)
    ensures
        run(s, msgs).registry == Map::new(
            |c: ConnectionId| s.registry.contains_key(c) && !hung_up_within(msgs, c, msgs.len() as int),
            |c: ConnectionId| s.registry[c],
        ),
{
    lemma_registry_after_prefix(s, msgs, msgs.len() as int);
    assert(msgs.take(msgs.len() as int) =~= msgs);
    assert(run(s, msgs).registry =~= Map::new(
        |c: ConnectionId| s.registry.contains_key(c) && !hung_up_within(msgs, c, msgs.len() as int),
        |c: ConnectionId| s.registry[c],
    ));
}

/// After a batch, the world holds exactly the players that it held before
/// and the players of the connections that sent a resolvable `Connect`.
/// A `Disconnect` takes no player out of the world.
pub proof fn lemma_players_after_batch(s: Simulation, msgs: Seq<ClientMessage>)
    ensures
        forall|id: PlayerId| #[trigger]
            run(s, msgs).world.contains_key(id) <==> s.world.contains_key(id) || enters_within(
                s.registry,
                msgs,
                id,
                msgs.len() as int,
            ),
{
    lemma_world_after_prefix(s, msgs, msgs.len() as int);
    assert(msgs.take(msgs.len() as int) =~= msgs);
}

/// A player that a batch brings into the world is the player of a
/// connection that was registered before the batch.
pub proof fn lemma_new_players_were_registered(
    s: Simulation,
    msgs: Seq<ClientMessage>,
    id: PlayerId,
)
    requires
        run(s, msgs).world.contains_key(id),
        !s.world.contains_key(id),
    ensures
        exists|c: ConnectionId| #[trigger] s.registry.contains_key(c) && s.registry[c] == id,
{
    lemma_players_after_batch(s, msgs);
    let i = choose|i: int|
        0 <= i < msgs.len() && #[trigger] enters_at(s.registry, msgs, i, id);
    assert(s.registry.contains_key(msgs[i].address));
}

/// Whether the connection `address` is registered, sends a `Connect` in the
/// batch and sends no `Disconnect` in it: its most recent `Connect` or
/// `Disconnect` that the registry resolves is a `Connect`.
pub open spec fn stays_connected(
    registry: Map<ConnectionId, PlayerId>,
    msgs: Seq<ClientMessage>,
    address: ConnectionId,
) -> bool {
    &&& registry.contains_key(address)
    &&& !hung_up_within(msgs, address, msgs.len() as int)
    &&& exists|i: int|
        0 <= i < msgs.len() && (#[trigger] msgs[i]).address == address
            && msgs[i].message_type is Connect
}

/// Where no connection sends a `Disconnect` after a resolvable `Connect`,
/// the world after a batch holds exactly the players that it held before
/// and the players of the connections whose most recent resolvable
/// `Connect` or `Disconnect` is a `Connect`.
pub proof fn lemma_players_when_nobody_leaves(s: Simulation, msgs: Seq<ClientMessage>)
    requires
        forall|i: int, j: int|
            #![trigger msgs[i], msgs[j]]
            0 <= i < j < msgs.len() && msgs[i].message_type is Connect && resolvable(
                s.registry,
                msgs,
                i,
            ) ==> !hangs_up(msgs[j], msgs[i].address),
    ensures
        forall|id: PlayerId| #[trigger]
            run(s, msgs).world.contains_key(id) <==> s.world.contains_key(id) || exists|
                address: ConnectionId,
            |
                #[trigger] stays_connected(s.registry, msgs, address) && s.registry[address] == id,
{
    lemma_players_after_batch(s, msgs);
    let n = msgs.len() as int;
    assert forall|id: PlayerId| #[trigger]
        run(s, msgs).world.contains_key(id) <==> s.world.contains_key(id) || exists|
            address: ConnectionId,
        |
            #[trigger] stays_connected(s.registry, msgs, address) && s.registry[address] == id by {
        if enters_within(s.registry, msgs, id, n) {
            let i = choose|i: int| 0 <= i < n && #[trigger] enters_at(s.registry, msgs, i, id);
            let address = msgs[i].address;
            if hung_up_within(msgs, address, n) {
                let j = choose|j: int|
                    0 <= j < n && j < msgs.len() && hangs_up(#[trigger] msgs[j], address);
                if j < i {
                    assert(hung_up_within(msgs, address, i));
                } else if j > i {
                    assert(!hangs_up(msgs[j], msgs[i].address));
                }
            }
            assert(stays_connected(s.registry, msgs, address));
        }
        if exists|address: ConnectionId| #[trigger]
            stays_connected(s.registry, msgs, address) && s.registry[address] == id {
            let address = choose|address: ConnectionId| #[trigger]
                stays_connected(s.registry, msgs, address) && s.registry[address] == id;
            let i = choose|i: int|
                0 <= i < msgs.len() && (#[trigger] msgs[i]).address == address
                    && msgs[i].message_type is Connect;
            if hung_up_within(msgs, address, i) {
                let j = choose|j: int|
                    0 <= j < i && j < msgs.len() && hangs_up(#[trigger] msgs[j], address);
                assert(hangs_up(msgs[j], address));
                assert(hung_up_within(msgs, address, n));
            }
            assert(enters_at(s.registry, msgs, i, id));
            assert(enters_within(s.registry, msgs, id, n));
        }
    }
}

/// Two batches applied one after the other have the effect of the one
/// batch that holds the messages of both, in the same order.
pub proof fn lemma_run_concat(s: Simulation, first: Seq<ClientMessage>, second: Seq<ClientMessage>)
    ensures
        run(s, first + second) == run(run(s, first), second),
    decreases second.len(),
{
    if second.len() == 0 {
        assert(first + second =~= first);
    } else {
        assert((first + second).drop_last() =~= first + second.drop_last());
        assert((first + second).last() == second.last());
        lemma_run_concat(s, first, second.drop_last());
    }
}

/// A message whose connection is not registered when its turn comes is
/// dropped and the batch goes on: the outcome is that of the batch without
/// the message.
pub proof fn lemma_unresolvable_message_is_dropped(
    s: Simulation,
    before: Seq<ClientMessage>,
    msg: ClientMessage,
    after: Seq<ClientMessage>,
)
    requires
        !run(s, before).registry.contains_key(msg.address),
    ensures
        run(s, before + seq![msg] + after) == run(s, before + after),
{
    assert((before + seq![msg]).drop_last() =~= before);
    assert((before + seq![msg]).last() == msg);
    lemma_run_concat(s, before + seq![msg], after);
    lemma_run_concat(s, before, after);
}

/// Whether the message at position `i` is a `Connect` or a `SendPosition`
/// of a connection that the registry `registry` files under the player `id`.
pub open spec fn writes_to(
    registry: Map<ConnectionId, PlayerId>,
    msgs: Seq<ClientMessage>,
    i: int,
    id: PlayerId,
) -> bool {
    &&& registry.contains_key(msgs[i].address)
    &&& registry[msgs[i].address] == id
    &&& !(msgs[i].message_type is Disconnect)
}

proof fn lemma_position_stays(
    s: Simulation,
    msgs: Seq<ClientMessage>,
    i: int,
    id: PlayerId,
    n: int,
)
    requires
        0 <= i < n <= msgs.len(),
        msgs[i].message_type is SendPosition,
        resolvable(s.registry, msgs, i),
        s.registry[msgs[i].address] == id,
        s.world.contains_key(id) || enters_within(s.registry, msgs, id, i),
        forall|j: int| i < j < n ==> !#[trigger] writes_to(s.registry, msgs, j, id),
    ensures
        run(s, msgs.take(n)).world.contains_key(id),
        run(s, msgs.take(n)).world[id] == (Position {
            x: msgs[i].message_type->x,
            y: msgs[i].message_type->y,
        }),
    decreases n,
{
    lemma_run_prefix(s, msgs, n);
    lemma_registry_after_prefix(s, msgs, n - 1);
    let before = run(s, msgs.take(n - 1));
    if n == i + 1 {
        lemma_world_after_prefix(s, msgs, i);
        assert(before.registry.contains_key(msgs[i].address));
        assert(before.world.contains_key(id));
    } else {
        lemma_position_stays(s, msgs, i, id, n - 1);
        assert(!writes_to(s.registry, msgs, n - 1, id));
        if before.registry.contains_key(msgs[n - 1].address) {
            assert(before.registry[msgs[n - 1].address] == s.registry[msgs[n - 1].address]);
        }
    }
}

/// The last position that a batch reports for a player wins: if the message
/// at position `i` is a resolvable `SendPosition` for the player `id`, the
/// player is in the world when the message's turn comes, and no later
/// message of the batch is a `Connect` or a `SendPosition` for that player,
/// then the batch leaves the player at the reported position.
pub proof fn lemma_last_position_wins(
    s: Simulation,
    msgs: Seq<ClientMessage>,
    i: int,
    id: PlayerId,
)
    requires
        0 <= i < msgs.len(),
        msgs[i].message_type is SendPosition,
        resolvable(s.registry, msgs, i),
        s.registry[msgs[i].address] == id,
        s.world.contains_key(id) || enters_within(s.registry, msgs, id, i),
        forall|j: int| i < j < msgs.len() ==> !#[trigger] writes_to(s.registry, msgs, j, id),
    ensures
        run(s, msgs).world.contains_key(id),
        run(s, msgs).world[id] == (Position {
            x: msgs[i].message_type->x,
            y: msgs[i].message_type->y,
        }),
{
    lemma_position_stays(s, msgs, i, id, msgs.len() as int);
    assert(msgs.take(msgs.len() as int) =~= msgs);
}

impl Default for GameEngine {
    fn default() -> (engine: GameEngine)
        ensures
            engine@ == Map::<ConnectionId, PlayerId>::empty(),
    {
        GameEngine::new()
    }
}

} // verus!
