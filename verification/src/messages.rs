//! The messages that clients and the server exchange.

use crate::gamestate::{GameState, PlayerId, Position};
use vstd::prelude::*;

verus! {

/// Transport-level identity of one open connection. It is a lookup key
/// and nothing else: the simulation never interprets it.
pub type ConnectionId = u64;

/// The key of the peer with the IPv4 address `ip` and the port `port`:
/// the address above the sixteen bits of the port.
pub open spec fn peer_key(ip: u32, port: u16) -> ConnectionId {
    (ip * 0x1_0000 + port) as u64
}

/// The key of the peer with the IPv4 address `ip` and the port `port`.
/// Two peers have the same key only if they are the same peer.
pub fn connection_id(ip: u32, port: u16) -> (id: ConnectionId)
    ensures
        id == peer_key(ip, port),
        forall|other_ip: u32, other_port: u16|
            id == #[trigger] peer_key(other_ip, other_port) ==> other_ip == ip && other_port
                == port,
{
    (ip as u64) * 0x1_0000 + (port as u64)
}

/// The IPv4 address and the port of the peer that `id` is the key of. A
/// value that is the key of no peer gives the low bits of what it holds.
pub fn peer_of(id: ConnectionId) -> (peer: (u32, u16))
    ensures
        peer.0 == (id / 0x1_0000) % 0x1_0000_0000,
        peer.1 == id % 0x1_0000,
        forall|ip: u32, port: u16| id == #[trigger] peer_key(ip, port) ==> peer == (ip, port),
{
    (((id / 0x1_0000) % 0x1_0000_0000) as u32, (id % 0x1_0000) as u16)
}

/// What a client asks for.
#[derive(Debug, Clone, PartialEq, Eq)]
pub enum ClientMessageType {
    /// The client enters the session under a display name.
    Connect { player_name: String },
    /// The client leaves the session.
    Disconnect,
    /// The client reports where it stands. The coordinates are bit patterns,
    /// as in [`Position`].
    SendPosition { x: u32, y: u32 },
}

/// One client request, tagged with the connection it arrived on.
#[derive(Debug, Clone, PartialEq, Eq)]
pub struct ClientMessage {
    pub message_type: ClientMessageType,
    pub address: ConnectionId,
}

/// What the server tells its clients.
#[derive(Debug, Clone, PartialEq, Eq)]
pub enum ServerMessageType {
    /// The whole world as it stands after a tick.
    SendState { game_state: GameState },
}

/// One broadcast of the server, stamped with the tick that produced it.
#[derive(Debug, Clone, PartialEq, Eq)]
pub struct ServerMessage {
    pub message_type: ServerMessageType,
    pub tick: u64,
}

impl ServerMessage {
    /// The world that the message carries, as a map.
    pub open spec fn world(&self) -> Map<PlayerId, Position> {
        match self.message_type {
            ServerMessageType::SendState { game_state } => game_state@,
        }
    }

    /// The message that publishes `game_state` as the outcome of tick `tick`.
    pub fn state(game_state: GameState, tick: u64) -> (message: ServerMessage)
        ensures
            message.tick == tick,
            message.world() == game_state@,
    {
        ServerMessage { message_type: ServerMessageType::SendState { game_state }, tick }
    }
}

} // verus!
