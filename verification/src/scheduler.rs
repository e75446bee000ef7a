//! The tick scheduler: one step of the fixed-rate loop.
//!
//! The scheduler owns the registry and the world. Once per period it takes
//! what the input queue holds, applies it, and publishes the resulting world
//! if somebody listens and somebody is registered. Waiting for the period
//! is left to the caller.

use crate::engine::{is_random_uuid, run, GameEngine, Simulation};
use crate::gamestate::{GameState, PlayerId, Position};
use crate::messages::{ClientMessage, ConnectionId, ServerMessage};
use vstd::prelude::*;

verus! {

/// The rate of the simulation.
pub const TICKS_PER_SECOND: u32 = 60;

/// The bound of the input queue, and with it the most messages that one
/// tick takes from the queue.
pub const INPUT_QUEUE_CAPACITY: usize = 1000;

/// `tokio::sync::mpsc::Receiver`, the receiving half of the bounded input
/// queue. Trusted as an opaque handle.
#[verifier::external_type_specification]
#[verifier::external_body]
#[verifier::reject_recursive_types(T)]
pub struct ExInputReceiver<T>(tokio::sync::mpsc::Receiver<T>);

/// `tokio::sync::mpsc::error::TryRecvError`, the reason why the input queue
/// gave no message. Trusted as an opaque value.
#[verifier::external_type_specification]
#[verifier::external_body]
pub struct ExInputUnavailable(tokio::sync::mpsc::error::TryRecvError);

/// `tokio::sync::broadcast::Sender`, the sending half of the snapshot
/// fan-out. Trusted as an opaque handle.
#[verifier::external_type_specification]
#[verifier::external_body]
#[verifier::reject_recursive_types(T)]
pub struct ExFanOut<T>(tokio::sync::broadcast::Sender<T>);

/// `tokio::sync::broadcast::error::SendError`, the answer of a fan-out
/// without receivers. Trusted as an opaque value.
#[verifier::external_type_specification]
#[verifier::external_body]
#[verifier::reject_recursive_types(T)]
pub struct ExNobodyListens<T>(tokio::sync::broadcast::error::SendError<T>);

/// `tokio::sync::mpsc::Receiver::try_recv`.
///
/// Trusted: the call returns at once, with the oldest queued value or with
/// an error. Which of the two depends on what the senders have done, so
/// nothing is claimed about the result.
pub assume_specification<T>[ tokio::sync::mpsc::Receiver::<T>::try_recv ](
    rx: &mut tokio::sync::mpsc::Receiver<T>,
) -> (received: Result<T, tokio::sync::mpsc::error::TryRecvError>)
;

/// `tokio::sync::broadcast::Sender::receiver_count`.
///
/// Trusted: the call returns. The count depends on who has subscribed and
/// who has left, so nothing is claimed about it.
pub assume_specification<T>[ tokio::sync::broadcast::Sender::<T>::receiver_count ](
    tx: &tokio::sync::broadcast::Sender<T>,
) -> (count: usize)
;

/// `tokio::sync::broadcast::Sender::send`.
///
/// Trusted: the call returns at once, with the number of receivers that
/// the value was queued for, or with an error when there is none. Nothing
/// is claimed about the result.
pub assume_specification<T>[ tokio::sync::broadcast::Sender::<T>::send ](
    tx: &tokio::sync::broadcast::Sender<T>,
    value: T,
) -> (sent: Result<usize, tokio::sync::broadcast::error::SendError<T>>)
;

/// What became of a tick's snapshot.
#[derive(Clone, Copy, Debug, PartialEq, Eq, Structural)]
pub enum Publication {
    /// No snapshot was made: nobody listens, or nobody is registered.
    Skipped,
    /// The snapshot was queued for this many receivers.
    Delivered { receivers: usize },
    /// The last receiver left before the snapshot could be queued.
    Undelivered,
}

impl Publication {
    /// What became of a snapshot that was handed to the fan-out, given the
    /// fan-out's answer `sent`.
    pub open spec fn sent_as(
        sent: Result<usize, tokio::sync::broadcast::error::SendError<ServerMessage>>,
    ) -> Publication {
        match sent {
            Ok(receivers) => Publication::Delivered { receivers },
            Err(_) => Publication::Undelivered,
        }
    }

    /// Says what became of a snapshot that was handed to the fan-out: it is
    /// delivered to the receivers that the fan-out counted, or undelivered
    /// when the fan-out had none left.
    pub fn after_send(
        sent: Result<usize, tokio::sync::broadcast::error::SendError<ServerMessage>>,
    ) -> (publication: Publication)
        ensures
            publication == Publication::sent_as(sent),
    {
        match sent {
            Ok(receivers) => Publication::Delivered { receivers },
            Err(_) => Publication::Undelivered,
        }
    }
}

/// What one tick did.
#[derive(Clone, Copy, Debug, PartialEq, Eq, Structural)]
pub struct TickReport {
    /// The number of messages taken from the input queue and applied.
    pub processed: usize,
    /// The number of receivers that the fan-out had when the batch was applied.
    pub subscribers: usize,
    pub publication: Publication,
}

/// The state that lives across ticks: registry, world and tick counter.
#[derive(Debug)]
pub struct TickScheduler {
    engine: GameEngine,
    game_state: GameState,
    tick: u64,
}

/// The batch `batch` once the input queue has answered `received`: a
/// message goes to the end of the batch, an error leaves the batch as it is.
pub open spec fn with_answer(
    batch: Seq<ClientMessage>,
    received: Result<ClientMessage, tokio::sync::mpsc::error::TryRecvError>,
) -> Seq<ClientMessage> {
    match received {
        Ok(message) => batch.push(message),
        Err(_) => batch,
    }
}

/// Adds to the batch `inputs` what the input queue answered, and says
/// whether the queue gave a message. The drain asks the queue again only
/// after a message.
pub fn collect_input(
    inputs: &mut Vec<ClientMessage>,
    received: Result<ClientMessage, tokio::sync::mpsc::error::TryRecvError>,
) -> (taken: bool)
    ensures
        taken == received is Ok,
        final(inputs)@ == with_answer(old(inputs)@, received),
{
    match received {
        Ok(message) => {
            inputs.push(message);
            true
        },
        Err(_) => false,
    }
}

/// Takes from the input queue what it holds, oldest first, without waiting,
/// and at most `INPUT_QUEUE_CAPACITY` messages. What arrives later waits
/// for the next tick.
pub fn drain_inputs(rx: &mut tokio::sync::mpsc::Receiver<ClientMessage>) -> (inputs: Vec<
    ClientMessage,
>)
    ensures
        inputs@.len() <= INPUT_QUEUE_CAPACITY,
{
    let mut inputs: Vec<ClientMessage> = Vec::new();
    while inputs.len() < INPUT_QUEUE_CAPACITY
        invariant
            inputs@.len() <= INPUT_QUEUE_CAPACITY,
        decreases INPUT_QUEUE_CAPACITY - inputs.len(),
    {
        let received = rx.try_recv();
        if !collect_input(&mut inputs, received) {
            break ;
        }
    }
    inputs
}

impl TickScheduler {
    /// The number of ticks done so far.
    pub closed spec fn tick(&self) -> u64 {
        self.tick
    }

    /// The registry and the world, as maps.
    pub closed spec fn simulation(&self) -> Simulation {
        Simulation { registry: self.engine@, world: self.game_state@ }
    }

    /// Whether a snapshot is due: somebody listens and somebody is registered.
    pub open spec fn publishes(&self, subscribers: usize) -> bool {
        subscribers > 0 && self.simulation().registry.len() > 0
    }

    /// A scheduler before its first tick, with nothing registered and an
    /// empty world.
    pub fn new() -> (scheduler: TickScheduler)
        ensures
            scheduler.tick() == 0,
            scheduler.simulation().registry == Map::<ConnectionId, PlayerId>::empty(),
            scheduler.simulation().world == Map::<PlayerId, Position>::empty(),
    {
        TickScheduler { engine: GameEngine::new(), game_state: GameState::new(), tick: 0 }
    }

    /// The number of ticks done so far.
    pub fn current_tick(&self) -> (tick: u64)
        ensures
            tick == self.tick(),
    {
        self.tick
    }

    /// The registry.
    pub fn engine(&self) -> (engine: &GameEngine)
        ensures
            engine@ == self.simulation().registry,
    {
        &self.engine
    }

    /// The world.
    pub fn game_state(&self) -> (game_state: &GameState)
        ensures
            game_state@ == self.simulation().world,
    {
        &self.game_state
    }

    /// Registers a connection that was just accepted and returns the
    /// identity drawn for it. The world and the tick counter stay.
    pub fn register(&mut self, address: ConnectionId) -> (id: PlayerId)
        ensures
            is_random_uuid(id),
            final(self).tick() == old(self).tick(),
            final(self).simulation().world == old(self).simulation().world,
            final(self).simulation().registry == old(self).simulation().registry.insert(
                address,
                id,
            ),
    {
        self.engine.add_player(address)
    }

    /// Counts one tick and applies the batch `inputs` to registry and world.
    /// A tick with an empty batch is counted like any other.
    pub fn simulate(&mut self, inputs: Vec<ClientMessage>)
        requires
            old(self).tick() < u64::MAX,
        ensures
            final(self).tick() == old(self).tick() + 1,
            final(self).simulation() == run(old(self).simulation(), inputs@),
    {
        self.tick = self.tick + 1;
        self.engine.process_tick(&mut self.game_state, inputs);
    }

    /// The snapshot to publish to `subscribers` listeners: a copy of the
    /// world stamped with the current tick, or nothing when nobody listens
    /// or nobody is registered.
    pub fn snapshot_for(&self, subscribers: usize) -> (snapshot: Option<ServerMessage>)
        ensures
            snapshot is Some <==> self.publishes(subscribers),
            snapshot matches Some(message) ==> message.tick == self.tick() && message.world()
                == self.simulation().world,
    {
        if subscribers > 0 && self.engine.get_player_count() > 0 {
            Some(ServerMessage::state(self.game_state.snapshot(), self.tick))
        } else {
            None
        }
    }

    /// One whole tick on given inputs: counts the tick, applies the batch,
    /// and returns the snapshot to publish, if one is due.
    pub fn advance(&mut self, inputs: Vec<ClientMessage>, subscribers: usize) -> (snapshot: Option<
        ServerMessage,
    >)
        requires
            old(self).tick() < u64::MAX,
        ensures
            final(self).tick() == old(self).tick() + 1,
            final(self).simulation() == run(old(self).simulation(), inputs@),
            snapshot is Some <==> final(self).publishes(subscribers),
            snapshot matches Some(message) ==> message.tick == final(self).tick()
                && message.world() == final(self).simulation().world,
    {
        self.simulate(inputs);
        self.snapshot_for(subscribers)
    }

    /// Sends the snapshot of the current tick to the fan-out if one is due,
    /// and says how many receivers the fan-out had and what became of the
    /// snapshot. Without receivers, or without registered players, nothing
    /// is sent and nothing is kept for later.
    pub fn publish(&self, tx: &tokio::sync::broadcast::Sender<ServerMessage>) -> (published: (
        usize,
        Publication,
    ))
        ensures
            published.1 is Skipped <==> !self.publishes(published.0),
    {
        let subscribers: usize = tx.receiver_count();
        let publication = match self.snapshot_for(subscribers) {
            None => Publication::Skipped,
            Some(message) => Publication::after_send(tx.send(message)),
        };
        (subscribers, publication)
    }

    /// One whole tick against the live queues: drains the input queue,
    /// counts the tick, applies what the queue held, and publishes.
    pub fn run_tick(
        &mut self,
        rx: &mut tokio::sync::mpsc::Receiver<ClientMessage>,
        tx: &tokio::sync::broadcast::Sender<ServerMessage>,
    ) -> (report: TickReport)
        requires
            old(self).tick() < u64::MAX,
        ensures
            final(self).tick() == old(self).tick() + 1,
            report.processed <= INPUT_QUEUE_CAPACITY,
            exists|inputs: Seq<ClientMessage>|
                inputs.len() == report.processed && final(self).simulation() == #[trigger] run(
                    old(self).simulation(),
                    inputs,
                ),
            report.publication is Skipped <==> !final(self).publishes(report.subscribers),
    {
        let inputs = drain_inputs(rx);
        let processed: usize = inputs.len();
        let ghost batch = inputs@;
        self.simulate(inputs);
        assert(self.simulation() == run(old(self).simulation(), batch));
        let (subscribers, publication) = self.publish(tx);
        TickReport { processed, subscribers, publication }
    }

    /// Once per second of simulated time the server reports its status:
    /// on those ticks, the number of seconds elapsed.
    pub fn status_due(&self) -> (seconds: Option<u64>)
        ensures
            seconds == (if self.tick() % (TICKS_PER_SECOND as u64) == 0 {
                Some(self.tick() / (TICKS_PER_SECOND as u64))
            } else {
                None
            }),
    {
        if self.tick % (TICKS_PER_SECOND as u64) == 0 {
            Some(self.tick / (TICKS_PER_SECOND as u64))
        } else {
            None
        }
    }
}

impl Default for TickScheduler {
    fn default() -> (scheduler: TickScheduler)
        ensures
            scheduler.tick() == 0,
            scheduler.simulation().registry == Map::<ConnectionId, PlayerId>::empty(),
            scheduler.simulation().world == Map::<PlayerId, Position>::empty(),
    {
        TickScheduler::new()
    }
}

} // verus!
