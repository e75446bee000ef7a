use backend::gamestate::GameState;
use backend::messages::{
    connection_id, peer_of, ClientMessage, ClientMessageType, ServerMessage,
};
use backend::network::{
    decide_read, decide_write, read_step, settle_offer, OfferOutcome, ReaderAction, ReaderEvent,
    ReaderStep, WriterAction, WriterEvent,
};
use tokio::sync::mpsc;

fn farewell(address: u64) -> ClientMessage {
    ClientMessage { message_type: ClientMessageType::Disconnect, address }
}

#[test]
fn a_decoded_message_is_offered_under_the_connection() {
    let message = ClientMessageType::Connect { player_name: "Test Player".to_string() };
    assert_eq!(
        decide_read(11, ReaderEvent::Decoded(message.clone())),
        ReaderAction::Offer(ClientMessage { message_type: message, address: 11 })
    );
    let position = ClientMessageType::SendPosition { x: 1.0f32.to_bits(), y: 2.0f32.to_bits() };
    assert_eq!(
        decide_read(12, ReaderEvent::Decoded(position.clone())),
        ReaderAction::Offer(ClientMessage { message_type: position, address: 12 })
    );
    assert_eq!(
        decide_read(13, ReaderEvent::Decoded(ClientMessageType::Disconnect)),
        ReaderAction::Offer(farewell(13))
    );
}

#[test]
fn frames_without_a_message_are_passed_over() {
    assert_eq!(decide_read(1, ReaderEvent::Malformed), ReaderAction::Ignore);
    assert_eq!(decide_read(1, ReaderEvent::Binary), ReaderAction::Ignore);
    assert_eq!(decide_read(1, ReaderEvent::Other), ReaderAction::Ignore);
}

#[test]
fn the_end_of_a_connection_leaves_a_disconnect() {
    assert_eq!(decide_read(5, ReaderEvent::Close), ReaderAction::Farewell(farewell(5)));
    assert_eq!(decide_read(6, ReaderEvent::Failed), ReaderAction::Farewell(farewell(6)));
    assert_eq!(decide_read(7, ReaderEvent::EndOfStream), ReaderAction::Farewell(farewell(7)));
}

#[test]
fn only_a_closed_queue_ends_the_reader_after_an_offer() {
    assert_eq!(settle_offer(OfferOutcome::Accepted), ReaderStep::Enqueued);
    assert_eq!(settle_offer(OfferOutcome::Full), ReaderStep::Dropped);
    assert_eq!(settle_offer(OfferOutcome::Closed), ReaderStep::QueueClosed);
    assert!(ReaderStep::Enqueued.continues());
    assert!(ReaderStep::Dropped.continues());
    assert!(ReaderStep::Ignored.continues());
    assert!(!ReaderStep::QueueClosed.continues());
    assert!(!ReaderStep::Farewell(farewell(1)).continues());
}

#[test]
fn read_step_queues_a_decoded_message() {
    let (tx, mut rx) = mpsc::channel::<ClientMessage>(4);
    let message = ClientMessageType::Connect { player_name: String::new() };
    assert_eq!(read_step(&tx, 9, ReaderEvent::Decoded(message.clone())), ReaderStep::Enqueued);
    assert_eq!(rx.try_recv().unwrap(), ClientMessage { message_type: message, address: 9 });
    assert!(rx.try_recv().is_err());
}

#[test]
fn read_step_survives_a_malformed_frame() {
    let (tx, mut rx) = mpsc::channel::<ClientMessage>(4);
    let first = ClientMessageType::Connect { player_name: "Alice".to_string() };
    let second = ClientMessageType::SendPosition { x: 0.5f32.to_bits(), y: (-0.5f32).to_bits() };
    assert!(read_step(&tx, 2, ReaderEvent::Decoded(first.clone())).continues());
    let step = read_step(&tx, 2, ReaderEvent::Malformed);
    assert_eq!(step, ReaderStep::Ignored);
    assert!(step.continues());
    assert_eq!(read_step(&tx, 2, ReaderEvent::Decoded(second.clone())), ReaderStep::Enqueued);
    assert_eq!(rx.try_recv().unwrap(), ClientMessage { message_type: first, address: 2 });
    assert_eq!(rx.try_recv().unwrap(), ClientMessage { message_type: second, address: 2 });
    assert!(rx.try_recv().is_err());
}

#[test]
fn read_step_queues_nothing_for_other_frames() {
    let (tx, mut rx) = mpsc::channel::<ClientMessage>(4);
    assert_eq!(read_step(&tx, 2, ReaderEvent::Binary), ReaderStep::Ignored);
    assert_eq!(read_step(&tx, 2, ReaderEvent::Other), ReaderStep::Ignored);
    assert_eq!(read_step(&tx, 2, ReaderEvent::Close), ReaderStep::Farewell(farewell(2)));
    assert_eq!(read_step(&tx, 2, ReaderEvent::Failed), ReaderStep::Farewell(farewell(2)));
    assert_eq!(read_step(&tx, 2, ReaderEvent::EndOfStream), ReaderStep::Farewell(farewell(2)));
    assert!(rx.try_recv().is_err());
}

#[test]
fn read_step_drops_the_message_when_the_queue_is_full() {
    let (tx, mut rx) = mpsc::channel::<ClientMessage>(1);
    let kept = ClientMessageType::SendPosition { x: 1, y: 1 };
    let lost = ClientMessageType::SendPosition { x: 2, y: 2 };
    assert_eq!(read_step(&tx, 3, ReaderEvent::Decoded(kept.clone())), ReaderStep::Enqueued);
    assert_eq!(read_step(&tx, 3, ReaderEvent::Decoded(lost)), ReaderStep::Dropped);
    assert_eq!(rx.try_recv().unwrap(), ClientMessage { message_type: kept, address: 3 });
    assert!(rx.try_recv().is_err());
    let next = ClientMessageType::SendPosition { x: 3, y: 3 };
    assert_eq!(read_step(&tx, 3, ReaderEvent::Decoded(next)), ReaderStep::Enqueued);
}

#[test]
fn read_step_stops_when_the_queue_is_closed() {
    let (tx, rx) = mpsc::channel::<ClientMessage>(4);
    drop(rx);
    let message = ClientMessageType::Disconnect;
    let step = read_step(&tx, 3, ReaderEvent::Decoded(message));
    assert_eq!(step, ReaderStep::QueueClosed);
    assert!(!step.continues());
    assert_eq!(read_step(&tx, 3, ReaderEvent::Malformed), ReaderStep::Ignored);
}

#[test]
fn the_writer_forwards_snapshots_and_tolerates_gaps() {
    let mut world = GameState::new();
    world.add_player(1);
    let message = ServerMessage::state(world, 17);
    assert_eq!(message.tick, 17);
    assert_eq!(
        decide_write(WriterEvent::Snapshot(message.clone())),
        WriterAction::Forward(message)
    );
    assert_eq!(decide_write(WriterEvent::Lagged(3)), WriterAction::Skip);
    assert_eq!(decide_write(WriterEvent::Closed), WriterAction::Stop);
}

#[test]
fn the_writer_stops_when_a_write_fails() {
    assert_eq!(decide_write(WriterEvent::WriteFailed), WriterAction::Stop);
}

#[test]
fn a_peer_has_its_address_above_its_port() {
    assert_eq!(connection_id(0, 0), 0);
    assert_eq!(connection_id(0x7f00_0001, 8080), 0x7f00_0001_1f90);
    assert_eq!(connection_id(u32::MAX, u16::MAX), 0xffff_ffff_ffff);
    assert_eq!(connection_id(1, 0), 65536);
    assert_eq!(connection_id(0, 1), 1);
}

#[test]
fn a_key_gives_its_peer_back() {
    assert_eq!(peer_of(0x7f00_0001_1f90), (0x7f00_0001, 8080));
    assert_eq!(peer_of(connection_id(0xc0a8_0102, 443)), (0xc0a8_0102, 443));
    assert_eq!(peer_of(connection_id(u32::MAX, u16::MAX)), (u32::MAX, u16::MAX));
    assert_eq!(peer_of(u64::MAX), (u32::MAX, u16::MAX));
    assert_ne!(connection_id(1, 2), connection_id(2, 1));
}
