use screencast::control::Message;
use screencast::frame::{Area, Frame};
use screencast::receiver::{
    Receiver, ReceiverAction, ReceiverEvent, ReceiverExit, ReceiverPhase,
};
use screencast::wire::{encode_header, pad_to_chunk, DecodeError, Header, CHUNK_SIZE, HEADER_SIZE};

// What a session looked like from outside.
struct Session {
    frames: Vec<(u32, Frame, bool)>,
    reason: ReceiverExit,
    mux: bool,
    steps: usize,
}

// Runs the loop over a byte stream that never blocks. `controls[i]` is what the
// i-th poll of the control queue finds; later polls find the queue empty.
fn receive(save: bool, stream: &[u8], controls: &[Option<Message>]) -> Session {
    let mut state = Receiver::new(save);
    let mut action = ReceiverAction::PollControl;
    let mut frames = Vec::new();
    let mut pos = 0usize;
    let mut polls = 0usize;
    let mut steps = 0usize;
    loop {
        let event = match action {
            ReceiverAction::PollControl => {
                let found = controls.get(polls).cloned().flatten();
                polls += 1;
                ReceiverEvent::Control(found)
            }
            ReceiverAction::ReadHeader => match stream.get(pos..pos + HEADER_SIZE) {
                Some(block) => {
                    pos += HEADER_SIZE;
                    ReceiverEvent::Header(block.to_vec())
                }
                None => ReceiverEvent::Closed,
            },
            ReceiverAction::ReadChunk => match stream.get(pos..pos + CHUNK_SIZE as usize) {
                Some(block) => {
                    pos += CHUNK_SIZE as usize;
                    ReceiverEvent::Chunk(block.to_vec())
                }
                None => ReceiverEvent::Closed,
            },
            ReceiverAction::Deliver { frame_number, frame, archive } => {
                frames.push((frame_number, frame, archive));
                ReceiverEvent::Delivered
            }
            ReceiverAction::Finish { mux, reason } => {
                assert_eq!(state.phase(), ReceiverPhase::Stopped);
                return Session { frames, reason, mux, steps };
            }
        };
        let (next, then) = state.step(event);
        state = next;
        action = then;
        steps += 1;
    }
}

fn payload_of(len: usize, seed: u8) -> Vec<u8> {
    (0..len).map(|i| (i as u8).wrapping_mul(31).wrapping_add(seed) | 1).collect()
}

fn on_wire(number: u32, w: u32, h: u32, payload: &[u8]) -> Vec<u8> {
    let mut bytes = encode_header(&Header::new(number, payload.len() as u32, w, h));
    bytes.extend_from_slice(&pad_to_chunk(payload.to_vec()));
    bytes
}

#[test]
fn round_trip_of_exactly_one_chunk() {
    let payload = payload_of(65536, 3);
    let wire = on_wire(1, 128, 128, &payload);
    assert_eq!(wire.len(), 16 + 65536);
    let s = receive(false, &wire, &[]);
    assert_eq!(s.frames.len(), 1);
    let (number, frame, archive) = &s.frames[0];
    assert_eq!((*number, frame.w, frame.h, *archive), (1, 128, 128, false));
    assert_eq!(frame.data, payload);
    assert_eq!(s.reason, ReceiverExit::ConnectionClosed);
}

#[test]
fn round_trip_of_less_than_one_chunk() {
    let payload = payload_of(4 * 3 * 3, 5);
    let wire = on_wire(4, 4, 3, &payload);
    assert_eq!(wire.len(), 16 + 65536);
    let s = receive(false, &wire, &[]);
    assert_eq!(s.frames.len(), 1);
    assert_eq!((s.frames[0].1.w, s.frames[0].1.h), (4, 3));
    assert_eq!(s.frames[0].1.data, payload);
}

#[test]
fn round_trip_of_several_chunks_and_a_remainder() {
    let payload = payload_of(300 * 200 * 3, 7);
    assert_eq!(payload.len(), 2 * 65536 + 48928);
    let wire = on_wire(9, 300, 200, &payload);
    assert_eq!(wire.len(), 16 + 3 * 65536);
    let s = receive(false, &wire, &[]);
    assert_eq!(s.frames.len(), 1);
    assert_eq!((s.frames[0].0, s.frames[0].1.w, s.frames[0].1.h), (9, 300, 200));
    assert_eq!(s.frames[0].1.data, payload);
}

#[test]
fn round_trip_of_an_empty_payload() {
    let wire = on_wire(2, 0, 50, &[]);
    assert_eq!(wire.len(), 16);
    let s = receive(false, &wire, &[]);
    assert_eq!(s.frames.len(), 1);
    assert_eq!((s.frames[0].1.w, s.frames[0].1.h), (0, 50));
    assert!(s.frames[0].1.data.is_empty());
}

#[test]
fn three_frames_of_100_70000_and_131072_bytes() {
    let first = payload_of(100, 1);
    let second = payload_of(70000, 2);
    let third = payload_of(131072, 3);
    let mut wire = on_wire(1, 5, 5, &first);
    assert_eq!(wire.len(), 16 + 100 + 65436);
    wire.extend_from_slice(&on_wire(2, 175, 100, &second));
    assert_eq!(wire.len(), 2 * 16 + 65536 + 70000 + 61072);
    wire.extend_from_slice(&on_wire(3, 256, 128, &third));
    assert_eq!(wire.len(), 3 * 16 + 65536 + 131072 + 131072);
    let s = receive(false, &wire, &[]);
    assert_eq!(s.frames.len(), 3);
    assert_eq!(s.frames[0].1.data.len(), 100);
    assert_eq!(s.frames[1].1.data.len(), 70000);
    assert_eq!(s.frames[2].1.data.len(), 131072);
    assert_eq!(s.frames[0].1.data, first);
    assert_eq!(s.frames[1].1.data, second);
    assert_eq!(s.frames[2].1.data, third);
    assert_eq!((s.frames[0].1.w, s.frames[0].1.h), (5, 5));
    assert_eq!((s.frames[1].1.w, s.frames[1].1.h), (175, 100));
    assert_eq!((s.frames[2].1.w, s.frames[2].1.h), (256, 128));
    let numbers: Vec<u32> = s.frames.iter().map(|f| f.0).collect();
    assert_eq!(numbers, vec![1, 2, 3]);
    assert_eq!(s.reason, ReceiverExit::ConnectionClosed);
}

#[test]
fn connection_closed_between_header_and_payload() {
    let payload = payload_of(70000, 9);
    let wire = on_wire(1, 175, 100, &payload);
    for cut in [16usize, 17, 16 + 65535, 16 + 65536, 16 + 65536 + 65535] {
        let s = receive(true, &wire[..cut], &[]);
        assert!(s.frames.is_empty());
        assert_eq!(s.reason, ReceiverExit::ConnectionClosed);
        assert!(!s.mux);
    }
}

#[test]
fn connection_closed_inside_a_header() {
    let wire = on_wire(1, 5, 5, &payload_of(100, 1));
    for cut in [0usize, 1, 15] {
        let s = receive(false, &wire[..cut], &[]);
        assert!(s.frames.is_empty());
        assert_eq!(s.reason, ReceiverExit::ConnectionClosed);
    }
}

#[test]
fn a_short_block_counts_as_a_closed_connection() {
    let header = encode_header(&Header::new(1, 100, 5, 5));
    let (s, _) = Receiver::new(false).step(ReceiverEvent::Control(None));
    let (s, a) = s.step(ReceiverEvent::Header(header));
    assert!(matches!(a, ReceiverAction::ReadChunk));
    assert_eq!(s.phase(), ReceiverPhase::AwaitChunk);
    let (s, a) = s.step(ReceiverEvent::Chunk(vec![1; 65535]));
    assert!(matches!(
        a,
        ReceiverAction::Finish { mux: false, reason: ReceiverExit::ConnectionClosed }
    ));
    assert_eq!(s.phase(), ReceiverPhase::Stopped);
}

#[test]
fn an_overlong_block_counts_as_a_closed_connection() {
    let header = encode_header(&Header::new(1, 100, 5, 5));
    let (s, _) = Receiver::new(false).step(ReceiverEvent::Control(None));
    let (s, _) = s.step(ReceiverEvent::Header(header));
    let (_, a) = s.step(ReceiverEvent::Chunk(vec![1; 65537]));
    assert!(matches!(a, ReceiverAction::Finish { reason: ReceiverExit::ConnectionClosed, .. }));
}

#[test]
fn a_header_that_does_not_decode_ends_the_session() {
    let mut wire = encode_header(&Header::new(1, 101, 5, 5));
    wire.extend_from_slice(&vec![0; 65536]);
    let s = receive(false, &wire, &[]);
    assert!(s.frames.is_empty());
    assert_eq!(s.reason, ReceiverExit::BadHeader(DecodeError::InconsistentDimensions));

    let (state, _) = Receiver::new(false).step(ReceiverEvent::Control(None));
    let (_, a) = state.step(ReceiverEvent::Header(vec![0; 15]));
    assert!(matches!(
        a,
        ReceiverAction::Finish { reason: ReceiverExit::BadHeader(DecodeError::WrongSize), .. }
    ));
}

#[test]
fn stop_ends_the_loop_before_the_next_read() {
    let wire = on_wire(1, 5, 5, &payload_of(100, 1));
    let s = receive(false, &wire, &[Some(Message::stop_request())]);
    assert!(s.frames.is_empty());
    assert_eq!(s.reason, ReceiverExit::Stopped);
    assert_eq!(s.steps, 1);
}

#[test]
fn stop_is_seen_within_one_frame() {
    let mut wire = Vec::new();
    for n in 1..=5u32 {
        wire.extend_from_slice(&on_wire(n, 175, 100, &payload_of(70000, n as u8)));
    }
    // One frame of two chunks takes five steps: poll, header, two chunks,
    // delivery. The stop request lies in the queue at the third poll.
    let s = receive(false, &wire, &[None, None, Some(Message::stop_request())]);
    assert_eq!(s.frames.len(), 2);
    assert_eq!(s.reason, ReceiverExit::Stopped);
    assert_eq!(s.steps, 2 * 5 + 1);
}

#[test]
fn save_request_switches_archiving_for_later_frames() {
    let mut wire = Vec::new();
    for n in 1..=3u32 {
        wire.extend_from_slice(&on_wire(n, 5, 5, &payload_of(100, n as u8)));
    }
    let s = receive(
        false,
        &wire,
        &[None, Some(Message::save_request(true)), Some(Message::save_request(false))],
    );
    let archived: Vec<bool> = s.frames.iter().map(|f| f.2).collect();
    assert_eq!(archived, vec![false, true, false]);
    assert!(s.mux);
}

#[test]
fn muxer_runs_only_if_a_frame_was_archived() {
    let wire = on_wire(1, 5, 5, &payload_of(100, 1));
    assert!(!receive(false, &wire, &[]).mux);
    assert!(receive(true, &wire, &[]).mux);
    assert!(!receive(true, &wire[..16], &[]).mux);
    assert!(!receive(true, &wire, &[Some(Message::stop_request())]).mux);
}

#[test]
fn area_request_means_nothing_to_the_receiver() {
    let wire = on_wire(1, 5, 5, &payload_of(100, 1));
    let s = receive(true, &wire, &[Some(Message::area_request(Area::new(1, 2, 3, 4)))]);
    assert_eq!(s.frames.len(), 1);
    assert!(s.frames[0].2);
}

#[test]
fn a_display_that_is_gone_ends_the_session() {
    let wire = on_wire(1, 0, 0, &[]);
    let (s, _) = Receiver::new(true).step(ReceiverEvent::Control(None));
    let (s, a) = s.step(ReceiverEvent::Header(wire));
    assert!(matches!(a, ReceiverAction::Deliver { frame_number: 1, archive: true, .. }));
    assert_eq!(s.phase(), ReceiverPhase::AwaitDelivery);
    let (s, a) = s.step(ReceiverEvent::ChannelClosed);
    assert!(matches!(a, ReceiverAction::Finish { mux: true, reason: ReceiverExit::DisplayGone }));
    assert_eq!(s.phase(), ReceiverPhase::Stopped);
}

#[test]
fn an_event_out_of_turn_ends_the_session() {
    let (s, a) = Receiver::new(false).step(ReceiverEvent::Delivered);
    assert!(matches!(a, ReceiverAction::Finish { mux: false, reason: ReceiverExit::OutOfTurn }));
    let (s, a) = s.step(ReceiverEvent::Control(None));
    assert!(matches!(a, ReceiverAction::Finish { mux: false, reason: ReceiverExit::OutOfTurn }));
    assert_eq!(s.phase(), ReceiverPhase::Stopped);
}

#[test]
fn the_muxer_is_asked_for_once() {
    let wire = on_wire(1, 0, 0, &[]);
    let (s, _) = Receiver::new(true).step(ReceiverEvent::Control(None));
    let (s, _) = s.step(ReceiverEvent::Header(wire));
    let (s, _) = s.step(ReceiverEvent::Delivered);
    let (s, a) = s.step(ReceiverEvent::Control(Some(Message::stop_request())));
    assert!(matches!(a, ReceiverAction::Finish { mux: true, reason: ReceiverExit::Stopped }));
    let (_, a) = s.step(ReceiverEvent::Closed);
    assert!(matches!(a, ReceiverAction::Finish { mux: false, .. }));
}

#[test]
fn a_new_receiver_polls_first() {
    let r = Receiver::new(true);
    assert_eq!(r.phase(), ReceiverPhase::AwaitControl);
    assert!(r.save_enabled());
    let (r, a) = r.step(ReceiverEvent::Control(Some(Message::save_request(false))));
    assert!(matches!(a, ReceiverAction::ReadHeader));
    assert_eq!(r.phase(), ReceiverPhase::AwaitHeader);
    assert!(!r.save_enabled());
}
