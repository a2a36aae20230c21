//! Receiving side of a session: the decisions of the worker loop that reads
//! headers and chunks off the connection and reassembles frames.
//!
//! The loop itself belongs to the caller. It performs the action it was handed
//! last (poll the control queue, read a block, pass a frame on) and reports what
//! came of it as an event; [`Receiver::step`] answers with the next action.

use vstd::prelude::*;
use crate::control::{Message, MessageType};
use crate::frame::{Frame, FrameView};
use crate::wire::{
    chunks_for, decode_header, decoded, lemma_header_round_trip, lemma_padded_len, padded,
    DecodeError, Header, PixelFormat, CHUNK_SIZE,
};

verus! {

/// Where the receiving loop stands.
#[derive(Clone, Copy, Debug, PartialEq, Eq, Structural)]
pub enum ReceiverPhase {
    /// The control queue is being polled.
    AwaitControl,
    /// A header block is being read.
    AwaitHeader,
    /// A payload chunk is being read.
    AwaitChunk,
    /// A finished frame is being passed to the display.
    AwaitDelivery,
    /// The session is over.
    Stopped,
}

/// Why the receiving loop ended.
#[derive(Clone, Copy, Debug, PartialEq, Eq, Structural)]
pub enum ReceiverExit {
    /// A stop request arrived on the control queue.
    Stopped,
    /// The connection ended, or a read came back short.
    ConnectionClosed,
    /// A header block could not be decoded.
    BadHeader(DecodeError),
    /// The display side no longer takes frames.
    DisplayGone,
    /// An event arrived that does not answer the action handed out last.
    OutOfTurn,
}

/// What the loop reports back after performing an action.
#[derive(Debug)]
pub enum ReceiverEvent {
    /// The control queue was polled; `None` when it was empty.
    Control(Option<Message>),
    /// A block read for a header.
    Header(Vec<u8>),
    /// A block read for a payload chunk.
    Chunk(Vec<u8>),
    /// The read failed: the peer closed the connection or sent too little.
    Closed,
    /// The frame was handed to the display.
    Delivered,
    /// The display side has dropped its end of the frame channel.
    ChannelClosed,
}

/// What the loop is to do next.
#[derive(Debug)]
pub enum ReceiverAction {
    /// Poll the control queue without blocking.
    PollControl,
    /// Read exactly [`crate::wire::HEADER_SIZE`] bytes.
    ReadHeader,
    /// Read exactly [`CHUNK_SIZE`] bytes.
    ReadChunk,
    /// Pass the frame to the display, and a copy to the archiver if `archive`
    /// is set.
    Deliver { frame_number: u32, frame: Frame, archive: bool },
    /// Leave the loop; run the video muxer first if `mux` is set, then remove
    /// the archived files.
    Finish { mux: bool, reason: ReceiverExit },
}

/// A [`ReceiverEvent`] with its bytes as sequences.
pub enum ReceiverEventView {
    Control(Option<Message>),
    Header(Seq<u8>),
    Chunk(Seq<u8>),
    Closed,
    Delivered,
    ChannelClosed,
}

/// A [`ReceiverAction`] with its frame as a [`FrameView`].
pub enum ReceiverActionView {
    PollControl,
    ReadHeader,
    ReadChunk,
    Deliver { frame_number: u32, frame: FrameView, archive: bool },
    Finish { mux: bool, reason: ReceiverExit },
}

impl View for ReceiverEvent {
    type V = ReceiverEventView;

    open spec fn view(&self) -> ReceiverEventView {
        match *self {
            ReceiverEvent::Control(m) => ReceiverEventView::Control(m),
            ReceiverEvent::Header(bytes) => ReceiverEventView::Header(bytes@),
            ReceiverEvent::Chunk(bytes) => ReceiverEventView::Chunk(bytes@),
            ReceiverEvent::Closed => ReceiverEventView::Closed,
            ReceiverEvent::Delivered => ReceiverEventView::Delivered,
            ReceiverEvent::ChannelClosed => ReceiverEventView::ChannelClosed,
        }
    }
}

impl View for ReceiverAction {
    type V = ReceiverActionView;

    open spec fn view(&self) -> ReceiverActionView {
        match *self {
            ReceiverAction::PollControl => ReceiverActionView::PollControl,
            ReceiverAction::ReadHeader => ReceiverActionView::ReadHeader,
            ReceiverAction::ReadChunk => ReceiverActionView::ReadChunk,
            ReceiverAction::Deliver { frame_number, frame, archive } => ReceiverActionView::Deliver {
                frame_number,
                frame: frame@,
                archive,
            },
            ReceiverAction::Finish { mux, reason } => ReceiverActionView::Finish { mux, reason },
        }
    }
}

/// State of the receiving loop between two steps.
pub struct Receiver {
    phase: ReceiverPhase,
    save_enabled: bool,
    archived: bool,
    header: Header,
    data: Vec<u8>,
}

/// What a [`Receiver`] holds.
pub struct ReceiverView {
    /// Where the loop stands.
    pub phase: ReceiverPhase,
    /// Whether frames completed from now on are archived.
    pub save_enabled: bool,
    /// Whether a frame was archived during this session.
    pub archived: bool,
    /// Header of the frame whose payload is being read.
    pub header: Header,
    /// Payload bytes collected so far for that frame.
    pub data: Seq<u8>,
}

impl ReceiverView {
    /// While chunks are being read, the header in hand is valid and whole
    /// chunks, but not yet the whole payload, have been collected; at any other
    /// time no payload bytes are held.
    pub open spec fn wf(self) -> bool {
        if self.phase == ReceiverPhase::AwaitChunk {
            &&& self.header.is_valid()
            &&& self.data.len() < self.header.len
            &&& self.data.len() % (CHUNK_SIZE as nat) == 0
        } else {
            self.data.len() == 0
        }
    }

    /// The state of a loop that has just begun.
    pub open spec fn fresh(save_option: bool) -> ReceiverView {
        ReceiverView {
            phase: ReceiverPhase::AwaitControl,
            save_enabled: save_option,
            archived: false,
            header: Header { frame_number: 0, len: 0, frame_width: 0, frame_height: 0 },
            data: Seq::empty(),
        }
    }

    /// Leaving the loop: the muxer runs if a frame was archived, and only this
    /// once.
    pub open spec fn finish(self, reason: ReceiverExit) -> (ReceiverView, ReceiverActionView) {
        (
            ReceiverView {
                phase: ReceiverPhase::Stopped,
                archived: false,
                data: Seq::empty(),
                ..self
            },
            ReceiverActionView::Finish { mux: self.archived, reason },
        )
    }

    /// Handing on the frame that `header` announced, with `data` as its pixels.
    pub open spec fn deliver(self, header: Header, data: Seq<u8>) -> (
        ReceiverView,
        ReceiverActionView,
    ) {
        (
            ReceiverView {
                phase: ReceiverPhase::AwaitDelivery,
                archived: self.archived || self.save_enabled,
                header,
                data: Seq::empty(),
                ..self
            },
            ReceiverActionView::Deliver {
                frame_number: header.frame_number,
                frame: FrameView { w: header.frame_width, h: header.frame_height, data },
                archive: self.save_enabled,
            },
        )
    }

    /// After the control queue was polled: a stop request ends the session, a
    /// save request sets the archiving switch for the frames to come, and
    /// anything else, an empty queue included, changes nothing. Unless stopped,
    /// the loop goes on to read a header.
    pub open spec fn on_control(self, message: Option<Message>) -> (
        ReceiverView,
        ReceiverActionView,
    ) {
        match message {
            Some(m) if m.message_type == MessageType::Stop => self.finish(ReceiverExit::Stopped),
            Some(m) if m.message_type == MessageType::Save => (
                ReceiverView {
                    phase: ReceiverPhase::AwaitHeader,
                    save_enabled: m.save_option,
                    ..self
                },
                ReceiverActionView::ReadHeader,
            ),
            _ => (
                ReceiverView { phase: ReceiverPhase::AwaitHeader, ..self },
                ReceiverActionView::ReadHeader,
            ),
        }
    }

    /// After a header block was read: a block that does not decode ends the
    /// session; a header that announces no payload completes its frame at
    /// once; any other header starts the reading of chunks.
    pub open spec fn on_header(self, bytes: Seq<u8>) -> (ReceiverView, ReceiverActionView) {
        match decoded(bytes) {
            Err(e) => self.finish(ReceiverExit::BadHeader(e)),
            Ok(header) => if header.len == 0 {
                self.deliver(header, Seq::empty())
            } else {
                (
                    ReceiverView {
                        phase: ReceiverPhase::AwaitChunk,
                        header,
                        data: Seq::empty(),
                        ..self
                    },
                    ReceiverActionView::ReadChunk,
                )
            },
        }
    }

    /// Payload bytes still missing from the frame in hand.
    pub open spec fn remaining(self) -> nat {
        (self.header.len - self.data.len()) as nat
    }

    /// After a chunk was read: a block of any other size than a chunk is a
    /// short read and ends the session. Of a whole chunk the leading bytes that
    /// the payload still lacks are kept and the rest is dropped; the frame is
    /// handed on once the payload is complete.
    pub open spec fn on_chunk(self, bytes: Seq<u8>) -> (ReceiverView, ReceiverActionView) {
        if bytes.len() != CHUNK_SIZE {
            self.finish(ReceiverExit::ConnectionClosed)
        } else if self.remaining() <= CHUNK_SIZE {
            self.deliver(self.header, self.data + bytes.take(self.remaining() as int))
        } else {
            (ReceiverView { data: self.data + bytes, ..self }, ReceiverActionView::ReadChunk)
        }
    }

    /// The state and the action that follow `event`.
    pub open spec fn next(self, event: ReceiverEventView) -> (ReceiverView, ReceiverActionView) {
        match (self.phase, event) {
            (ReceiverPhase::AwaitControl, ReceiverEventView::Control(message)) => self.on_control(
                message,
            ),
            (ReceiverPhase::AwaitHeader, ReceiverEventView::Header(bytes)) => self.on_header(bytes),
            (ReceiverPhase::AwaitHeader, ReceiverEventView::Closed) => self.finish(
                ReceiverExit::ConnectionClosed,
            ),
            (ReceiverPhase::AwaitChunk, ReceiverEventView::Chunk(bytes)) => self.on_chunk(bytes),
            (ReceiverPhase::AwaitChunk, ReceiverEventView::Closed) => self.finish(
                ReceiverExit::ConnectionClosed,
            ),
            (ReceiverPhase::AwaitDelivery, ReceiverEventView::Delivered) => (
                ReceiverView { phase: ReceiverPhase::AwaitControl, ..self },
                ReceiverActionView::PollControl,
            ),
            (ReceiverPhase::AwaitDelivery, ReceiverEventView::ChannelClosed) => self.finish(
                ReceiverExit::DisplayGone,
            ),
            _ => self.finish(ReceiverExit::OutOfTurn),
        }
    }
}

impl ReceiverView {
    /// The state after the first `n` of `events`, and the actions they drew.
    pub open spec fn run_first(self, events: Seq<ReceiverEventView>, n: nat) -> (
        ReceiverView,
        Seq<ReceiverActionView>,
    )
        decreases n,
    {
        if n == 0 {
            (self, Seq::empty())
        } else {
            let (before, actions) = self.run_first(events, (n - 1) as nat);
            let (after, action) = before.next(events[n - 1]);
            (after, actions.push(action))
        }
    }

    /// The state after all of `events`, and the actions they drew, one for each
    /// event.
    pub open spec fn run(self, events: Seq<ReceiverEventView>) -> (
        ReceiverView,
        Seq<ReceiverActionView>,
    ) {
        self.run_first(events, events.len())
    }

    /// An upper bound on the events that pass before the control queue is
    /// polled again.
    pub open spec fn steps_to_poll(self) -> nat {
        match self.phase {
            ReceiverPhase::AwaitControl => 0,
            ReceiverPhase::AwaitHeader => 65538,
            ReceiverPhase::AwaitChunk => chunks_for(self.remaining()) + 1,
            ReceiverPhase::AwaitDelivery => 1,
            ReceiverPhase::Stopped => 0,
        }
    }
}

/// The chunk reads that a padded payload on the wire gives rise to: block after
/// block of [`CHUNK_SIZE`] bytes.
pub open spec fn chunk_events(wire: Seq<u8>) -> Seq<ReceiverEventView> {
    Seq::new(
        wire.len() / (CHUNK_SIZE as nat),
        |k: int| ReceiverEventView::Chunk(wire.subrange(k * CHUNK_SIZE, (k + 1) * CHUNK_SIZE)),
    )
}

/// The events of one frame on a healthy connection: an empty control queue, the
/// header block, and the chunks of the padded payload.
pub open spec fn frame_events(header_bytes: Seq<u8>, wire: Seq<u8>) -> Seq<ReceiverEventView> {
    seq![ReceiverEventView::Control(None), ReceiverEventView::Header(header_bytes)] + chunk_events(
        wire,
    )
}

impl View for Receiver {
    type V = ReceiverView;

    closed spec fn view(&self) -> ReceiverView {
        ReceiverView {
            phase: self.phase,
            save_enabled: self.save_enabled,
            archived: self.archived,
            header: self.header,
            data: self.data@,
        }
    }
}

impl Receiver {
    #[verifier::type_invariant]
    spec fn inv(self) -> bool {
        self@.wf()
    }

    /// The state of a loop about to begin, with archiving switched as
    /// `save_option` says. The loop starts by polling the control queue.
    pub fn new(save_option: bool) -> (r: Self)
        ensures
            r@ == ReceiverView::fresh(save_option),
    {
        Receiver {
            phase: ReceiverPhase::AwaitControl,
            save_enabled: save_option,
            archived: false,
            header: Header { frame_number: 0, len: 0, frame_width: 0, frame_height: 0 },
            data: Vec::new(),
        }
    }

    /// Where the loop stands.
    pub fn phase(&self) -> (p: ReceiverPhase)
        ensures
            p == self@.phase,
    {
        self.phase
    }

    /// Whether frames completed from now on are archived.
    pub fn save_enabled(&self) -> (b: bool)
        ensures
            b == self@.save_enabled,
    {
        self.save_enabled
    }

    fn finish(self, reason: ReceiverExit) -> (r: (Receiver, ReceiverAction))
        ensures
            (r.0@, r.1@) == self@.finish(reason),
    {
        (
            Receiver {
                phase: ReceiverPhase::Stopped,
                save_enabled: self.save_enabled,
                archived: false,
                header: self.header,
                data: Vec::new(),
            },
            ReceiverAction::Finish { mux: self.archived, reason },
        )
    }

    fn deliver(self, header: Header, data: Vec<u8>) -> (r: (Receiver, ReceiverAction))
        ensures
            (r.0@, r.1@) == self@.deliver(header, data@),
    {
        let archive: bool = self.save_enabled;
        (
            Receiver {
                phase: ReceiverPhase::AwaitDelivery,
                save_enabled: self.save_enabled,
                archived: self.archived || archive,
                header,
                data: Vec::new(),
            },
            ReceiverAction::Deliver {
                frame_number: header.frame_number,
                frame: Frame::new(header.frame_width, header.frame_height, data),
                archive,
            },
        )
    }

    fn read_header(self, save_enabled: bool) -> (r: (Receiver, ReceiverAction))
        requires
            self@.phase == ReceiverPhase::AwaitControl,
        ensures
            r.0@ == (ReceiverView { phase: ReceiverPhase::AwaitHeader, save_enabled, ..self@ }),
            r.1@ == ReceiverActionView::ReadHeader,
    {
        proof {
            use_type_invariant(&self);
        }
        (
            Receiver {
                phase: ReceiverPhase::AwaitHeader,
                save_enabled,
                archived: self.archived,
                header: self.header,
                data: self.data,
            },
            ReceiverAction::ReadHeader,
        )
    }

    fn on_control(self, message: Option<Message>) -> (r: (Receiver, ReceiverAction))
        requires
            self@.phase == ReceiverPhase::AwaitControl,
        ensures
            (r.0@, r.1@) == self@.on_control(message),
    {
        let save_enabled: bool = self.save_enabled;
        match message {
            Some(m) => match m.message_type {
                MessageType::Stop => self.finish(ReceiverExit::Stopped),
                MessageType::Save => self.read_header(m.save_option),
                MessageType::Area => self.read_header(save_enabled),
            },
            None => self.read_header(save_enabled),
        }
    }

    fn on_header(self, bytes: Vec<u8>) -> (r: (Receiver, ReceiverAction))
        requires
            self@.phase == ReceiverPhase::AwaitHeader,
        ensures
            (r.0@, r.1@) == self@.on_header(bytes@),
    {
        match decode_header(bytes.as_slice()) {
            Err(e) => self.finish(ReceiverExit::BadHeader(e)),
            Ok(header) => {
                if header.len == 0 {
                    self.deliver(header, Vec::new())
                } else {
                    (
                        Receiver {
                            phase: ReceiverPhase::AwaitChunk,
                            save_enabled: self.save_enabled,
                            archived: self.archived,
                            header,
                            data: Vec::new(),
                        },
                        ReceiverAction::ReadChunk,
                    )
                }
            },
        }
    }

    fn on_chunk(self, bytes: Vec<u8>) -> (r: (Receiver, ReceiverAction))
        requires
            self@.phase == ReceiverPhase::AwaitChunk,
        ensures
            (r.0@, r.1@) == self@.on_chunk(bytes@),
    {
        proof {
            use_type_invariant(&self);
        }
        if bytes.len() != CHUNK_SIZE as usize {
            return self.finish(ReceiverExit::ConnectionClosed);
        }
        let mut chunk: Vec<u8> = bytes;
        let Receiver { phase, save_enabled, archived, header, data } = self;
        let mut data: Vec<u8> = data;
        let remaining: usize = header.len as usize - data.len();
        if remaining <= CHUNK_SIZE as usize {
            chunk.truncate(remaining);
            data.append(&mut chunk);
            let rest = Receiver { phase, save_enabled, archived, header, data: Vec::new() };
            rest.deliver(header, data)
        } else {
            proof {
                lemma_whole_chunks(data@.len());
            }
            data.append(&mut chunk);
            (Receiver { phase, save_enabled, archived, header, data }, ReceiverAction::ReadChunk)
        }
    }

    /// Takes the outcome of the action handed out last and gives the state the
    /// loop is in now and what it is to do next.
    pub fn step(self, event: ReceiverEvent) -> (r: (Receiver, ReceiverAction))
        ensures
            (r.0@, r.1@) == self@.next(event@),
            r.0@.wf(),
    {
        let phase: ReceiverPhase = self.phase;
        let r = match phase {
            ReceiverPhase::AwaitControl => match event {
                ReceiverEvent::Control(message) => self.on_control(message),
                _ => self.finish(ReceiverExit::OutOfTurn),
            },
            ReceiverPhase::AwaitHeader => match event {
                ReceiverEvent::Header(bytes) => self.on_header(bytes),
                ReceiverEvent::Closed => self.finish(ReceiverExit::ConnectionClosed),
                _ => self.finish(ReceiverExit::OutOfTurn),
            },
            ReceiverPhase::AwaitChunk => match event {
                ReceiverEvent::Chunk(bytes) => self.on_chunk(bytes),
                ReceiverEvent::Closed => self.finish(ReceiverExit::ConnectionClosed),
                _ => self.finish(ReceiverExit::OutOfTurn),
            },
            ReceiverPhase::AwaitDelivery => match event {
                ReceiverEvent::Delivered => {
                    proof {
                        use_type_invariant(&self);
                    }
                    (
                        Receiver {
                            phase: ReceiverPhase::AwaitControl,
                            save_enabled: self.save_enabled,
                            archived: self.archived,
                            header: self.header,
                            data: self.data,
                        },
                        ReceiverAction::PollControl,
                    )
                },
                ReceiverEvent::ChannelClosed => self.finish(ReceiverExit::DisplayGone),
                _ => self.finish(ReceiverExit::OutOfTurn),
            },
            ReceiverPhase::Stopped => self.finish(ReceiverExit::OutOfTurn),
        };
        proof {
            use_type_invariant(&r.0);
        }
        r
    }
}

/// One more chunk keeps a whole number of chunks whole.
proof fn lemma_whole_chunks(n: nat)
    requires
        n % (CHUNK_SIZE as nat) == 0,
    ensures
        (n + CHUNK_SIZE) % (CHUNK_SIZE as int) == 0,
{
}

/// Every step leaves the state well-formed.
pub proof fn lemma_next_keeps_wf(s: ReceiverView, event: ReceiverEventView)
    requires
        s.wf(),
    ensures
        s.next(event).0.wf(),
{
}

/// A stop request found on the control queue ends the session at once: no
/// further read is asked for.
pub proof fn lemma_stop_ends_session(s: ReceiverView, m: Message)
    requires
        s.phase == ReceiverPhase::AwaitControl,
        m.message_type == MessageType::Stop,
    ensures
        s.next(ReceiverEventView::Control(Some(m))) == s.finish(ReceiverExit::Stopped),
        s.next(ReceiverEventView::Control(Some(m))).0.phase == ReceiverPhase::Stopped,
{
}

/// The control queue is polled once per frame: away from the poll, every event
/// either ends the session or brings the next poll strictly nearer, and the
/// poll is never more than 65538 events away.
pub proof fn lemma_poll_draws_near(s: ReceiverView, event: ReceiverEventView)
    requires
        s.wf(),
        s.phase != ReceiverPhase::AwaitControl,
    ensures
        s.steps_to_poll() <= 65538,
        s.next(event).0.phase == ReceiverPhase::Stopped || s.next(event).0.steps_to_poll()
            < s.steps_to_poll(),
{
}

/// A frame is handed on only when it is whole: its buffer has the length its
/// header announced, which agrees with its dimensions.
pub proof fn lemma_only_whole_frames(s: ReceiverView, event: ReceiverEventView)
    requires
        s.wf(),
    ensures
        s.next(event).1 matches ReceiverActionView::Deliver { frame, .. } ==> frame.fits(
            PixelFormat::Rgb,
        ) || frame.fits(PixelFormat::Rgba),
{
}

/// A connection that ends in the middle of a payload, by a failed read or by a
/// block shorter than a chunk, ends the session without a frame.
pub proof fn lemma_cut_payload_ends_session(s: ReceiverView, event: ReceiverEventView)
    requires
        s.phase == ReceiverPhase::AwaitChunk,
        event == ReceiverEventView::Closed || (event matches ReceiverEventView::Chunk(bytes)
            && bytes.len() < CHUNK_SIZE),
    ensures
        s.next(event) == s.finish(ReceiverExit::ConnectionClosed),
{
}

/// While the chunks before the last one come in, the loop keeps asking for
/// chunks and holds exactly the payload bytes read so far.
#[verifier::rlimit(50)]
proof fn lemma_chunks_accumulate(
    s: ReceiverView,
    header: Header,
    payload: Seq<u8>,
    events: Seq<ReceiverEventView>,
    k: nat,
)
    requires
        s.wf(),
        s.phase == ReceiverPhase::AwaitControl,
        header.is_valid(),
        payload.len() == header.len,
        events == frame_events(header.wire_bytes(), padded(payload)),
        k < chunks_for(payload.len()),
    ensures
        events.len() == 2 + chunks_for(payload.len()),
        s.run_first(events, 2 + k).0 == (ReceiverView {
            phase: ReceiverPhase::AwaitChunk,
            header,
            data: payload.take(k * CHUNK_SIZE),
            ..s
        }),
        ({
            let actions = s.run_first(events, 2 + k).1;
            &&& actions.len() == 2 + k
            &&& actions[0] == ReceiverActionView::ReadHeader
            &&& forall|i: int| 1 <= i < 2 + k ==> #[trigger] actions[i] == ReceiverActionView::ReadChunk
        }),
    decreases k,
{
    let wire = padded(payload);
    lemma_padded_len(payload.len());
    lemma_header_round_trip(header);
    assert(events.len() == 2 + chunks_for(payload.len()));
    if k == 0 {
        reveal_with_fuel(ReceiverView::run_first, 3);
        assert(events[0] == ReceiverEventView::Control(None));
        assert(events[1] == ReceiverEventView::Header(header.wire_bytes()));
        assert(payload.take(0) =~= Seq::<u8>::empty());
    } else {
        lemma_chunks_accumulate(s, header, payload, events, (k - 1) as nat);
        let before = s.run_first(events, (2 + k - 1) as nat).0;
        let block = wire.subrange((k - 1) * CHUNK_SIZE, k * CHUNK_SIZE);
        assert(events[2 + k - 1] == ReceiverEventView::Chunk(block));
        assert(block.len() == CHUNK_SIZE);
        assert(before.remaining() > CHUNK_SIZE);
        assert(before.data + block =~= payload.take(k * CHUNK_SIZE));
    }
}

/// A frame that is encoded, padded and read back chunk by chunk comes out as it
/// went in. From a loop that is about to poll its control queue, the events of
/// one frame draw a header read, one chunk read for every chunk but the first
/// of them, and at last the frame itself: the header's sequence number and
/// dimensions, and the payload without its padding.
#[verifier::rlimit(50)]
pub proof fn lemma_frame_round_trip(s: ReceiverView, header: Header, payload: Seq<u8>)
    requires
        s.wf(),
        s.phase == ReceiverPhase::AwaitControl,
        header.is_valid(),
        payload.len() == header.len,
    ensures
        ({
            let events = frame_events(header.wire_bytes(), padded(payload));
            let (after, actions) = s.run(events);
            &&& actions.len() == events.len() == 2 + chunks_for(payload.len())
            &&& actions[0] == ReceiverActionView::ReadHeader
            &&& forall|i: int|
                1 <= i < actions.len() - 1 ==> #[trigger] actions[i] == ReceiverActionView::ReadChunk
            &&& actions.last() == (ReceiverActionView::Deliver {
                frame_number: header.frame_number,
                frame: FrameView {
                    w: header.frame_width,
                    h: header.frame_height,
                    data: payload,
                },
                archive: s.save_enabled,
            })
            &&& after == (ReceiverView {
                phase: ReceiverPhase::AwaitDelivery,
                archived: s.archived || s.save_enabled,
                header,
                ..s
            })
        }),
{
    let wire = padded(payload);
    let events = frame_events(header.wire_bytes(), wire);
    let n = chunks_for(payload.len());
    lemma_padded_len(payload.len());
    lemma_header_round_trip(header);
    assert(events.len() == 2 + n);
    let goal = ReceiverActionView::Deliver {
        frame_number: header.frame_number,
        frame: FrameView { w: header.frame_width, h: header.frame_height, data: payload },
        archive: s.save_enabled,
    };
    if n == 0 {
        reveal_with_fuel(ReceiverView::run_first, 3);
        assert(events[0] == ReceiverEventView::Control(None));
        assert(events[1] == ReceiverEventView::Header(header.wire_bytes()));
        assert(payload =~= Seq::<u8>::empty());
        let first = s.next(events[0]);
        let second = first.0.next(events[1]);
        assert(s.run(events) == (second.0, seq![first.1].push(second.1)));
        assert(second.1 == goal);
    } else {
        lemma_chunks_accumulate(s, header, payload, events, (n - 1) as nat);
        let (before, actions) = s.run_first(events, (1 + n) as nat);
        let block = wire.subrange((n - 1) * CHUNK_SIZE, n * CHUNK_SIZE);
        assert(events[(n + 1) as int] == ReceiverEventView::Chunk(block));
        assert(block.len() == CHUNK_SIZE);
        assert(before.remaining() <= CHUNK_SIZE);
        assert(before.data + block.take(before.remaining() as int) =~= payload);
        let (after, action) = before.next(events[(n + 1) as int]);
        assert(s.run(events) == (after, actions.push(action)));
        assert(action == goal);
    }
    assert(s.run(events).0.data =~= s.data);
}

} // verus!
