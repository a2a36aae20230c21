//! Sending side of a session: the decisions of the worker loop that captures
//! frames and writes them to the connection.
//!
//! The loop itself belongs to the caller. It performs the action it was handed
//! last (poll the control queue, capture a frame, write to the connection) and
//! reports what came of it as an event; [`Sender::step`] answers with the next
//! action.

use vstd::prelude::*;
use crate::control::{Message, MessageType};
use crate::frame::{
    bgra_to_rgb, cropped, from_bgra_to_rgb, holds_rgba, lemma_clamped_within, pixel_count,
    u8x4_crop, Area, Frame, FrameView,
};
use crate::wire::{
    encode_header, image_len, lemma_header_round_trip, pad_to_chunk, padded, Header, PixelFormat,
};

verus! {

/// Pause between two frames and between two attempts to capture, in
/// milliseconds: a ninth of a second.
pub const FRAME_INTERVAL_MS: u64 = 1000 / 9;

/// Shortest pause the loop ever makes between two attempts to capture, in
/// milliseconds: a sixtieth of a second.
pub const MIN_INTERVAL_MS: u64 = 1000 / 60;

/// Where the sending loop stands.
#[derive(Clone, Copy, Debug, PartialEq, Eq, Structural)]
pub enum SenderPhase {
    /// The control queue is being polled.
    AwaitControl,
    /// A frame is being captured.
    AwaitFrame,
    /// Header and payload are being written to the connection.
    AwaitWrite,
    /// The session is over.
    Stopped,
}

/// Why the sending loop ended.
#[derive(Clone, Copy, Debug, PartialEq, Eq, Structural)]
pub enum SenderExit {
    /// A stop request arrived on the control queue.
    Stopped,
    /// A write to the connection failed.
    ConnectionClosed,
    /// The frame source failed for good.
    SourceFailed,
    /// A captured buffer was empty, or its length disagreed with its
    /// dimensions before or after cropping.
    BadFrame,
    /// The payload would be longer than a header can announce.
    Oversized,
    /// No sequence number is left for another frame.
    SequenceExhausted,
    /// An event arrived that does not answer the action handed out last.
    OutOfTurn,
}

/// What the loop reports back after performing an action.
#[derive(Debug)]
pub enum SenderEvent {
    /// The control queue was polled; `None` when it was empty.
    Control(Option<Message>),
    /// The frame source delivered the whole screen as four-byte
    /// blue-green-red-alpha pixels.
    Captured(Frame),
    /// The frame source has no new frame yet.
    NotReady,
    /// The frame source failed.
    SourceFailed,
    /// Header and payload were written in full.
    Written,
    /// A write failed.
    WriteFailed,
}

/// What the loop is to do next.
#[derive(Debug)]
pub enum SenderAction {
    /// Sleep for `wait_ms` milliseconds, then poll the control queue without
    /// blocking.
    PollControl { wait_ms: u64 },
    /// Sleep for `wait_ms` milliseconds, then ask the frame source for a frame;
    /// if `restart` is set, set the source up anew for `area` first.
    Capture { area: Area, restart: bool, wait_ms: u64 },
    /// Write `header` to the connection in one piece, then `payload` in one
    /// piece.
    Write { header: Vec<u8>, payload: Vec<u8> },
    /// Close the connection and leave the loop.
    Finish { reason: SenderExit },
}

/// A [`SenderEvent`] with its frame as a [`FrameView`].
pub enum SenderEventView {
    Control(Option<Message>),
    Captured(FrameView),
    NotReady,
    SourceFailed,
    Written,
    WriteFailed,
}

/// A [`SenderAction`] with its bytes as sequences.
pub enum SenderActionView {
    PollControl { wait_ms: u64 },
    Capture { area: Area, restart: bool, wait_ms: u64 },
    Write { header: Seq<u8>, payload: Seq<u8> },
    Finish { reason: SenderExit },
}

impl View for SenderEvent {
    type V = SenderEventView;

    open spec fn view(&self) -> SenderEventView {
        match *self {
            SenderEvent::Control(m) => SenderEventView::Control(m),
            SenderEvent::Captured(frame) => SenderEventView::Captured(frame@),
            SenderEvent::NotReady => SenderEventView::NotReady,
            SenderEvent::SourceFailed => SenderEventView::SourceFailed,
            SenderEvent::Written => SenderEventView::Written,
            SenderEvent::WriteFailed => SenderEventView::WriteFailed,
        }
    }
}

impl View for SenderAction {
    type V = SenderActionView;

    open spec fn view(&self) -> SenderActionView {
        match *self {
            SenderAction::PollControl { wait_ms } => SenderActionView::PollControl { wait_ms },
            SenderAction::Capture { area, restart, wait_ms } => SenderActionView::Capture {
                area,
                restart,
                wait_ms,
            },
            SenderAction::Write { header, payload } => SenderActionView::Write {
                header: header@,
                payload: payload@,
            },
            SenderAction::Finish { reason } => SenderActionView::Finish { reason },
        }
    }
}

/// The header and the payload, before padding, that a captured frame is sent
/// with, or the reason why it cannot be sent.
///
/// The capture must be a non-empty buffer of four-byte pixels that matches its
/// dimensions, and must still match them after cropping to `area`. The payload
/// is the cropped image as three-byte red-green-blue pixels; the header carries
/// the sequence number after `frame_number`, the payload's length and the
/// cropped dimensions.
pub open spec fn outgoing(frame_number: u32, raw: FrameView, area: Area) -> Result<
    (Header, Seq<u8>),
    SenderExit,
> {
    let image = cropped(raw, area);
    if raw.data.len() == 0 || !raw.fits(PixelFormat::Rgba) || !image.fits(PixelFormat::Rgba) {
        Err(SenderExit::BadFrame)
    } else if image_len(image.w, image.h, PixelFormat::Rgb) > u32::MAX {
        Err(SenderExit::Oversized)
    } else if frame_number == u32::MAX {
        Err(SenderExit::SequenceExhausted)
    } else {
        Ok(
            (
                Header {
                    frame_number: (frame_number + 1) as u32,
                    len: image_len(image.w, image.h, PixelFormat::Rgb) as u32,
                    frame_width: image.w,
                    frame_height: image.h,
                },
                bgra_to_rgb(image.data),
            ),
        )
    }
}

/// A prepared frame or the reason why there is none, with the payload as a
/// sequence.
pub open spec fn prepared_view(r: Result<(Header, Vec<u8>), SenderExit>) -> Result<
    (Header, Seq<u8>),
    SenderExit,
> {
    match r {
        Ok((header, payload)) => Ok((header, payload@)),
        Err(reason) => Err(reason),
    }
}

/// Crops a captured frame to `area`, converts it to the wire's pixel format and
/// builds the header that announces it under the sequence number after
/// `frame_number`.
pub fn prepare_frame(frame_number: u32, raw: Frame, area: &Area) -> (r: Result<
    (Header, Vec<u8>),
    SenderExit,
>)
    ensures
        prepared_view(r) == outgoing(frame_number, raw@, *area),
{
    if raw.data.len() == 0 || !holds_rgba(raw.data.len(), raw.w, raw.h) {
        return Err(SenderExit::BadFrame);
    }
    let image: Frame = u8x4_crop(raw, area);
    if !holds_rgba(image.data.len(), image.w, image.h) {
        return Err(SenderExit::BadFrame);
    }
    let pixels: u64 = pixel_count(image.w, image.h);
    if pixels > (u32::MAX / 3) as u64 {
        return Err(SenderExit::Oversized);
    }
    if frame_number == u32::MAX {
        return Err(SenderExit::SequenceExhausted);
    }
    let header = Header::new(frame_number + 1, (pixels * 3) as u32, image.w, image.h);
    let payload: Vec<u8> = from_bgra_to_rgb(image.data);
    Ok((header, payload))
}

/// State of the sending loop between two steps.
pub struct Sender {
    phase: SenderPhase,
    frame_number: u32,
    area: Area,
    interval_ms: u64,
}

/// What a [`Sender`] holds.
pub struct SenderView {
    /// Where the loop stands.
    pub phase: SenderPhase,
    /// Sequence number of the frame sent last; 0 before the first.
    pub frame_number: u32,
    /// Region that frames are cropped to.
    pub area: Area,
    /// Pause between frames and between capture attempts, in milliseconds.
    pub interval_ms: u64,
}

impl SenderView {
    /// The state of a loop that has just begun. An interval shorter than
    /// [`MIN_INTERVAL_MS`] is raised to it.
    pub open spec fn fresh(area: Area, interval_ms: u64) -> SenderView {
        SenderView {
            phase: SenderPhase::AwaitControl,
            frame_number: 0,
            area,
            interval_ms: if interval_ms < MIN_INTERVAL_MS {
                MIN_INTERVAL_MS
            } else {
                interval_ms
            },
        }
    }

    /// The pause is never shorter than [`MIN_INTERVAL_MS`].
    pub open spec fn wf(self) -> bool {
        self.interval_ms >= MIN_INTERVAL_MS
    }

    /// Leaving the loop.
    pub open spec fn finish(self, reason: SenderExit) -> (SenderView, SenderActionView) {
        (SenderView { phase: SenderPhase::Stopped, ..self }, SenderActionView::Finish { reason })
    }

    /// After the control queue was polled: a stop request ends the session; a
    /// new region is adopted and the frame source set up anew for it before
    /// the next capture; anything else, an empty queue included, changes
    /// nothing. Unless stopped, the loop goes on to capture a frame.
    pub open spec fn on_control(self, message: Option<Message>) -> (SenderView, SenderActionView) {
        match message {
            Some(m) if m.message_type == MessageType::Stop => self.finish(SenderExit::Stopped),
            Some(m) if m.message_type == MessageType::Area => (
                SenderView { phase: SenderPhase::AwaitFrame, area: m.area, ..self },
                SenderActionView::Capture { area: m.area, restart: true, wait_ms: 0 },
            ),
            _ => (
                SenderView { phase: SenderPhase::AwaitFrame, ..self },
                SenderActionView::Capture { area: self.area, restart: false, wait_ms: 0 },
            ),
        }
    }

    /// After a frame was captured: it is cropped, converted and written under
    /// the next sequence number, or the session ends because it cannot be.
    pub open spec fn on_frame(self, raw: FrameView) -> (SenderView, SenderActionView) {
        match outgoing(self.frame_number, raw, self.area) {
            Err(reason) => self.finish(reason),
            Ok((header, payload)) => (
                SenderView {
                    phase: SenderPhase::AwaitWrite,
                    frame_number: header.frame_number,
                    ..self
                },
                SenderActionView::Write { header: header.wire_bytes(), payload: padded(payload) },
            ),
        }
    }

    /// The state and the action that follow `event`.
    pub open spec fn next(self, event: SenderEventView) -> (SenderView, SenderActionView) {
        match (self.phase, event) {
            (SenderPhase::AwaitControl, SenderEventView::Control(message)) => self.on_control(
                message,
            ),
            (SenderPhase::AwaitFrame, SenderEventView::Captured(raw)) => self.on_frame(raw),
            (SenderPhase::AwaitFrame, SenderEventView::NotReady) => (
                self,
                SenderActionView::Capture {
                    area: self.area,
                    restart: false,
                    wait_ms: self.interval_ms,
                },
            ),
            (SenderPhase::AwaitFrame, SenderEventView::SourceFailed) => self.finish(
                SenderExit::SourceFailed,
            ),
            (SenderPhase::AwaitWrite, SenderEventView::Written) => (
                SenderView { phase: SenderPhase::AwaitControl, ..self },
                SenderActionView::PollControl { wait_ms: self.interval_ms },
            ),
            (SenderPhase::AwaitWrite, SenderEventView::WriteFailed) => self.finish(
                SenderExit::ConnectionClosed,
            ),
            _ => self.finish(SenderExit::OutOfTurn),
        }
    }
}

impl SenderView {
    /// The state after the first `n` of `events`, and the actions they drew.
    pub open spec fn run_first(self, events: Seq<SenderEventView>, n: nat) -> (
        SenderView,
        Seq<SenderActionView>,
    )
        decreases n,
    {
        if n == 0 {
            (self, Seq::empty())
        } else {
            let (before, actions) = self.run_first(events, (n - 1) as nat);
            let (after, action) = before.next(events[n - 1]);
            (after, actions.push(action))
        }
    }

    /// The state after all of `events`, and the actions they drew, one for each
    /// event.
    pub open spec fn run(self, events: Seq<SenderEventView>) -> (
        SenderView,
        Seq<SenderActionView>,
    ) {
        self.run_first(events, events.len())
    }

    /// An upper bound on the events that pass before the control queue is
    /// polled again, as long as the frame source has a frame ready.
    pub open spec fn steps_to_poll(self) -> nat {
        match self.phase {
            SenderPhase::AwaitControl => 0,
            SenderPhase::AwaitFrame => 2,
            SenderPhase::AwaitWrite => 1,
            SenderPhase::Stopped => 0,
        }
    }
}

/// The sequence numbers of the headers among `actions` that are written to the
/// connection, in the order of writing.
pub open spec fn written_numbers(actions: Seq<SenderActionView>) -> Seq<u32>
    decreases actions.len(),
{
    if actions.len() == 0 {
        Seq::empty()
    } else {
        let earlier = written_numbers(actions.drop_last());
        match actions.last() {
            SenderActionView::Write { header, .. } => earlier.push(
                Header::from_wire(header).frame_number,
            ),
            _ => earlier,
        }
    }
}

impl View for Sender {
    type V = SenderView;

    closed spec fn view(&self) -> SenderView {
        SenderView {
            phase: self.phase,
            frame_number: self.frame_number,
            area: self.area,
            interval_ms: self.interval_ms,
        }
    }
}

impl Sender {
    #[verifier::type_invariant]
    spec fn inv(self) -> bool {
        self@.wf()
    }

    /// The state of a loop about to begin: no frame sent yet, frames cropped
    /// to `area`, `interval_ms` milliseconds between frames and between
    /// attempts to capture, but never less than [`MIN_INTERVAL_MS`].
    pub fn new(area: Area, interval_ms: u64) -> (s: Self)
        ensures
            s@ == SenderView::fresh(area, interval_ms),
    {
        let interval_ms: u64 = if interval_ms < MIN_INTERVAL_MS {
            MIN_INTERVAL_MS
        } else {
            interval_ms
        };
        Sender { phase: SenderPhase::AwaitControl, frame_number: 0, area, interval_ms }
    }

    /// What the loop does first: wait one interval, then poll the control
    /// queue.
    pub fn begin(&self) -> (action: SenderAction)
        ensures
            action@ == (SenderActionView::PollControl { wait_ms: self@.interval_ms }),
    {
        SenderAction::PollControl { wait_ms: self.interval_ms }
    }

    /// Where the loop stands.
    pub fn phase(&self) -> (p: SenderPhase)
        ensures
            p == self@.phase,
    {
        self.phase
    }

    /// Sequence number of the frame sent last; 0 before the first.
    pub fn frame_number(&self) -> (n: u32)
        ensures
            n == self@.frame_number,
    {
        self.frame_number
    }

    /// Region that frames are cropped to.
    pub fn area(&self) -> (a: Area)
        ensures
            a == self@.area,
    {
        self.area
    }

    fn finish(self, reason: SenderExit) -> (r: (Sender, SenderAction))
        ensures
            (r.0@, r.1@) == self@.finish(reason),
    {
        proof {
            use_type_invariant(&self);
        }
        (
            Sender {
                phase: SenderPhase::Stopped,
                frame_number: self.frame_number,
                area: self.area,
                interval_ms: self.interval_ms,
            },
            SenderAction::Finish { reason },
        )
    }

    fn ask_for_frame(self, area: Area, restart: bool, wait_ms: u64) -> (r: (Sender, SenderAction))
        ensures
            r.0@ == (SenderView { phase: SenderPhase::AwaitFrame, area, ..self@ }),
            r.1@ == (SenderActionView::Capture { area, restart, wait_ms }),
    {
        proof {
            use_type_invariant(&self);
        }
        (
            Sender {
                phase: SenderPhase::AwaitFrame,
                frame_number: self.frame_number,
                area,
                interval_ms: self.interval_ms,
            },
            SenderAction::Capture { area, restart, wait_ms },
        )
    }

    fn on_control(self, message: Option<Message>) -> (r: (Sender, SenderAction))
        ensures
            (r.0@, r.1@) == self@.on_control(message),
    {
        let area: Area = self.area;
        match message {
            Some(m) => match m.message_type {
                MessageType::Stop => self.finish(SenderExit::Stopped),
                MessageType::Area => self.ask_for_frame(m.area, true, 0),
                MessageType::Save => self.ask_for_frame(area, false, 0),
            },
            None => self.ask_for_frame(area, false, 0),
        }
    }

    fn on_frame(self, raw: Frame) -> (r: (Sender, SenderAction))
        ensures
            (r.0@, r.1@) == self@.on_frame(raw@),
    {
        proof {
            use_type_invariant(&self);
        }
        match prepare_frame(self.frame_number, raw, &self.area) {
            Err(reason) => self.finish(reason),
            Ok((header, payload)) => (
                Sender {
                    phase: SenderPhase::AwaitWrite,
                    frame_number: header.frame_number,
                    area: self.area,
                    interval_ms: self.interval_ms,
                },
                SenderAction::Write {
                    header: encode_header(&header),
                    payload: pad_to_chunk(payload),
                },
            ),
        }
    }

    /// Takes the outcome of the action handed out last and gives the state the
    /// loop is in now and what it is to do next.
    pub fn step(self, event: SenderEvent) -> (r: (Sender, SenderAction))
        ensures
            (r.0@, r.1@) == self@.next(event@),
            r.0@.wf(),
    {
        proof {
            use_type_invariant(&self);
        }
        let phase: SenderPhase = self.phase;
        let area: Area = self.area;
        let interval_ms: u64 = self.interval_ms;
        match phase {
            SenderPhase::AwaitControl => match event {
                SenderEvent::Control(message) => self.on_control(message),
                _ => self.finish(SenderExit::OutOfTurn),
            },
            SenderPhase::AwaitFrame => match event {
                SenderEvent::Captured(raw) => self.on_frame(raw),
                SenderEvent::NotReady => self.ask_for_frame(area, false, interval_ms),
                SenderEvent::SourceFailed => self.finish(SenderExit::SourceFailed),
                _ => self.finish(SenderExit::OutOfTurn),
            },
            SenderPhase::AwaitWrite => match event {
                SenderEvent::Written => (
                    Sender {
                        phase: SenderPhase::AwaitControl,
                        frame_number: self.frame_number,
                        area,
                        interval_ms,
                    },
                    SenderAction::PollControl { wait_ms: interval_ms },
                ),
                SenderEvent::WriteFailed => self.finish(SenderExit::ConnectionClosed),
                _ => self.finish(SenderExit::OutOfTurn),
            },
            SenderPhase::Stopped => self.finish(SenderExit::OutOfTurn),
        }
    }
}

/// A stop request found on the control queue ends the session at once: nothing
/// more is captured or written.
pub proof fn lemma_stop_ends_session(s: SenderView, m: Message)
    requires
        s.phase == SenderPhase::AwaitControl,
        m.message_type == MessageType::Stop,
    ensures
        s.next(SenderEventView::Control(Some(m))) == s.finish(SenderExit::Stopped),
        s.next(SenderEventView::Control(Some(m))).0.phase == SenderPhase::Stopped,
{
}

/// The control queue is polled once per frame: away from the poll, every event
/// but a frame source that is not ready either ends the session or brings the
/// next poll strictly nearer, and the poll is never more than two such events
/// away.
pub proof fn lemma_poll_draws_near(s: SenderView, event: SenderEventView)
    requires
        s.phase != SenderPhase::AwaitControl,
        event != SenderEventView::NotReady,
    ensures
        s.steps_to_poll() <= 2,
        s.next(event).0.phase == SenderPhase::Stopped || s.next(event).0.steps_to_poll()
            < s.steps_to_poll(),
{
}

/// A frame source that is not ready is asked again, for the same region and
/// without being set up anew, after a pause of the loop's interval, which is
/// never shorter than [`MIN_INTERVAL_MS`].
pub proof fn lemma_retry_waits(s: SenderView)
    requires
        s.wf(),
        s.phase == SenderPhase::AwaitFrame,
    ensures
        s.next(SenderEventView::NotReady) == (
            s,
            SenderActionView::Capture { area: s.area, restart: false, wait_ms: s.interval_ms },
        ),
        s.interval_ms >= MIN_INTERVAL_MS,
{
}

/// A header that is written is valid, announces the payload written with it,
/// and carries the sequence number that follows the one before; a step that
/// writes nothing leaves the sequence number alone.
pub proof fn lemma_step_numbers(s: SenderView, event: SenderEventView)
    ensures
        match s.next(event).1 {
            SenderActionView::Write { header, payload } => {
                let h = Header::from_wire(header);
                &&& header == h.wire_bytes()
                &&& h.describes(PixelFormat::Rgb)
                &&& payload.len() == crate::wire::padded_len(h.len as nat)
                &&& h.frame_number == s.frame_number + 1
                &&& s.next(event).0.frame_number == h.frame_number
            },
            _ => s.next(event).0.frame_number == s.frame_number,
        },
{
    match s.next(event).1 {
        SenderActionView::Write { header, payload } => {
            let raw = event->Captured_0;
            let (h, p) = outgoing(s.frame_number, raw, s.area)->Ok_0;
            lemma_header_round_trip(h);
            crate::wire::lemma_padded_len(p.len());
        },
        _ => {},
    }
}

/// Sequence numbers are handed out in order and without gaps: whatever events
/// arrive, the headers written carry the numbers that follow the one the loop
/// started from, one after another. A loop that starts fresh numbers its frames
/// 1, 2, 3 and so on.
pub proof fn lemma_sequence_numbers(s: SenderView, events: Seq<SenderEventView>, n: nat)
    requires
        n <= events.len(),
    ensures
        ({
            let (after, actions) = s.run_first(events, n);
            let numbers = written_numbers(actions);
            &&& actions.len() == n
            &&& after.frame_number == s.frame_number + numbers.len()
            &&& forall|k: int| 0 <= k < numbers.len() ==> #[trigger] numbers[k] == s.frame_number + 1 + k
        }),
    decreases n,
{
    if n > 0 {
        lemma_sequence_numbers(s, events, (n - 1) as nat);
        let (before, actions) = s.run_first(events, (n - 1) as nat);
        let (after, action) = before.next(events[n - 1]);
        lemma_step_numbers(before, events[n - 1]);
        assert(actions.push(action).drop_last() =~= actions);
    }
}

/// Every header that is written carries the region in force when its frame was
/// captured. For a region of at least one pixel that lies inside the captured
/// screen, a capture whose buffer matches the screen's dimensions is answered
/// with a header of the region's width and height and of three bytes per pixel,
/// unless the session ends for want of a sequence number or because the length
/// does not fit a header; any other capture ends the session as a bad frame.
pub proof fn lemma_header_carries_region(s: SenderView, raw: FrameView)
    requires
        s.phase == SenderPhase::AwaitFrame,
        s.area.within(raw.w, raw.h),
        s.area.width > 0,
        s.area.height > 0,
    ensures
        ({
            let (after, action) = s.next(SenderEventView::Captured(raw));
            let len = image_len(s.area.width, s.area.height, PixelFormat::Rgb);
            if !raw.fits(PixelFormat::Rgba) {
                action == (SenderActionView::Finish { reason: SenderExit::BadFrame })
            } else if len > u32::MAX {
                action == (SenderActionView::Finish { reason: SenderExit::Oversized })
            } else if s.frame_number == u32::MAX {
                action == (SenderActionView::Finish { reason: SenderExit::SequenceExhausted })
            } else {
                &&& action matches SenderActionView::Write { header, .. }
                &&& Header::from_wire(header) == (Header {
                    frame_number: (s.frame_number + 1) as u32,
                    len: len as u32,
                    frame_width: s.area.width,
                    frame_height: s.area.height,
                })
                &&& after.area == s.area
            }
        }),
{
    let area = s.area;
    lemma_clamped_within(area, raw.w, raw.h);
    if raw.fits(PixelFormat::Rgba) {
        assert(0 < (area.width as nat) * (area.height as nat) <= (raw.w as nat) * (raw.h as nat))
            by (nonlinear_arith)
            requires
                0 < area.width <= raw.w,
                0 < area.height <= raw.h,
        ;
        if raw.data.len() == (area.width as nat) * (area.height as nat) * 4 {
            assert(area.width == raw.w && area.height == raw.h) by (nonlinear_arith)
                requires
                    (raw.w as nat) * (raw.h as nat) == (area.width as nat) * (area.height as nat),
                    0 < area.width <= raw.w,
                    0 < area.height <= raw.h,
            ;
        }
        if outgoing(s.frame_number, raw, area) is Ok {
            let (h, p) = outgoing(s.frame_number, raw, area)->Ok_0;
            lemma_header_round_trip(h);
        }
    }
}

/// A change of region shows in the next frame. Once an area request is taken
/// off the control queue, the frame source is set up anew for that region
/// before the next capture, and that capture is answered as
/// [`lemma_header_carries_region`] says for the new region: the header written
/// in the same round carries the region's width, height and three bytes per
/// pixel. Nothing written before the request is touched by it.
pub proof fn lemma_area_change_shows(s: SenderView, m: Message, raw: FrameView)
    requires
        s.phase == SenderPhase::AwaitControl,
        m.message_type == MessageType::Area,
        m.area.within(raw.w, raw.h),
        m.area.width > 0,
        m.area.height > 0,
    ensures
        ({
            let (polled, capture) = s.next(SenderEventView::Control(Some(m)));
            let (captured, write) = polled.next(SenderEventView::Captured(raw));
            let len = image_len(m.area.width, m.area.height, PixelFormat::Rgb);
            &&& capture == (SenderActionView::Capture { area: m.area, restart: true, wait_ms: 0 })
            &&& polled == (SenderView { phase: SenderPhase::AwaitFrame, area: m.area, ..s })
            &&& raw.fits(PixelFormat::Rgba) && len <= u32::MAX && s.frame_number < u32::MAX ==> {
                &&& write matches SenderActionView::Write { header, .. }
                &&& Header::from_wire(header) == (Header {
                    frame_number: (s.frame_number + 1) as u32,
                    len: len as u32,
                    frame_width: m.area.width,
                    frame_height: m.area.height,
                })
                &&& captured.area == m.area
            }
            &&& !(raw.fits(PixelFormat::Rgba) && len <= u32::MAX && s.frame_number < u32::MAX)
                ==> write is Finish
        }),
{
    let polled = s.next(SenderEventView::Control(Some(m))).0;
    lemma_header_carries_region(polled, raw);
}

} // verus!
