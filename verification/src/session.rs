//! Both ends of a session taken together: what the sending loop writes is what
//! the receiving loop hands to the display.

use vstd::prelude::*;
use crate::frame::FrameView;
use crate::receiver::{
    frame_events, lemma_frame_round_trip, ReceiverActionView, ReceiverPhase, ReceiverView,
};
use crate::sender::{outgoing, SenderActionView, SenderEventView, SenderPhase, SenderView};
use crate::wire::{padded, PixelFormat};

verus! {

/// A captured frame that can be sent arrives whole. The sending loop writes its
/// header and padded payload; a receiving loop that is about to poll its
/// control queue and then reads exactly these bytes hands on one frame, which
/// carries the sequence number after the sender's last, the cropped
/// dimensions, and the converted pixels without any padding.
pub proof fn lemma_written_frame_arrives(s: SenderView, raw: FrameView, r: ReceiverView)
    requires
        s.phase == SenderPhase::AwaitFrame,
        outgoing(s.frame_number, raw, s.area) is Ok,
        r.wf(),
        r.phase == ReceiverPhase::AwaitControl,
    ensures
        ({
            let (header, payload) = outgoing(s.frame_number, raw, s.area)->Ok_0;
            let write = s.next(SenderEventView::Captured(raw)).1;
            let arrived = r.run(frame_events(header.wire_bytes(), padded(payload))).1;
            &&& write == (SenderActionView::Write {
                header: header.wire_bytes(),
                payload: padded(payload),
            })
            &&& header.frame_number == s.frame_number + 1
            &&& arrived.last() == (ReceiverActionView::Deliver {
                frame_number: header.frame_number,
                frame: FrameView {
                    w: header.frame_width,
                    h: header.frame_height,
                    data: payload,
                },
                archive: r.save_enabled,
            })
            &&& forall|i: int|
                0 <= i < arrived.len() - 1 ==> !(#[trigger] arrived[i] is Deliver)
        }),
{
    let (header, payload) = outgoing(s.frame_number, raw, s.area)->Ok_0;
    lemma_frame_round_trip(r, header, payload);
}

} // verus!
