//! The capture side of the frame pipeline: each captured JPEG is scaled down,
//! re-encoded, and offered to the frame queue.
use crate::frame_channel::{offered, FrameChannel, Offer};
use crate::jpeg::{decode_jpeg, decodes_as_jpeg, encode_jpeg, fit_within, starts_as_jpeg, thumbnail_encodes};
use vstd::prelude::*;

verus! {

/// Side of the square that relayed frames are scaled to fit, in pixels.
pub const FRAME_SIDE: u32 = 254;

/// Scales a captured JPEG frame to fit within [`FRAME_SIDE`] pixels square and
/// encodes it again; `None` when the frame does not decode or does not encode.
pub fn prepare_frame(raw: &[u8]) -> (r: Option<Vec<u8>>)
    ensures
        !decodes_as_jpeg(raw@) ==> r.is_none(),
        decodes_as_jpeg(raw@) ==> r.is_some() == thumbnail_encodes(raw@, FRAME_SIDE),
        r matches Some(v) ==> starts_as_jpeg(v@),
{
    match decode_jpeg(raw) {
        Some(decoded) => {
            let small = fit_within(&decoded, FRAME_SIDE);
            encode_jpeg(&small)
        },
        None => None,
    }
}

/// What became of one captured frame.
#[derive(Debug, Clone, Copy, PartialEq, Eq, Structural)]
pub enum Capture {
    /// The frame was queued for the relay.
    Queued,
    /// The queue was full and the frame was dropped.
    Dropped,
    /// The frame could not be decoded or encoded again and was discarded.
    Unreadable,
}

/// Offers a prepared frame to the queue; `prepared` is `None` when preparing it failed.
pub fn offer_prepared(channel: &mut FrameChannel, prepared: Option<Vec<u8>>) -> (r: Capture)
    requires
        old(channel).wf(),
    ensures
        final(channel).wf(),
        final(channel).spec_capacity() == old(channel).spec_capacity(),
        prepared.is_none() ==> r == Capture::Unreadable && final(channel).pending() == old(channel).pending(),
        prepared matches Some(f) ==> final(channel).pending() == offered(
            old(channel).pending(),
            old(channel).spec_capacity(),
            f,
        ) && r == (if old(channel).pending().len() < old(channel).spec_capacity() {
            Capture::Queued
        } else {
            Capture::Dropped
        }),
{
    match prepared {
        Some(frame) => match channel.offer(frame) {
            Offer::Accepted => Capture::Queued,
            Offer::Dropped => Capture::Dropped,
        },
        None => Capture::Unreadable,
    }
}

/// Prepares a captured frame and offers it to the queue without waiting.
pub fn capture(channel: &mut FrameChannel, raw: &[u8]) -> (r: Capture)
    requires
        old(channel).wf(),
    ensures
        final(channel).wf(),
        final(channel).spec_capacity() == old(channel).spec_capacity(),
        !(decodes_as_jpeg(raw@) && thumbnail_encodes(raw@, FRAME_SIDE)) ==> r == Capture::Unreadable
            && final(channel).pending() == old(channel).pending(),
        decodes_as_jpeg(raw@) && thumbnail_encodes(raw@, FRAME_SIDE) ==> r == (if old(
            channel,
        ).pending().len() < old(channel).spec_capacity() {
            Capture::Queued
        } else {
            Capture::Dropped
        }),
        r == Capture::Dropped ==> final(channel).pending() == old(channel).pending(),
        r == Capture::Queued ==> final(channel).pending().drop_last() == old(channel).pending()
            && final(channel).pending().len() > 0
            && starts_as_jpeg(final(channel).pending().last()@),
{
    let prepared = prepare_frame(raw);
    let r = offer_prepared(channel, prepared);
    proof {
        if r == Capture::Queued {
            assert(channel.pending().drop_last() =~= old(channel).pending());
        }
    }
    r
}

} // verus!
