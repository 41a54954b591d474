//! The ingest side's per-chunk processing: each socket read is treated as
//! exactly one frame, decoded, interpreted, and — when it produces an
//! event — applied to the shared snapshot.

use vstd::prelude::*;
use crate::frame::{FrameError, frame_check, parse_raw_data, payload_of};
use crate::message::{
    Event, MessageError, decode_message, lemma_decode_event_wf, parse_valid_frame,
};
use crate::shared::SharedStore;

verus! {

/// What one chunk led to.
#[derive(Debug, Clone, Copy, PartialEq, Eq, Structural)]
pub enum IngestOutcome {
    /// The chunk was a valid frame and its payload produced this event,
    /// which has been applied to the shared snapshot.
    Applied(Event),
    /// The chunk was a valid frame but its payload produced no event;
    /// the snapshot is untouched.
    NoEvent(MessageError),
    /// The chunk failed frame validation; the snapshot is untouched.
    BadFrame(FrameError),
}

/// Process one socket read: decode the chunk as a frame, interpret its
/// payload, and fold the resulting event into the shared snapshot. The
/// outcome names exactly which stage ended the chunk's processing and
/// with what.
pub fn ingest_chunk(store: &SharedStore, chunk: &[u8]) -> (r: IngestOutcome)
    ensures
        match r {
            IngestOutcome::Applied(ev) => frame_check(chunk@) is None
                && decode_message(payload_of(chunk@)) == Ok::<Event, MessageError>(ev),
            IngestOutcome::NoEvent(me) => frame_check(chunk@) is None
                && decode_message(payload_of(chunk@)) == Err::<Event, MessageError>(me),
            IngestOutcome::BadFrame(fe) => frame_check(chunk@) == Some(fe),
        },
{
    match parse_raw_data(chunk) {
        Ok(frame) => {
            let ghost payload = frame.message@;
            match parse_valid_frame(frame) {
                Ok(event) => {
                    proof {
                        lemma_decode_event_wf(payload);
                    }
                    store.apply_event(&event);
                    IngestOutcome::Applied(event)
                },
                Err(e) => IngestOutcome::NoEvent(e),
            }
        },
        Err(e) => IngestOutcome::BadFrame(e),
    }
}

} // verus!
