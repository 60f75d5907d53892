//! The decode loop's state machine and per-frame work.
//!
//! The producer thread owns one [`DecodeLoop`]. The caller does the blocking
//! work — reading packets, feeding the decoder, draining it — and hands each
//! decoded frame to [`DecodeLoop::process_frame`], which applies the resize
//! protocol, scales, and publishes into the slot. All decisions (when the
//! scaler is rebuilt, what counts as a fatal error, how the loop ends) are
//! here and verified; the caller only moves bytes.
//!
//! States: a freshly built loop is `Streaming`; end of input moves it to
//! `Eof`, where the decoder is flushed and drained the same way; a drained
//! loop is `Terminated`. Any fatal error moves it to `Failed`. `Failed` and
//! `Terminated` both end the thread; the slot keeps its last published
//! frame, so the consumer degrades to a still image rather than failing.

use vstd::prelude::*;

use crate::error::CodecError;
use crate::frame::{size_ok, DecodedFrame, TargetSize};
use crate::scaler::{scale_spec, Scaler};
use crate::slot::SharedFrameSlot;
use crate::source::MediaSource;

verus! {

/// Where the decode loop stands.
#[derive(Clone, Copy, Debug, PartialEq, Eq, Structural)]
pub enum DecodeState {
    /// Reading packets and publishing frames.
    Streaming,
    /// Input exhausted; flushing the decoder's buffered frames.
    Eof,
    /// A fatal error ended the loop.
    Failed,
    /// The loop is over: drained after end of stream, or stopped on
    /// request.
    Terminated,
}

/// The producer's state: where the loop stands and the scaler it currently
/// publishes through.
pub struct DecodeLoop {
    pub state: DecodeState,
    pub scaler: Scaler,
}

/// The size the next published frame will have: the slot's target if a
/// rescale is pending (the producer will observe it before scaling), else
/// the size the producer's scaler was last built for.
pub open spec fn governing_size(s: SharedFrameSlot, lp: DecodeLoop) -> TargetSize {
    if s.rescale_needed {
        s.target
    } else {
        lp.scaler.spec_dst_size()
    }
}

impl DecodeLoop {
    /// Whether the loop still publishes frames.
    pub open spec fn publishing(self) -> bool {
        self.state == DecodeState::Streaming || self.state == DecodeState::Eof
    }

    /// Builds the producer against an open source and the consumer's
    /// current target size, read once from the slot. Succeeds if and only
    /// if the source's reported size and the slot's target can back frame
    /// buffers; on failure the decode thread never starts (the `Failed`
    /// outcome of construction).
    pub fn init(source: &MediaSource, slot: &SharedFrameSlot) -> (r: Result<DecodeLoop, CodecError>)
        ensures
            r is Ok <==> size_ok(source.width as int, source.height as int) && slot.target.ok(),
            match r {
                Ok(lp) => {
                    &&& lp.state == DecodeState::Streaming
                    &&& lp.scaler.spec_src_width() == source.width
                    &&& lp.scaler.spec_src_height() == source.height
                    &&& lp.scaler.spec_dst_size() == slot.target
                },
                Err(e) => e == CodecError::InvalidScaleSize,
            },
    {
        match Scaler::build(source.width, source.height, slot.target.width, slot.target.height) {
            Ok(scaler) => Ok(DecodeLoop { state: DecodeState::Streaming, scaler }),
            Err(e) => Err(e),
        }
    }

    /// One frame's worth of producer work: read-and-clear the rescale flag;
    /// if it was set, rebuild the scaler for the snapshot size; scale; then
    /// publish — an unconditional overwrite. Fails exactly when a pending
    /// rescale asks for a size that cannot back a buffer, and then the loop
    /// is `Failed`: a needed rebuild is never skipped silently.
    ///
    /// Under a lock-guarded slot the caller performs the same steps through
    /// the slot's own operations so that neither the rebuild nor the scale
    /// holds the lock; this composition is the single-threaded form.
    pub fn process_frame(&mut self, slot: &mut SharedFrameSlot, frame: &DecodedFrame) -> (r: Result<
        (),
        CodecError,
    >)
        requires
            old(self).publishing(),
            frame.spec_width() == old(self).scaler.spec_src_width(),
            frame.spec_height() == old(self).scaler.spec_src_height(),
            old(slot).seq < u64::MAX,
        ensures
            r is Err <==> old(slot).rescale_needed && !old(slot).target.ok(),
            final(self).scaler.spec_src_width() == old(self).scaler.spec_src_width(),
            final(self).scaler.spec_src_height() == old(self).scaler.spec_src_height(),
            final(slot).target == old(slot).target,
            final(slot).stop_requested == old(slot).stop_requested,
            final(slot).fps == old(slot).fps,
            final(slot).rescale_needed == false,
            match r {
                Ok(()) => {
                    &&& final(self).state == old(self).state
                    &&& final(self).scaler.spec_dst_size() == governing_size(
                        *old(slot),
                        *old(self),
                    )
                    &&& final(slot).seq == old(slot).seq + 1
                    &&& match final(slot).latest {
                        Some(f) => {
                            &&& f.spec_width() == governing_size(*old(slot), *old(self)).width
                            &&& f.spec_height() == governing_size(*old(slot), *old(self)).height
                            &&& f@ == scale_spec(
                                frame@,
                                old(self).scaler.spec_src_width() as int,
                                old(self).scaler.spec_src_height() as int,
                                governing_size(*old(slot), *old(self)).width as int,
                                governing_size(*old(slot), *old(self)).height as int,
                            )
                        },
                        None => false,
                    }
                },
                Err(e) => {
                    &&& e == CodecError::InvalidScaleSize
                    &&& final(self).state == DecodeState::Failed
                    &&& final(self).scaler == old(self).scaler
                    &&& final(slot).latest == old(slot).latest
                    &&& final(slot).seq == old(slot).seq
                },
            },
    {
        proof {
            use_type_invariant(&self.scaler);
        }
        match slot.take_rescale_request() {
            Some(ts) => {
                match Scaler::build(
                    self.scaler.src_width(),
                    self.scaler.src_height(),
                    ts.width,
                    ts.height,
                ) {
                    Ok(scaler) => {
                        self.scaler = scaler;
                    },
                    Err(e) => {
                        self.state = DecodeState::Failed;
                        return Err(e);
                    },
                }
            },
            None => {},
        }
        let out = self.scaler.run(frame);
        slot.publish(out);
        Ok(())
    }

    /// Drains a burst of decoded frames — what one packet, or the final
    /// flush, yielded — through [`DecodeLoop::process_frame`] in order.
    /// Publishes one frame per input; after a nonempty burst the slot holds
    /// the scaled image of the last one, at the size that governed when the
    /// burst began.
    #[verifier::loop_isolation(false)]
    pub fn process_batch(&mut self, slot: &mut SharedFrameSlot, frames: &Vec<DecodedFrame>) -> (r:
        Result<(), CodecError>)
        requires
            old(self).publishing(),
            forall|j: int|
                0 <= j < frames@.len() ==> frames@[j].spec_width() == old(
                    self,
                ).scaler.spec_src_width() && frames@[j].spec_height() == old(
                    self,
                ).scaler.spec_src_height(),
            old(slot).seq + frames@.len() <= u64::MAX,
        ensures
            r is Err <==> frames@.len() > 0 && old(slot).rescale_needed && !old(slot).target.ok(),
            final(self).scaler.spec_src_width() == old(self).scaler.spec_src_width(),
            final(self).scaler.spec_src_height() == old(self).scaler.spec_src_height(),
            final(slot).target == old(slot).target,
            final(slot).stop_requested == old(slot).stop_requested,
            final(slot).fps == old(slot).fps,
            match r {
                Ok(()) => {
                    &&& final(self).state == old(self).state
                    &&& final(slot).seq == old(slot).seq + frames@.len()
                    &&& frames@.len() == 0 ==> *final(slot) == *old(slot) && *final(self) == *old(
                        self,
                    )
                    &&& frames@.len() > 0 ==> {
                        &&& final(slot).rescale_needed == false
                        &&& final(self).scaler.spec_dst_size() == governing_size(
                            *old(slot),
                            *old(self),
                        )
                        &&& match final(slot).latest {
                            Some(f) => {
                                &&& f.spec_width() == governing_size(*old(slot), *old(self)).width
                                &&& f.spec_height() == governing_size(
                                    *old(slot),
                                    *old(self),
                                ).height
                                &&& f@ == scale_spec(
                                    frames@.last()@,
                                    old(self).scaler.spec_src_width() as int,
                                    old(self).scaler.spec_src_height() as int,
                                    governing_size(*old(slot), *old(self)).width as int,
                                    governing_size(*old(slot), *old(self)).height as int,
                                )
                            },
                            None => false,
                        }
                    }
                },
                Err(e) => {
                    &&& e == CodecError::InvalidScaleSize
                    &&& final(self).state == DecodeState::Failed
                    &&& final(slot).latest == old(slot).latest
                    &&& final(slot).seq == old(slot).seq
                    &&& final(slot).rescale_needed == false
                },
            },
    {
        let mut k: usize = 0;
        while k < frames.len()
            invariant
                k <= frames@.len(),
                self.state == old(self).state,
                self.scaler.spec_src_width() == old(self).scaler.spec_src_width(),
                self.scaler.spec_src_height() == old(self).scaler.spec_src_height(),
                slot.seq == old(slot).seq + k,
                slot.target == old(slot).target,
                slot.stop_requested == old(slot).stop_requested,
                slot.fps == old(slot).fps,
                k == 0 ==> *slot == *old(slot) && *self == *old(self),
                k > 0 ==> !(old(slot).rescale_needed && !old(slot).target.ok()),
                k > 0 ==> {
                    &&& slot.rescale_needed == false
                    &&& self.scaler.spec_dst_size() == governing_size(*old(slot), *old(self))
                    &&& match slot.latest {
                        Some(f) => {
                            &&& f.spec_width() == governing_size(*old(slot), *old(self)).width
                            &&& f.spec_height() == governing_size(*old(slot), *old(self)).height
                            &&& f@ == scale_spec(
                                frames@[k as int - 1]@,
                                old(self).scaler.spec_src_width() as int,
                                old(self).scaler.spec_src_height() as int,
                                governing_size(*old(slot), *old(self)).width as int,
                                governing_size(*old(slot), *old(self)).height as int,
                            )
                        },
                        None => false,
                    }
                },
            decreases frames@.len() - k as int,
        {
            match self.process_frame(slot, &frames[k]) {
                Ok(()) => {},
                Err(e) => {
                    return Err(e);
                },
            }
            k = k + 1;
        }
        Ok(())
    }

    /// End of the input's packets: move to `Eof`. The caller then flushes
    /// the decoder and drains what remains exactly as during streaming.
    pub fn on_end_of_input(&mut self)
        requires
            old(self).state == DecodeState::Streaming,
        ensures
            final(self).state == DecodeState::Eof,
            final(self).scaler == old(self).scaler,
    {
        self.state = DecodeState::Eof;
    }

    /// The flush yielded its last frame: the loop is over.
    pub fn on_drained(&mut self)
        requires
            old(self).state == DecodeState::Eof,
        ensures
            final(self).state == DecodeState::Terminated,
            final(self).scaler == old(self).scaler,
    {
        self.state = DecodeState::Terminated;
    }

    /// A decoder report that did not carry a frame. "Needs more input" is
    /// an expected control state and changes nothing; every other decode
    /// error is fatal and fails the loop.
    pub fn on_decode_error(&mut self, needs_more_input: bool)
        ensures
            final(self).state == (if needs_more_input {
                old(self).state
            } else {
                DecodeState::Failed
            }),
            final(self).scaler == old(self).scaler,
    {
        if !needs_more_input {
            self.state = DecodeState::Failed;
        }
    }

    /// The slot's stop flag was observed set: exit cooperatively.
    pub fn on_stop_request(&mut self)
        ensures
            final(self).state == DecodeState::Terminated,
            final(self).scaler == old(self).scaler,
    {
        self.state = DecodeState::Terminated;
    }
}

} // verus!
