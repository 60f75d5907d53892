//! The single-slot frame mailbox shared by producer and consumer.
//!
//! [`SharedFrameSlot`] is the single point of truth between the two threads: the
//! latest scaled frame, the latest requested target size, the "rescale
//! needed" flag, a cooperative stop flag and a monotonic publish counter.
//! The caller guards one `SharedFrameSlot` with one mutex and holds the lock only
//! across these operations, each of which is a bounded amount of memory
//! work — scaling and decoding happen outside.
//!
//! Publish is an unconditional overwrite: the producer never waits for the
//! consumer to have read the previous frame, so a reader may see the same
//! frame twice or skip frames, but always sees the most recent one.
//!
//! Each mutating operation's contract pins the new slot state to a spec
//! transition function of the old one; the laws the crate proves about the
//! protocol are stated over those same transition functions.

use vstd::prelude::*;

use crate::frame::{frame_bytes, ScaledFrame, TargetSize};

verus! {

/// The shared slot. All fields are plain data; the caller provides the lock.
pub struct SharedFrameSlot {
    /// The most recently published frame; `None` until the first publish.
    pub latest: Option<ScaledFrame>,
    /// The output size the consumer most recently asked for.
    pub target: TargetSize,
    /// Set by [`SharedFrameSlot::set_target_size`]; read and cleared by the
    /// producer before each scale.
    pub rescale_needed: bool,
    /// Cooperative shutdown request for the producer.
    pub stop_requested: bool,
    /// Number of publishes so far; increases by one with each publish.
    pub seq: u64,
    /// Nominal frame rate of the stream, as frames per second; seeds the
    /// consumer's pacing interval. Zero or negative means "not reported".
    pub fps: i32,
}

/// The slot state after a consumer resize request.
pub open spec fn set_target_spec(s: SharedFrameSlot, width: u32, height: u32) -> SharedFrameSlot {
    SharedFrameSlot { target: TargetSize { width, height }, rescale_needed: true, ..s }
}

/// The slot state after the producer has read and cleared the rescale flag,
/// together with what the read returned: the snapshot of the target size if
/// the flag was set, else nothing.
pub open spec fn take_rescale_spec(s: SharedFrameSlot) -> (SharedFrameSlot, Option<TargetSize>) {
    (
        SharedFrameSlot { rescale_needed: false, ..s },
        if s.rescale_needed {
            Some(s.target)
        } else {
            None
        },
    )
}

/// The slot state after a publish: the frame replaced, the counter advanced.
pub open spec fn publish_spec(s: SharedFrameSlot, f: ScaledFrame) -> SharedFrameSlot {
    SharedFrameSlot { latest: Some(f), seq: (s.seq + 1) as u64, ..s }
}

/// The slot state after a stop request.
pub open spec fn request_stop_spec(s: SharedFrameSlot) -> SharedFrameSlot {
    SharedFrameSlot { stop_requested: true, ..s }
}

/// The slot state after the producer reports the stream's frame rate.
pub open spec fn set_fps_spec(s: SharedFrameSlot, fps: i32) -> SharedFrameSlot {
    SharedFrameSlot { fps, ..s }
}

/// What a reader of the slot sees: nothing, or the latest frame's pixel
/// bytes and dimensions.
pub open spec fn latest_view(s: SharedFrameSlot) -> Option<(Seq<u8>, u32, u32)> {
    match s.latest {
        None => None,
        Some(f) => Some((f@, f.spec_width(), f.spec_height())),
    }
}

impl SharedFrameSlot {
    /// An empty slot: no frame yet, no pending requests, counter at zero.
    pub open spec fn initial_spec(target: TargetSize, fps: i32) -> SharedFrameSlot {
        SharedFrameSlot {
            latest: None,
            target,
            rescale_needed: false,
            stop_requested: false,
            seq: 0,
            fps,
        }
    }

    pub fn new(target: TargetSize, fps: i32) -> (s: SharedFrameSlot)
        ensures
            s == SharedFrameSlot::initial_spec(target, fps),
    {
        SharedFrameSlot {
            latest: None,
            target,
            rescale_needed: false,
            stop_requested: false,
            seq: 0,
            fps,
        }
    }

    /// Consumer side of the resize protocol: record the new target size and
    /// flag the producer. Non-blocking; the producer picks the request up
    /// before its next scale.
    pub fn set_target_size(&mut self, width: u32, height: u32)
        ensures
            *final(self) == set_target_spec(*old(self), width, height),
    {
        self.target = TargetSize { width, height };
        self.rescale_needed = true;
    }

    /// Producer side of the resize protocol: read and clear the rescale
    /// flag, and if it was set, snapshot the target size the consumer asked
    /// for. The scaler is then rebuilt outside the lock.
    pub fn take_rescale_request(&mut self) -> (r: Option<TargetSize>)
        ensures
            (*final(self), r) == take_rescale_spec(*old(self)),
    {
        if self.rescale_needed {
            self.rescale_needed = false;
            Some(self.target)
        } else {
            None
        }
    }

    /// Publish a frame: overwrite whatever the slot held and advance the
    /// counter. Unconditional — the producer never waits on the consumer,
    /// so this is a mailbox, not a queue.
    pub fn publish(&mut self, f: ScaledFrame)
        requires
            old(self).seq < u64::MAX,
        ensures
            *final(self) == publish_spec(*old(self), f),
    {
        self.latest = Some(f);
        self.seq = self.seq + 1;
    }

    /// Ask the producer to exit at its next check. Non-blocking.
    pub fn request_stop(&mut self)
        ensures
            *final(self) == request_stop_spec(*old(self)),
    {
        self.stop_requested = true;
    }

    /// Record the stream's nominal frame rate once the source is open.
    pub fn set_fps(&mut self, fps: i32)
        ensures
            *final(self) == set_fps_spec(*old(self), fps),
    {
        self.fps = fps;
    }

    /// Consumer surface: the most recent frame's pixel bytes and
    /// dimensions, copied out, or `None` while nothing has been published.
    /// Reading never fails, never blocks beyond the copy, and never changes
    /// the slot, so two reads without an intervening publish return
    /// byte-identical buffers. A returned buffer's length is always exactly
    /// `width * height * 4`.
    pub fn get_latest_frame(&self) -> (r: Option<(Vec<u8>, u32, u32)>)
        ensures
            match r {
                None => latest_view(*self) is None,
                Some((bytes, width, height)) => {
                    &&& latest_view(*self) == Some((bytes@, width, height))
                    &&& bytes@.len() == frame_bytes(width as int, height as int)
                },
            },
    {
        match &self.latest {
            None => None,
            Some(f) => Some((f.clone_pixels(), f.width(), f.height())),
        }
    }
}

} // verus!
