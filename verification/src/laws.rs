//! The protocol's laws, proved over the same spec transition functions the
//! exec operations are pinned to. Each is a statement a test can only
//! sample; here it holds for every state and every input.

use vstd::prelude::*;

use vstd::arithmetic::div_mod::{
    lemma_fundamental_div_mod, lemma_mod_division_less_than_divisor, lemma_multiply_divide_lt,
};

use crate::frame::{frame_bytes, ScaledFrame, TargetSize};
use crate::producer::{governing_size, DecodeLoop};
use crate::render::compose_spec;
use crate::slot::{
    latest_view, publish_spec, request_stop_spec, set_fps_spec, set_target_spec,
    take_rescale_spec, SharedFrameSlot,
};

verus! {

/// A burst of consumer resize requests, applied in order.
pub open spec fn apply_resizes(s: SharedFrameSlot, reqs: Seq<TargetSize>) -> SharedFrameSlot
    decreases reqs.len(),
{
    if reqs.len() == 0 {
        s
    } else {
        set_target_spec(apply_resizes(s, reqs.drop_last()), reqs.last().width, reqs.last().height)
    }
}

/// After any nonempty sequence of `set_target_size` calls, the size that
/// governs the producer's next publish is the last size requested — one
/// observed at or after the calls, never a size from before them. Together
/// with `process_frame`'s contract, which publishes exactly at the
/// governing size, this pins the next frame after a resize burst.
pub proof fn lemma_resize_governs_next_publish(
    s: SharedFrameSlot,
    lp: DecodeLoop,
    reqs: Seq<TargetSize>,
)
    requires
        reqs.len() > 0,
    ensures
        governing_size(apply_resizes(s, reqs), lp) == reqs.last(),
{
}

/// Reading the slot, requesting a resize, the producer's read-and-clear of
/// the rescale flag, a stop request and a frame-rate report all leave what
/// a reader sees untouched: only a publish changes the latest frame. Since
/// `get_latest_frame` returns exactly that view, two reads without an
/// intervening publish return byte-identical buffers.
pub proof fn lemma_only_publish_changes_latest(s: SharedFrameSlot, w: u32, h: u32, fps: i32)
    ensures
        latest_view(set_target_spec(s, w, h)) == latest_view(s),
        latest_view(take_rescale_spec(s).0) == latest_view(s),
        latest_view(request_stop_spec(s)) == latest_view(s),
        latest_view(set_fps_spec(s, fps)) == latest_view(s),
{
}

/// Publishing succeeds on every slot state: the new frame replaces the old
/// unread or not, the counter advances, and nothing of the consumer's
/// (target, stop request, pacing) is touched. The producer therefore never
/// waits on the consumer — the slot is a mailbox, not a queue.
pub proof fn lemma_publish_never_waits(s: SharedFrameSlot, f: ScaledFrame)
    requires
        s.seq < u64::MAX,
    ensures
        publish_spec(s, f).latest == Some(f),
        publish_spec(s, f).seq == s.seq + 1,
        publish_spec(s, f).target == s.target,
        publish_spec(s, f).rescale_needed == s.rescale_needed,
        publish_spec(s, f).stop_requested == s.stop_requested,
        publish_spec(s, f).fps == s.fps,
{
}

/// A slot nobody has published into reads as empty, whatever its target
/// size or frame rate: a source without video leaves the consumer with
/// `None` forever, never with a stall or a crash.
pub proof fn lemma_fresh_slot_reads_empty(target: TargetSize, fps: i32)
    ensures
        latest_view(SharedFrameSlot::initial_spec(target, fps)) is None,
{
}

/// When the window size equals the frame size, composing the frame into
/// the window buffer reproduces the frame byte for byte: the renderer
/// shows a published frame exactly, with nothing cropped and nothing
/// padded.
pub proof fn lemma_compose_exact_when_sizes_match(src: Seq<u8>, w: int, h: int)
    requires
        0 < w,
        0 < h,
        src.len() == frame_bytes(w, h),
    ensures
        compose_spec(src, w, h, w, h) == src,
{
    let out = compose_spec(src, w, h, w, h);
    assert forall|i: int| 0 <= i < src.len() implies out[i] == src[i] by {
        let p = i / 4;
        let c = i % 4;
        let y = p / w;
        let x = p % w;
        lemma_multiply_divide_lt(i, 4, w * h);
        lemma_multiply_divide_lt(p, w, h);
        lemma_mod_division_less_than_divisor(p, w);
        lemma_fundamental_div_mod(p, w);
        assert(w * y == y * w) by (nonlinear_arith);
        assert((y * w + x) * 4 + c == p * 4 + c);
        lemma_fundamental_div_mod(i, 4);
        assert(p * 4 + c == i);
    };
    assert(out =~= src);
}

} // verus!
