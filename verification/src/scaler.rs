//! The scaler: converts a decoded frame at its native size into the fixed
//! output format at the current target size.
//!
//! The resampling is deterministic: each output pixel copies the source
//! pixel nearest below it under the linear mapping of coordinates, channel
//! by channel, so the output is a pure function of the input bytes and the
//! four dimensions, pinned exactly by [`scale_spec`]. The pixel format is
//! the packed 4-byte layout of [`crate::frame`] on both sides, whatever the
//! sizes.
//!
//! Building a scaler allocates nothing here but stands for an expensive
//! rebuild in spirit: the decode loop rebuilds one only when it has observed
//! a "rescale needed" flag, never on every frame.

use vstd::prelude::*;

use vstd::arithmetic::div_mod::{
    lemma_mod_division_less_than_divisor, lemma_multiply_divide_lt,
};
use vstd::arithmetic::mul::{
    lemma_mul_inequality, lemma_mul_strict_inequality, lemma_mul_upper_bound,
};

use crate::error::CodecError;
use crate::frame::{frame_bytes, size_is_ok, size_ok, DecodedFrame, ScaledFrame, TargetSize};

verus! {

/// What the scaler produces: byte `i` of the output addresses channel
/// `i % 4` of output pixel `i / 4`; that pixel `(dx, dy)` copies source
/// pixel `(dx * sw / dw, dy * sh / dh)`.
pub open spec fn scale_spec(src: Seq<u8>, sw: int, sh: int, dw: int, dh: int) -> Seq<u8> {
    Seq::new(
        (dw * dh * 4) as nat,
        |i: int|
            {
                let p = i / 4;
                let c = i % 4;
                let dy = p / dw;
                let dx = p % dw;
                let sy = dy * sh / dh;
                let sx = dx * sw / dw;
                src[(sy * sw + sx) * 4 + c]
            },
    )
}

/// Converter from a fixed source size to a fixed output size. Rebuilt, via
/// [`Scaler::build`], whenever the producer observes a new target size.
pub struct Scaler {
    src_width: u32,
    src_height: u32,
    dst_width: u32,
    dst_height: u32,
}

impl Scaler {
    /// Both of a scaler's sizes can back frame buffers; established at
    /// construction, kept for the scaler's life as its type invariant.
    pub open spec fn wf(&self) -> bool {
        &&& size_ok(self.spec_src_width() as int, self.spec_src_height() as int)
        &&& size_ok(self.spec_dst_width() as int, self.spec_dst_height() as int)
    }

    #[verifier::type_invariant]
    pub(crate) open spec fn type_wf(self) -> bool {
        self.wf()
    }

    pub closed spec fn spec_src_width(&self) -> u32 {
        self.src_width
    }

    pub closed spec fn spec_src_height(&self) -> u32 {
        self.src_height
    }

    pub closed spec fn spec_dst_width(&self) -> u32 {
        self.dst_width
    }

    pub closed spec fn spec_dst_height(&self) -> u32 {
        self.dst_height
    }

    /// The output size as a target size, for comparing against the slot's.
    pub open spec fn spec_dst_size(&self) -> TargetSize {
        TargetSize { width: self.spec_dst_width(), height: self.spec_dst_height() }
    }

    #[verifier::when_used_as_spec(spec_src_width)]
    pub fn src_width(&self) -> (w: u32)
        ensures
            w == self.spec_src_width(),
    {
        self.src_width
    }

    #[verifier::when_used_as_spec(spec_src_height)]
    pub fn src_height(&self) -> (h: u32)
        ensures
            h == self.spec_src_height(),
    {
        self.src_height
    }

    #[verifier::when_used_as_spec(spec_dst_width)]
    pub fn dst_width(&self) -> (w: u32)
        ensures
            w == self.spec_dst_width(),
    {
        self.dst_width
    }

    #[verifier::when_used_as_spec(spec_dst_height)]
    pub fn dst_height(&self) -> (h: u32)
        ensures
            h == self.spec_dst_height(),
    {
        self.dst_height
    }

    /// Builds a scaler. Succeeds exactly when both sizes can back a frame
    /// buffer; a failed build surfaces as an error and is never skipped
    /// silently.
    pub fn build(src_width: u32, src_height: u32, dst_width: u32, dst_height: u32) -> (r: Result<
        Scaler,
        CodecError,
    >)
        ensures
            match r {
                Ok(s) => {
                    &&& size_ok(src_width as int, src_height as int)
                    &&& size_ok(dst_width as int, dst_height as int)
                    &&& s.spec_src_width() == src_width
                    &&& s.spec_src_height() == src_height
                    &&& s.spec_dst_width() == dst_width
                    &&& s.spec_dst_height() == dst_height
                },
                Err(e) => {
                    &&& !(size_ok(src_width as int, src_height as int) && size_ok(
                        dst_width as int,
                        dst_height as int,
                    ))
                    &&& e == CodecError::InvalidScaleSize
                },
            },
    {
        if !size_is_ok(src_width, src_height) || !size_is_ok(dst_width, dst_height) {
            return Err(CodecError::InvalidScaleSize);
        }
        Ok(Scaler { src_width, src_height, dst_width, dst_height })
    }

    /// Scales one frame. Total: scaling never fails once the scaler exists
    /// and the input has the scaler's source size. The output's dimensions
    /// are the scaler's output size and its bytes are exactly
    /// [`scale_spec`] of the input.
    #[verifier::loop_isolation(false)]
    pub fn run(&self, input: &DecodedFrame) -> (out: ScaledFrame)
        requires
            input.spec_width() == self.spec_src_width(),
            input.spec_height() == self.spec_src_height(),
        ensures
            out.spec_width() == self.spec_dst_width(),
            out.spec_height() == self.spec_dst_height(),
            out@ == scale_spec(
                input@,
                self.spec_src_width() as int,
                self.spec_src_height() as int,
                self.spec_dst_width() as int,
                self.spec_dst_height() as int,
            ),
    {
        proof {
            use_type_invariant(self);
        }
        let src: &Vec<u8> = input.data();
        let ghost sw_i: int = self.src_width as int;
        let ghost sh_i: int = self.src_height as int;
        let ghost dw_i: int = self.dst_width as int;
        let ghost dh_i: int = self.dst_height as int;
        let ghost sspec: Seq<u8> = scale_spec(input@, sw_i, sh_i, dw_i, dh_i);
        proof {
            // Each dimension is bounded by the area bound of `size_ok`.
            lemma_mul_inequality(1, sw_i, sh_i);
            lemma_mul_inequality(1, dw_i, dh_i);
            lemma_mul_inequality(1, sh_i, sw_i);
            lemma_mul_inequality(1, dh_i, dw_i);
        }
        let sw64: u64 = self.src_width as u64;
        let sh64: u64 = self.src_height as u64;
        let dw64: u64 = self.dst_width as u64;
        let dh64: u64 = self.dst_height as u64;
        let total: u64 = dw64 * dh64 * 4;
        let mut bytes: Vec<u8> = Vec::new();
        let mut i: u64 = 0;
        while i < total
            invariant
                i <= total,
                bytes@.len() == i as int,
                forall|j: int| 0 <= j < i as int ==> bytes@[j] == sspec[j],
            decreases total - i,
        {
            let p: u64 = i / 4;
            let c: u64 = i % 4;
            proof {
                lemma_multiply_divide_lt(i as int, 4, dw_i * dh_i);
                assert((p as int) < dw_i * dh_i);
            }
            let dy: u64 = p / dw64;
            let dx: u64 = p % dw64;
            proof {
                lemma_multiply_divide_lt(p as int, dw_i, dh_i);
                lemma_mod_division_less_than_divisor(p as int, dw_i);
                assert((dy as int) < dh_i);
                assert(0 <= (dx as int) < dw_i);
                // `dy * sh` fits in a u64 and is under `dh * sh`.
                lemma_mul_upper_bound(dy as int, 0x10000000, sh_i, 0x10000000);
                lemma_mul_strict_inequality(dy as int, dh_i, sh_i);
            }
            let sy: u64 = dy * sh64 / dh64;
            proof {
                lemma_multiply_divide_lt((dy as int) * sh_i, dh_i, sh_i);
                assert((sy as int) < sh_i);
                lemma_mul_upper_bound(dx as int, 0x10000000, sw_i, 0x10000000);
                lemma_mul_strict_inequality(dx as int, dw_i, sw_i);
            }
            let sx: u64 = dx * sw64 / dw64;
            proof {
                lemma_multiply_divide_lt((dx as int) * sw_i, dw_i, sw_i);
                assert((sx as int) < sw_i);
                // The source byte index stays inside the source buffer.
                assert((sy as int) * sw_i + (sx as int) < sw_i * sh_i) by (nonlinear_arith)
                    requires
                        0 <= (sy as int) < sh_i,
                        0 <= (sx as int) < sw_i,
                        0 < sw_i,
                ;
            }
            let si: u64 = (sy * sw64 + sx) * 4 + c;
            let b: u8 = src[si as usize];
            bytes.push(b);
            proof {
                assert(sspec[i as int] == src@[si as int]);
            }
            i = i + 1;
        }
        proof {
            assert(bytes@ =~= sspec);
        }
        ScaledFrame::from_checked(self.dst_width, self.dst_height, bytes)
    }
}

} // verus!
