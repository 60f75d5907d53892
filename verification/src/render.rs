//! Consumer-side pixel work: what the renderer draws between and from
//! published frames.
//!
//! The renderer blits a packed 4-byte-per-pixel top-down buffer sized to its
//! window. [`compose_frame`] lays the latest published frame into such a
//! buffer (black where the frame does not cover the window, as when a
//! resize is still propagating to the producer); [`placeholder_pixels`]
//! builds the synthetic gradient shown while nothing has been published.
//! Both are exact, so a display test can predict every byte. Pacing of the
//! render timer is seeded from the stream's frame rate by
//! [`pacing_interval_ms`].

use vstd::prelude::*;

use vstd::arithmetic::div_mod::lemma_mod_division_less_than_divisor;

use crate::frame::{frame_bytes, size_ok};

verus! {

/// The placeholder: channel 0 ramps with the column, channel 1 with the
/// row, channel 2 is the caller's pulse value, channel 3 is zero.
pub open spec fn placeholder_spec(w: int, h: int, pulse: u8) -> Seq<u8> {
    Seq::new(
        (w * h * 4) as nat,
        |i: int|
            {
                let p = i / 4;
                let c = i % 4;
                let y = p / w;
                let x = p % w;
                if c == 0 {
                    (x % 255) as u8
                } else if c == 1 {
                    (y % 255) as u8
                } else if c == 2 {
                    pulse
                } else {
                    0u8
                }
            },
    )
}

/// A window-sized buffer with a frame laid into its top-left corner: pixel
/// `(x, y)` copies the frame where the frame covers it and is black (all
/// four bytes zero) elsewhere.
pub open spec fn compose_spec(src: Seq<u8>, fw: int, fh: int, dw: int, dh: int) -> Seq<u8> {
    Seq::new(
        (dw * dh * 4) as nat,
        |i: int|
            {
                let p = i / 4;
                let c = i % 4;
                let y = p / dw;
                let x = p % dw;
                if x < fw && y < fh {
                    src[(y * fw + x) * 4 + c]
                } else {
                    0u8
                }
            },
    )
}

/// Builds the placeholder gradient for a `width x height` window. `pulse`
/// is the animation value the caller derives from its own clock.
#[verifier::loop_isolation(false)]
pub fn placeholder_pixels(width: u32, height: u32, pulse: u8) -> (out: Vec<u8>)
    requires
        size_ok(width as int, height as int),
    ensures
        out@ == placeholder_spec(width as int, height as int, pulse),
        out@.len() == frame_bytes(width as int, height as int),
{
    let ghost w_i: int = width as int;
    let ghost h_i: int = height as int;
    let ghost pspec: Seq<u8> = placeholder_spec(w_i, h_i, pulse);
    let w64: u64 = width as u64;
    let h64: u64 = height as u64;
    let total: u64 = w64 * h64 * 4;
    let mut out: Vec<u8> = Vec::new();
    let mut i: u64 = 0;
    while i < total
        invariant
            i <= total,
            out@.len() == i as int,
            forall|j: int| 0 <= j < i as int ==> out@[j] == pspec[j],
        decreases total - i,
    {
        let p: u64 = i / 4;
        let c: u64 = i % 4;
        let y: u64 = p / w64;
        let x: u64 = p % w64;
        let b: u8 = if c == 0 {
            (x % 255) as u8
        } else if c == 1 {
            (y % 255) as u8
        } else if c == 2 {
            pulse
        } else {
            0u8
        };
        out.push(b);
        proof {
            assert(out@[i as int] == pspec[i as int]);
        }
        i = i + 1;
    }
    proof {
        assert(out@ =~= pspec);
    }
    out
}

/// Lays a `fw x fh` frame buffer into a `dw x dh` window buffer, top-left
/// aligned, black outside the frame. When the sizes match this is an exact
/// copy; while a resize is still propagating to the producer, the stale
/// frame is shown cropped or letterboxed against black rather than torn.
#[verifier::loop_isolation(false)]
pub fn compose_frame(src: &Vec<u8>, fw: u32, fh: u32, dw: u32, dh: u32) -> (out: Vec<u8>)
    requires
        size_ok(fw as int, fh as int),
        size_ok(dw as int, dh as int),
        src@.len() == frame_bytes(fw as int, fh as int),
    ensures
        out@ == compose_spec(src@, fw as int, fh as int, dw as int, dh as int),
        out@.len() == frame_bytes(dw as int, dh as int),
{
    let ghost fw_i: int = fw as int;
    let ghost fh_i: int = fh as int;
    let ghost dw_i: int = dw as int;
    let ghost dh_i: int = dh as int;
    let ghost cspec: Seq<u8> = compose_spec(src@, fw_i, fh_i, dw_i, dh_i);
    let fw64: u64 = fw as u64;
    let fh64: u64 = fh as u64;
    let dw64: u64 = dw as u64;
    let dh64: u64 = dh as u64;
    let total: u64 = dw64 * dh64 * 4;
    let mut out: Vec<u8> = Vec::new();
    let mut i: u64 = 0;
    while i < total
        invariant
            i <= total,
            out@.len() == i as int,
            forall|j: int| 0 <= j < i as int ==> out@[j] == cspec[j],
        decreases total - i,
    {
        let p: u64 = i / 4;
        let c: u64 = i % 4;
        let y: u64 = p / dw64;
        let x: u64 = p % dw64;
        proof {
            lemma_mod_division_less_than_divisor(p as int, dw_i);
            assert(0 <= (x as int) < dw_i);
        }
        let b: u8 = if x < fw64 && y < fh64 {
            proof {
                // The source byte index stays inside the frame buffer.
                assert((y as int) * fw_i + (x as int) < fw_i * fh_i) by (nonlinear_arith)
                    requires
                        0 <= (y as int) < fh_i,
                        0 <= (x as int) < fw_i,
                        0 < fw_i,
                ;
            }
            let si: u64 = (y * fw64 + x) * 4 + c;
            src[si as usize]
        } else {
            0u8
        };
        out.push(b);
        proof {
            assert(out@[i as int] == cspec[i as int]);
        }
        i = i + 1;
    }
    proof {
        assert(out@ =~= cspec);
    }
    out
}

/// The consumer's pacing interval in milliseconds, from the stream's
/// nominal frame rate. A rate the container did not report (zero or
/// negative) falls back to 30 frames per second. Total: never divides by
/// zero, unlike pacing taken naively from the container.
pub fn pacing_interval_ms(fps: i32) -> (ms: u64)
    ensures
        ms == (if fps >= 1 {
            1000int / (fps as int)
        } else {
            1000int / 30int
        }),
{
    if fps >= 1 {
        (1000 / fps) as u64
    } else {
        1000 / 30
    }
}

} // verus!
