//! The pipeline's pixel data model.
//!
//! Every buffer in the core is packed, 4 bytes per pixel, top-down. A
//! [`DecodedFrame`] is a decoded picture at its native size; a
//! [`ScaledFrame`] is the scaler's output at the size the consumer asked
//! for. Both are owned, bounds-checked byte buffers whose length is validated
//! against `width * height * 4` at construction, so no unchecked buffer ever
//! crosses the core boundary.

use vstd::prelude::*;

use crate::error::CodecError;

verus! {

/// Upper bound on the byte length of any frame buffer the core will build
/// (1 GiB). Keeps every index computation comfortably inside `usize` on any
/// machine the crate compiles for.
pub const MAX_FRAME_BYTES: u64 = 0x4000_0000;

/// Byte length of a packed frame: 4 bytes for each of `width * height`
/// pixels.
pub open spec fn frame_bytes(width: int, height: int) -> int {
    width * height * 4
}

/// Whether a `width x height` buffer may exist in the core: both dimensions
/// nonzero and the byte length under [`MAX_FRAME_BYTES`].
pub open spec fn size_ok(width: int, height: int) -> bool {
    &&& 1 <= width
    &&& 1 <= height
    &&& frame_bytes(width, height) <= MAX_FRAME_BYTES
}

/// Runtime check for [`size_ok`].
pub fn size_is_ok(width: u32, height: u32) -> (b: bool)
    ensures
        b == size_ok(width as int, height as int),
{
    if width == 0 || height == 0 {
        return false;
    }
    match (width as u64).checked_mul(height as u64) {
        Some(area) => area <= MAX_FRAME_BYTES / 4,
        None => false,
    }
}

/// The output resolution the consumer currently wants, as the consumer's
/// display area in pixels.
#[derive(Clone, Copy, Debug, PartialEq, Eq, Structural)]
pub struct TargetSize {
    pub width: u32,
    pub height: u32,
}

impl TargetSize {
    /// Whether this size can back a frame buffer.
    pub open spec fn ok(self) -> bool {
        size_ok(self.width as int, self.height as int)
    }

    pub fn new(width: u32, height: u32) -> (s: TargetSize)
        ensures
            s == (TargetSize { width, height }),
    {
        TargetSize { width, height }
    }

    /// Runtime check for [`TargetSize::ok`].
    pub fn is_ok(&self) -> (b: bool)
        ensures
            b == self.ok(),
    {
        size_is_ok(self.width, self.height)
    }
}

/// A decoded picture as the decoder handed it over: packed 4-byte pixels at
/// the stream's native size. Ephemeral; consumed by the scaler.
pub struct DecodedFrame {
    width: u32,
    height: u32,
    bytes: Vec<u8>,
}

impl View for DecodedFrame {
    type V = Seq<u8>;

    closed spec fn view(&self) -> Seq<u8> {
        self.bytes@
    }
}

impl DecodedFrame {
    #[verifier::type_invariant]
    spec fn type_wf(self) -> bool {
        &&& size_ok(self.width as int, self.height as int)
        &&& self.bytes@.len() == frame_bytes(self.width as int, self.height as int)
    }

    pub closed spec fn spec_width(&self) -> u32 {
        self.width
    }

    pub closed spec fn spec_height(&self) -> u32 {
        self.height
    }

    #[verifier::when_used_as_spec(spec_width)]
    pub fn width(&self) -> (w: u32)
        ensures
            w == self.spec_width(),
    {
        self.width
    }

    #[verifier::when_used_as_spec(spec_height)]
    pub fn height(&self) -> (h: u32)
        ensures
            h == self.spec_height(),
    {
        self.height
    }

    /// Builds a decoded frame, validating the buffer length against the
    /// dimensions. The only constructor, so every `DecodedFrame` carries a
    /// buffer of exactly `width * height * 4` bytes.
    pub fn new(width: u32, height: u32, bytes: Vec<u8>) -> (r: Result<DecodedFrame, CodecError>)
        ensures
            match r {
                Ok(f) => {
                    &&& size_ok(width as int, height as int)
                    &&& bytes@.len() == frame_bytes(width as int, height as int)
                    &&& f.spec_width() == width
                    &&& f.spec_height() == height
                    &&& f@ == bytes@
                },
                Err(e) => {
                    &&& !(size_ok(width as int, height as int) && bytes@.len() == frame_bytes(
                        width as int,
                        height as int,
                    ))
                    &&& e == CodecError::InvalidScaleSize
                },
            },
    {
        if !size_is_ok(width, height) {
            return Err(CodecError::InvalidScaleSize);
        }
        let need: u64 = (width as u64) * (height as u64) * 4;
        if bytes.len() as u64 != need {
            return Err(CodecError::InvalidScaleSize);
        }
        Ok(DecodedFrame { width, height, bytes })
    }

    /// The pixel buffer; its length is `width * height * 4`.
    pub fn data(&self) -> (b: &Vec<u8>)
        ensures
            b@ == self@,
            b@.len() == frame_bytes(self.spec_width() as int, self.spec_height() as int),
            size_ok(self.spec_width() as int, self.spec_height() as int),
    {
        proof {
            use_type_invariant(self);
        }
        &self.bytes
    }
}

/// A frame in the fixed output format: packed 4-byte pixels at the size
/// requested by the target size the producer last observed. The buffer
/// length always equals `width * height * 4`.
pub struct ScaledFrame {
    width: u32,
    height: u32,
    bytes: Vec<u8>,
}

impl View for ScaledFrame {
    type V = Seq<u8>;

    closed spec fn view(&self) -> Seq<u8> {
        self.bytes@
    }
}

impl ScaledFrame {
    #[verifier::type_invariant]
    spec fn type_wf(self) -> bool {
        &&& size_ok(self.width as int, self.height as int)
        &&& self.bytes@.len() == frame_bytes(self.width as int, self.height as int)
    }

    pub closed spec fn spec_width(&self) -> u32 {
        self.width
    }

    pub closed spec fn spec_height(&self) -> u32 {
        self.height
    }

    #[verifier::when_used_as_spec(spec_width)]
    pub fn width(&self) -> (w: u32)
        ensures
            w == self.spec_width(),
    {
        self.width
    }

    #[verifier::when_used_as_spec(spec_height)]
    pub fn height(&self) -> (h: u32)
        ensures
            h == self.spec_height(),
    {
        self.height
    }

    /// Builds a scaled frame, validating the buffer length against the
    /// dimensions. The only constructor, so every `ScaledFrame` carries a
    /// buffer of exactly `width * height * 4` bytes.
    pub fn new(width: u32, height: u32, bytes: Vec<u8>) -> (r: Result<ScaledFrame, CodecError>)
        ensures
            match r {
                Ok(f) => {
                    &&& size_ok(width as int, height as int)
                    &&& bytes@.len() == frame_bytes(width as int, height as int)
                    &&& f.spec_width() == width
                    &&& f.spec_height() == height
                    &&& f@ == bytes@
                },
                Err(e) => {
                    &&& !(size_ok(width as int, height as int) && bytes@.len() == frame_bytes(
                        width as int,
                        height as int,
                    ))
                    &&& e == CodecError::InvalidScaleSize
                },
            },
    {
        if !size_is_ok(width, height) {
            return Err(CodecError::InvalidScaleSize);
        }
        let need: u64 = (width as u64) * (height as u64) * 4;
        if bytes.len() as u64 != need {
            return Err(CodecError::InvalidScaleSize);
        }
        Ok(ScaledFrame { width, height, bytes })
    }

    /// Builds a scaled frame from parts already proved consistent; the
    /// scaler uses this once it has established its output's length.
    pub fn from_checked(width: u32, height: u32, bytes: Vec<u8>) -> (f: ScaledFrame)
        requires
            size_ok(width as int, height as int),
            bytes@.len() == frame_bytes(width as int, height as int),
        ensures
            f.spec_width() == width,
            f.spec_height() == height,
            f@ == bytes@,
    {
        ScaledFrame { width, height, bytes }
    }

    /// A copy of the pixel buffer. The mailbox hands this out so a reader
    /// never borrows into the slot for longer than a memory copy.
    pub fn clone_pixels(&self) -> (v: Vec<u8>)
        ensures
            v@ == self@,
            v@.len() == frame_bytes(self.spec_width() as int, self.spec_height() as int),
    {
        proof {
            use_type_invariant(self);
        }
        let v = self.bytes.clone();
        proof {
            assert(v@ =~= self.bytes@);
        }
        v
    }
}

} // verus!
