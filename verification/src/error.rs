//! Error taxonomy of the pipeline core.
//!
//! Every error is confined to the producer side: the consumer's operations
//! (reading the mailbox, requesting a size) cannot fail.

use vstd::prelude::*;

verus! {

/// Failure to set up the media source. Fatal to the decode thread only: the
/// consumer keeps running and shows a placeholder.
#[derive(Clone, Copy, Debug, PartialEq, Eq, Structural)]
pub enum MediaError {
    /// The container could not be opened or probed.
    OpenFailed,
    /// The container reports no video stream.
    StreamNotFound,
}

/// Failure of the decoder or of the scaler. Fatal to the decode thread only;
/// the consumer degrades to the last published frame or a placeholder.
#[derive(Clone, Copy, Debug, PartialEq, Eq, Structural)]
pub enum CodecError {
    /// The decoder could not be constructed or bound to the stream.
    DecoderInit,
    /// A scaler was requested for dimensions that cannot back a frame
    /// buffer: a zero width or height, or an area over the buffer cap.
    InvalidScaleSize,
    /// The decoder failed in a way that is not "needs more input".
    DecodeFailed,
}

} // verus!
