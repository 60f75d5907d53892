//! The media source: which stream is decoded, and by which decoder.
//!
//! Opening and probing a container is the caller's work; it reports what it
//! found as plain values ([`StreamInfo`]), and the core decides from those:
//! the best video stream wins, a hardware decoder is preferred but its
//! absence or failure to bind is never fatal. Exactly one stream is decoded.

use vstd::prelude::*;

use crate::error::MediaError;

verus! {

/// What probing reports for one stream of the container.
#[derive(Clone, Copy, Debug, PartialEq, Eq, Structural)]
pub struct StreamInfo {
    /// Whether the stream's media type is video.
    pub is_video: bool,
    /// The container's own ranking of the stream; higher is better.
    pub score: u32,
    /// Reported frame width in pixels.
    pub width: u32,
    /// Reported frame height in pixels.
    pub height: u32,
    /// Reported nominal frame rate, frames per second; zero or negative
    /// when the container does not say.
    pub fps: i32,
}

/// Which decoder the pipeline runs.
#[derive(Clone, Copy, Debug, PartialEq, Eq, Structural)]
pub enum DecoderChoice {
    /// The named hardware-accelerated decoder for the stream's codec.
    Hardware,
    /// The generic software decoder for the stream's codec.
    Software,
}

/// Whether `i` names the stream the source must decode: a video stream of
/// maximal score, the first such if several tie.
pub open spec fn is_best_video(streams: Seq<StreamInfo>, i: int) -> bool {
    &&& 0 <= i < streams.len()
    &&& streams[i].is_video
    &&& forall|j: int|
        0 <= j < streams.len() && streams[j].is_video ==> streams[j].score <= streams[i].score
    &&& forall|j: int| 0 <= j < i && streams[j].is_video ==> streams[j].score < streams[i].score
}

/// Picks the stream to decode. Succeeds if and only if the container has at
/// least one video stream; fails with [`MediaError::StreamNotFound`]
/// otherwise.
pub fn select_best_video_stream(streams: &Vec<StreamInfo>) -> (r: Result<usize, MediaError>)
    ensures
        match r {
            Ok(i) => is_best_video(streams@, i as int),
            Err(e) => {
                &&& e == MediaError::StreamNotFound
                &&& forall|j: int| 0 <= j < streams@.len() ==> !streams@[j].is_video
            },
        },
{
    let mut best: Option<usize> = None;
    let mut k: usize = 0;
    while k < streams.len()
        invariant
            k <= streams@.len(),
            match best {
                None => forall|j: int| 0 <= j < k as int ==> !streams@[j].is_video,
                Some(b) => {
                    &&& (b as int) < k as int
                    &&& streams@[b as int].is_video
                    &&& forall|j: int|
                        0 <= j < k as int && streams@[j].is_video ==> streams@[j].score
                            <= streams@[b as int].score
                    &&& forall|j: int|
                        0 <= j < b as int && streams@[j].is_video ==> streams@[j].score
                            < streams@[b as int].score
                },
            },
        decreases streams@.len() - k as int,
    {
        if streams[k].is_video {
            match best {
                None => {
                    best = Some(k);
                },
                Some(b) => {
                    if streams[b].score < streams[k].score {
                        best = Some(k);
                    }
                },
            }
        }
        k = k + 1;
    }
    match best {
        Some(b) => Ok(b),
        None => Err(MediaError::StreamNotFound),
    }
}

/// The decoder selection policy: take the hardware decoder when one exists
/// for the codec and it bound to the stream's parameters; fall back to the
/// software decoder in every other case. Total — hardware absence or a
/// failed binding never fails the source, it only changes the choice.
pub fn choose_decoder(hw_found: bool, hw_bound: bool) -> (c: DecoderChoice)
    ensures
        c == (if hw_found && hw_bound {
            DecoderChoice::Hardware
        } else {
            DecoderChoice::Software
        }),
{
    if hw_found && hw_bound {
        DecoderChoice::Hardware
    } else {
        DecoderChoice::Software
    }
}

/// The open media source, as the core sees it: the chosen stream and what
/// the decoder reports about it. Built once per pipeline; the decode loop
/// reads it for the life of the thread.
#[derive(Clone, Copy, Debug, PartialEq, Eq, Structural)]
pub struct MediaSource {
    /// Index of the stream being decoded; packets of other streams are
    /// skipped.
    pub video_index: usize,
    /// The decoder's reported frame width.
    pub width: u32,
    /// The decoder's reported frame height.
    pub height: u32,
    /// The stream's nominal frame rate, for the consumer's pacing.
    pub fps: i32,
    /// Which decoder was built.
    pub decoder: DecoderChoice,
}

impl MediaSource {
    /// Builds the source's view of an opened container. Succeeds if and
    /// only if the container has a video stream; the chosen stream is the
    /// best-ranked one and the decoder follows [`choose_decoder`]'s policy.
    pub fn from_probe(streams: &Vec<StreamInfo>, hw_found: bool, hw_bound: bool) -> (r: Result<
        MediaSource,
        MediaError,
    >)
        ensures
            match r {
                Ok(ms) => {
                    &&& is_best_video(streams@, ms.video_index as int)
                    &&& ms.width == streams@[ms.video_index as int].width
                    &&& ms.height == streams@[ms.video_index as int].height
                    &&& ms.fps == streams@[ms.video_index as int].fps
                    &&& ms.decoder == (if hw_found && hw_bound {
                        DecoderChoice::Hardware
                    } else {
                        DecoderChoice::Software
                    })
                },
                Err(e) => {
                    &&& e == MediaError::StreamNotFound
                    &&& forall|j: int| 0 <= j < streams@.len() ==> !streams@[j].is_video
                },
            },
    {
        let video_index = match select_best_video_stream(streams) {
            Ok(i) => i,
            Err(e) => {
                return Err(e);
            },
        };
        let chosen = &streams[video_index];
        Ok(
            MediaSource {
                video_index,
                width: chosen.width,
                height: chosen.height,
                fps: chosen.fps,
                decoder: choose_decoder(hw_found, hw_bound),
            },
        )
    }

    /// Whether a packet of stream `stream_index` belongs to the decoded
    /// stream. The decode loop feeds the decoder exactly these packets.
    pub fn is_selected_stream(&self, stream_index: usize) -> (b: bool)
        ensures
            b == (stream_index == self.video_index),
    {
        stream_index == self.video_index
    }
}

} // verus!
