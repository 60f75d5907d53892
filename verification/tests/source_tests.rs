//! Stream selection, decoder fallback policy, and consumer pacing.

use framepipe::error::MediaError;
use framepipe::render::pacing_interval_ms;
use framepipe::source::{
    choose_decoder, select_best_video_stream, DecoderChoice, MediaSource, StreamInfo,
};

fn stream(is_video: bool, score: u32) -> StreamInfo {
    StreamInfo { is_video, score, width: 320, height: 240, fps: 25 }
}

#[test]
fn best_video_stream_wins() {
    let streams = vec![
        stream(false, 100),
        stream(true, 3),
        stream(true, 7),
        stream(true, 5),
    ];
    assert_eq!(select_best_video_stream(&streams), Ok(2));
}

#[test]
fn first_of_tied_scores_wins() {
    let streams = vec![stream(true, 7), stream(false, 9), stream(true, 7)];
    assert_eq!(select_best_video_stream(&streams), Ok(0));
}

#[test]
fn no_video_stream_is_stream_not_found() {
    let streams = vec![stream(false, 9), stream(false, 1)];
    assert_eq!(
        select_best_video_stream(&streams),
        Err(MediaError::StreamNotFound)
    );
    assert_eq!(
        select_best_video_stream(&Vec::new()),
        Err(MediaError::StreamNotFound)
    );
}

#[test]
fn hardware_decoder_needs_found_and_bound() {
    assert_eq!(choose_decoder(true, true), DecoderChoice::Hardware);
    assert_eq!(choose_decoder(true, false), DecoderChoice::Software);
    assert_eq!(choose_decoder(false, true), DecoderChoice::Software);
    assert_eq!(choose_decoder(false, false), DecoderChoice::Software);
}

#[test]
fn from_probe_takes_chosen_stream_fields() {
    let streams = vec![
        stream(false, 9),
        StreamInfo { is_video: true, score: 4, width: 640, height: 360, fps: 24 },
    ];
    let ms = MediaSource::from_probe(&streams, true, false).unwrap();
    assert_eq!(ms.video_index, 1);
    assert_eq!((ms.width, ms.height, ms.fps), (640, 360, 24));
    assert_eq!(ms.decoder, DecoderChoice::Software);
    assert!(ms.is_selected_stream(1));
    assert!(!ms.is_selected_stream(0));
}

#[test]
fn from_probe_without_video_fails() {
    let streams = vec![stream(false, 9)];
    assert_eq!(
        MediaSource::from_probe(&streams, true, true),
        Err(MediaError::StreamNotFound)
    );
}

#[test]
fn pacing_follows_frame_rate_with_fallback() {
    assert_eq!(pacing_interval_ms(30), 33);
    assert_eq!(pacing_interval_ms(60), 16);
    assert_eq!(pacing_interval_ms(1), 1000);
    assert_eq!(pacing_interval_ms(1000), 1);
    assert_eq!(pacing_interval_ms(1500), 0);
    // Unreported rates fall back to 30 fps.
    assert_eq!(pacing_interval_ms(0), 33);
    assert_eq!(pacing_interval_ms(-10), 33);
}
