//! End-to-end scenarios against a synthetic source: the decode loop's state
//! machine driven with known frames, and the consumer surface read back.

use framepipe::error::CodecError;
use framepipe::frame::{DecodedFrame, TargetSize};
use framepipe::producer::{DecodeLoop, DecodeState};
use framepipe::slot::SharedFrameSlot;
use framepipe::source::{DecoderChoice, MediaSource, StreamInfo};

fn synthetic_source(width: u32, height: u32, fps: i32) -> MediaSource {
    let streams = vec![StreamInfo { is_video: true, score: 1, width, height, fps }];
    MediaSource::from_probe(&streams, false, false).unwrap()
}

fn solid_decoded(width: u32, height: u32, rgba: [u8; 4]) -> DecodedFrame {
    let mut bytes = Vec::new();
    for _ in 0..(width as usize * height as usize) {
        bytes.extend_from_slice(&rgba);
    }
    DecodedFrame::new(width, height, bytes).unwrap()
}

#[test]
fn ten_known_frames_end_with_the_tenth() {
    // Scenario: a synthetic source of 10 known solid-color frames at a
    // fixed size; the consumer never resizes. After the producer finishes,
    // every read returns the 10th frame's exact pixel data.
    let source = synthetic_source(4, 3, 30);
    let mut slot = SharedFrameSlot::new(TargetSize::new(4, 3), 30);
    let mut lp = DecodeLoop::init(&source, &slot).unwrap();
    assert_eq!(lp.state, DecodeState::Streaming);
    for k in 1..=10u8 {
        lp.process_frame(&mut slot, &solid_decoded(4, 3, [k, k, k, 255]))
            .unwrap();
    }
    lp.on_end_of_input();
    lp.on_drained();
    assert_eq!(lp.state, DecodeState::Terminated);
    assert_eq!(slot.seq, 10);
    let mut expected = Vec::new();
    for _ in 0..12 {
        expected.extend_from_slice(&[10, 10, 10, 255]);
    }
    // The 10th read after the producer finished still shows frame 10.
    for _ in 0..9 {
        let _ = slot.get_latest_frame().unwrap();
    }
    let (bytes, w, h) = slot.get_latest_frame().unwrap();
    assert_eq!((w, h), (4, 3));
    assert_eq!(bytes, expected);
}

#[test]
fn back_to_back_resizes_publish_at_a_requested_size() {
    // Scenario: two resize requests land before the producer processes any
    // frame; the next published frame must have one of the two requested
    // sizes, never one from before the calls. Here the later request wins.
    let source = synthetic_source(4, 3, 30);
    let mut slot = SharedFrameSlot::new(TargetSize::new(4, 3), 30);
    let mut lp = DecodeLoop::init(&source, &slot).unwrap();
    slot.set_target_size(100, 50);
    slot.set_target_size(200, 100);
    lp.process_frame(&mut slot, &solid_decoded(4, 3, [5, 6, 7, 255]))
        .unwrap();
    let (bytes, w, h) = slot.get_latest_frame().unwrap();
    assert!([(100, 50), (200, 100)].contains(&(w, h)));
    assert_eq!((w, h), (200, 100));
    assert_eq!(bytes.len(), 200 * 100 * 4);
    for chunk in bytes.chunks(4) {
        assert_eq!(chunk, [5, 6, 7, 255]);
    }
}

#[test]
fn source_without_video_leaves_slot_empty() {
    // Scenario: a source reporting zero video streams. The producer never
    // starts, the slot stays empty, and reading it keeps returning `None`
    // immediately.
    let streams = vec![StreamInfo { is_video: false, score: 9, width: 0, height: 0, fps: 0 }];
    assert!(MediaSource::from_probe(&streams, true, true).is_err());
    let slot = SharedFrameSlot::new(TargetSize::new(400, 300), 30);
    for _ in 0..5 {
        assert!(slot.get_latest_frame().is_none());
    }
    assert_eq!(slot.seq, 0);
}

#[test]
fn resize_applies_once_then_sticks() {
    let source = synthetic_source(2, 2, 30);
    let mut slot = SharedFrameSlot::new(TargetSize::new(2, 2), 30);
    let mut lp = DecodeLoop::init(&source, &slot).unwrap();
    slot.set_target_size(3, 1);
    lp.process_frame(&mut slot, &solid_decoded(2, 2, [1, 2, 3, 4])).unwrap();
    // No new request: the next frame keeps the already-applied size.
    lp.process_frame(&mut slot, &solid_decoded(2, 2, [4, 3, 2, 1])).unwrap();
    let (bytes, w, h) = slot.get_latest_frame().unwrap();
    assert_eq!((w, h), (3, 1));
    assert_eq!(bytes, vec![4, 3, 2, 1, 4, 3, 2, 1, 4, 3, 2, 1]);
    assert_eq!(slot.seq, 2);
}

#[test]
fn rescale_to_invalid_size_fails_the_loop() {
    let source = synthetic_source(2, 2, 30);
    let mut slot = SharedFrameSlot::new(TargetSize::new(2, 2), 30);
    let mut lp = DecodeLoop::init(&source, &slot).unwrap();
    lp.process_frame(&mut slot, &solid_decoded(2, 2, [1, 1, 1, 1])).unwrap();
    slot.set_target_size(0, 0);
    let r = lp.process_frame(&mut slot, &solid_decoded(2, 2, [2, 2, 2, 2]));
    assert_eq!(r, Err(CodecError::InvalidScaleSize));
    assert_eq!(lp.state, DecodeState::Failed);
    // The slot keeps the last good frame; the consumer degrades, it does
    // not crash.
    let (bytes, w, h) = slot.get_latest_frame().unwrap();
    assert_eq!((w, h), (2, 2));
    assert_eq!(bytes, vec![1, 1, 1, 1].repeat(4));
    assert_eq!(slot.seq, 1);
}

#[test]
fn batch_publishes_every_frame_and_keeps_the_last() {
    let source = synthetic_source(1, 1, 30);
    let mut slot = SharedFrameSlot::new(TargetSize::new(1, 1), 30);
    let mut lp = DecodeLoop::init(&source, &slot).unwrap();
    let frames = vec![
        solid_decoded(1, 1, [1, 0, 0, 0]),
        solid_decoded(1, 1, [2, 0, 0, 0]),
        solid_decoded(1, 1, [3, 0, 0, 0]),
    ];
    lp.process_batch(&mut slot, &frames).unwrap();
    assert_eq!(slot.seq, 3);
    let (bytes, _, _) = slot.get_latest_frame().unwrap();
    assert_eq!(bytes, vec![3, 0, 0, 0]);
}

#[test]
fn empty_batch_changes_nothing() {
    let source = synthetic_source(1, 1, 30);
    let mut slot = SharedFrameSlot::new(TargetSize::new(1, 1), 30);
    let mut lp = DecodeLoop::init(&source, &slot).unwrap();
    lp.process_batch(&mut slot, &Vec::new()).unwrap();
    assert_eq!(slot.seq, 0);
    assert!(slot.get_latest_frame().is_none());
    assert_eq!(lp.state, DecodeState::Streaming);
}

#[test]
fn batch_with_unusable_pending_resize_fails() {
    let source = synthetic_source(1, 1, 30);
    let mut slot = SharedFrameSlot::new(TargetSize::new(1, 1), 30);
    let mut lp = DecodeLoop::init(&source, &slot).unwrap();
    slot.set_target_size(0, 7);
    let frames = vec![solid_decoded(1, 1, [1, 1, 1, 1])];
    assert_eq!(
        lp.process_batch(&mut slot, &frames),
        Err(CodecError::InvalidScaleSize)
    );
    assert_eq!(lp.state, DecodeState::Failed);
    assert_eq!(slot.seq, 0);
    assert!(slot.get_latest_frame().is_none());
}

#[test]
fn transient_decoder_reports_are_not_fatal() {
    let source = synthetic_source(1, 1, 30);
    let slot = SharedFrameSlot::new(TargetSize::new(1, 1), 30);
    let mut lp = DecodeLoop::init(&source, &slot).unwrap();
    lp.on_decode_error(true);
    assert_eq!(lp.state, DecodeState::Streaming);
    lp.on_decode_error(false);
    assert_eq!(lp.state, DecodeState::Failed);
}

#[test]
fn end_of_stream_drains_then_terminates() {
    let source = synthetic_source(1, 1, 30);
    let mut slot = SharedFrameSlot::new(TargetSize::new(1, 1), 30);
    let mut lp = DecodeLoop::init(&source, &slot).unwrap();
    lp.on_end_of_input();
    assert_eq!(lp.state, DecodeState::Eof);
    // Frames buffered in the decoder still come out during the flush.
    lp.process_frame(&mut slot, &solid_decoded(1, 1, [8, 8, 8, 8])).unwrap();
    lp.on_drained();
    assert_eq!(lp.state, DecodeState::Terminated);
    assert_eq!(slot.seq, 1);
}

#[test]
fn stop_request_terminates_cooperatively() {
    let source = synthetic_source(1, 1, 30);
    let mut slot = SharedFrameSlot::new(TargetSize::new(1, 1), 30);
    let mut lp = DecodeLoop::init(&source, &slot).unwrap();
    slot.request_stop();
    if slot.stop_requested {
        lp.on_stop_request();
    }
    assert_eq!(lp.state, DecodeState::Terminated);
}

#[test]
fn init_fails_against_unusable_target() {
    let source = synthetic_source(2, 2, 30);
    let slot = SharedFrameSlot::new(TargetSize::new(0, 300), 30);
    assert_eq!(
        DecodeLoop::init(&source, &slot).err(),
        Some(CodecError::InvalidScaleSize)
    );
    let bad_source = MediaSource {
        video_index: 0,
        width: 0,
        height: 0,
        fps: 30,
        decoder: DecoderChoice::Software,
    };
    let ok_slot = SharedFrameSlot::new(TargetSize::new(4, 3), 30);
    assert!(DecodeLoop::init(&bad_source, &ok_slot).is_err());
}
