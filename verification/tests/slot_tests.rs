//! The mailbox protocol seen from outside: publish overwrites, reads are
//! exact copies and idempotent, resize and stop requests are non-blocking
//! flag work.

use framepipe::frame::{ScaledFrame, TargetSize};
use framepipe::slot::SharedFrameSlot;

fn solid_frame(width: u32, height: u32, rgba: [u8; 4]) -> ScaledFrame {
    let mut bytes = Vec::new();
    for _ in 0..(width as usize * height as usize) {
        bytes.extend_from_slice(&rgba);
    }
    ScaledFrame::new(width, height, bytes).unwrap()
}

#[test]
fn empty_slot_reads_none() {
    let slot = SharedFrameSlot::new(TargetSize::new(400, 300), 30);
    assert!(slot.get_latest_frame().is_none());
    assert_eq!(slot.seq, 0);
}

#[test]
fn publish_then_read_returns_exact_bytes() {
    let mut slot = SharedFrameSlot::new(TargetSize::new(4, 3), 30);
    let frame = solid_frame(4, 3, [1, 2, 3, 255]);
    slot.publish(frame);
    let (bytes, w, h) = slot.get_latest_frame().unwrap();
    assert_eq!((w, h), (4, 3));
    assert_eq!(bytes.len(), 4 * 3 * 4);
    assert_eq!(bytes.len(), (w as usize) * (h as usize) * 4);
    let mut expected = Vec::new();
    for _ in 0..12 {
        expected.extend_from_slice(&[1, 2, 3, 255]);
    }
    assert_eq!(bytes, expected);
}

#[test]
fn read_is_idempotent_without_publish() {
    let mut slot = SharedFrameSlot::new(TargetSize::new(2, 2), 30);
    slot.publish(solid_frame(2, 2, [9, 8, 7, 6]));
    let first = slot.get_latest_frame().unwrap();
    let second = slot.get_latest_frame().unwrap();
    assert_eq!(first, second);
    // Non-publish operations in between change nothing a reader sees.
    slot.set_target_size(100, 50);
    slot.request_stop();
    slot.set_fps(60);
    let third = slot.get_latest_frame().unwrap();
    assert_eq!(first, third);
}

#[test]
fn publish_overwrites_latest() {
    let mut slot = SharedFrameSlot::new(TargetSize::new(2, 1), 30);
    slot.publish(solid_frame(2, 1, [1, 1, 1, 1]));
    slot.publish(solid_frame(2, 1, [2, 2, 2, 2]));
    let (bytes, _, _) = slot.get_latest_frame().unwrap();
    assert_eq!(bytes, vec![2, 2, 2, 2, 2, 2, 2, 2]);
    assert_eq!(slot.seq, 2);
}

#[test]
fn producer_makes_progress_with_unreading_consumer() {
    // Test-double consumer that never reads: every publish must still
    // succeed immediately, one per frame.
    let mut slot = SharedFrameSlot::new(TargetSize::new(1, 1), 30);
    for k in 0..100u8 {
        slot.publish(solid_frame(1, 1, [k, k, k, k]));
        assert_eq!(slot.seq, (k as u64) + 1);
    }
    let (bytes, _, _) = slot.get_latest_frame().unwrap();
    assert_eq!(bytes, vec![99, 99, 99, 99]);
}

#[test]
fn resize_request_is_read_and_cleared_once() {
    let mut slot = SharedFrameSlot::new(TargetSize::new(400, 300), 30);
    assert!(slot.take_rescale_request().is_none());
    slot.set_target_size(640, 480);
    assert!(slot.rescale_needed);
    assert_eq!(slot.target, TargetSize::new(640, 480));
    assert_eq!(
        slot.take_rescale_request(),
        Some(TargetSize::new(640, 480))
    );
    assert!(!slot.rescale_needed);
    assert!(slot.take_rescale_request().is_none());
}

#[test]
fn stop_request_sets_flag_only() {
    let mut slot = SharedFrameSlot::new(TargetSize::new(4, 3), 30);
    slot.publish(solid_frame(4, 3, [5, 5, 5, 5]));
    slot.request_stop();
    assert!(slot.stop_requested);
    assert!(slot.get_latest_frame().is_some());
    assert_eq!(slot.seq, 1);
}

#[test]
fn scaled_frame_validates_length() {
    assert!(ScaledFrame::new(2, 2, vec![0; 16]).is_ok());
    assert!(ScaledFrame::new(2, 2, vec![0; 15]).is_err());
    assert!(ScaledFrame::new(0, 2, vec![]).is_err());
    assert!(ScaledFrame::new(2, 0, vec![]).is_err());
    // Area over the buffer cap is refused even with a matching length claim.
    assert!(ScaledFrame::new(u32::MAX, u32::MAX, vec![]).is_err());
}
