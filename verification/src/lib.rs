//! A cross-thread video frame delivery pipeline.
//!
//! A producer thread decodes a compressed video stream, rescales each decoded
//! picture to the size the consumer most recently asked for, and publishes the
//! result into a single-slot mailbox. A consumer on its own cadence reads the
//! most recent frame from the mailbox, or a placeholder while none has been
//! published yet.
//!
//! This crate holds the pipeline's core: the mailbox and its publish/resize
//! protocol, the scaler and the rule for rebuilding it, the decode loop's
//! state machine, and the consumer-side pixel composition. Opening containers,
//! decoding packets and blitting to a display surface are left to the caller,
//! which hands the core plain values and takes plain values back.

pub mod error;
pub mod frame;
pub mod laws;
pub mod producer;
pub mod render;
pub mod scaler;
pub mod slot;
pub mod source;
