//! A verified core for streaming decoded audio into a real-time output
//! device: sample-format negotiation, checked frame-layout views, and a
//! bounded FIFO sample queue with backpressure, connecting a pull-based
//! decode loop to a hardware-clocked playback callback.

pub mod format;
pub mod frame;
pub mod laws;
pub mod pipeline;
pub mod queue;
pub mod resample;
