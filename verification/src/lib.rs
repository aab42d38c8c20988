//! Rolling audio capture: a bounded history of recent samples that can be
//! frozen into a growing recording, and a relay that hands live input to an
//! output device in blocks, with sample-rate conversion done in fixed chunks.

pub mod capture_buffer;
pub mod channel_queue;
pub mod converter;
pub mod error;
pub mod monitor;
pub mod naming;
pub mod output;
pub mod plot;
pub mod recorder;
pub mod ring_buffer;
pub mod sample;
