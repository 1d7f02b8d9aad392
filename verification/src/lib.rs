//! Core logic of HearOneDevice: sharing a PC's system audio with other
//! devices on the same network.
//!
//! The library decides; the host application performs the audio capture,
//! the network serving and the WebRTC session. Each module holds the logic of
//! one part of the application, with contracts that Verus proves.
use vstd::prelude::*;

pub mod payload;
pub mod text;
pub mod capture;
pub mod capture_linux;
pub mod capture_win;
pub mod capture_android;
pub mod channel;
pub mod rtc;

verus! {

/// Format of the audio that a capture delivers to the receivers.
#[derive(Debug, Clone, Copy, PartialEq, Eq, Structural)]
pub struct AudioConfig {
    /// Frames per second.
    pub sample_rate: u32,
    /// Interleaved channels per frame.
    pub channels: u16,
}

impl AudioConfig {
    /// The configuration of `channels` channels at `sample_rate` frames per second.
    pub fn new(sample_rate: u32, channels: u16) -> (r: AudioConfig)
        ensures
            r.sample_rate == sample_rate,
            r.channels == channels,
    {
        AudioConfig { sample_rate, channels }
    }
}

} // verus!
