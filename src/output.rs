//! What the output device is asked for when a sink opens.
use vstd::prelude::*;

use crate::channels::{device_map, map_channels, ChannelPosition};
use crate::error::AudioOutputError;

verus! {

/// The stream configuration that the device is asked for: 32-bit float
/// samples in native byte order, at `rate`, one position per channel.
#[derive(Debug)]
pub struct StreamConfig {
    pub rate: u32,
    pub channels: u8,
    pub positions: Vec<ChannelPosition>,
}

/// The highest sample rate that the device accepts.
pub const RATE_MAX: u32 = 768_000;

/// The most channels that the device accepts.
pub const CHANNELS_MAX: u8 = 32;

/// Whether the device accepts a stream of `rate` with `channels` channels.
pub open spec fn accepted(rate: u32, channels: nat) -> bool {
    0 < rate <= RATE_MAX && 1 <= channels <= CHANNELS_MAX
}

/// Negotiates the device configuration for a decoded signal of sample rate
/// `rate` and channel layout `layout`. A layout that the device cannot
/// represent is refused rather than played with channels dropped, and so
/// are a rate of zero or above the device's maximum and an empty layout.
pub fn stream_config(rate: u32, layout: u32) -> (r: Result<StreamConfig, AudioOutputError>)
    ensures
        match device_map(layout) {
            Some(positions) if accepted(rate, positions.len()) => r matches Ok(c) && c.rate
                == rate && c.positions@ == positions && c.channels as nat == positions.len(),
            _ => r == Err::<StreamConfig, AudioOutputError>(AudioOutputError::OpenStreamError),
        },
{
    match map_channels(layout) {
        Some(positions) => {
            if rate == 0 || rate > RATE_MAX || positions.len() == 0 {
                return Err(AudioOutputError::OpenStreamError);
            }
            let channels = positions.len() as u8;
            Ok(StreamConfig { rate, channels, positions })
        },
        None => Err(AudioOutputError::OpenStreamError),
    }
}

} // verus!
