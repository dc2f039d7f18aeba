//! Handles to the tracks of a segment.
//!
//! The multiplexer owns its tracks and gives each a number. A handle holds
//! that number, and says which kind of track it stands for.

use vstd::prelude::*;

verus! {

/// What the two kinds of track have in common.
pub trait Track {
    /// The number that the multiplexer gave the track.
    spec fn number(&self) -> u64;

    /// Whether the track carries sound.
    fn is_audio(&self) -> bool;

    /// Whether the track carries pictures.
    fn is_video(&self) -> bool;

    /// The number that the multiplexer gave the track.
    fn get_track(&self) -> (number: u64)
        ensures
            number == self.number(),
    ;
}

/// A video track of a segment.
#[derive(Clone, Copy, Debug, PartialEq, Eq, Structural)]
pub struct VideoTrack {
    pub number: u64,
}

/// An audio track of a segment.
#[derive(Clone, Copy, Debug, PartialEq, Eq, Structural)]
pub struct AudioTrack {
    pub number: u64,
}

/// What the multiplexer is told of a video track's colour: how many bits a
/// channel has, whether the chroma planes are halved across and down, and
/// whether the values span the full range. Each flag is 1 or 0.
#[derive(Clone, Copy, Debug, PartialEq, Eq, Structural)]
pub struct ColorRequest {
    pub track: u64,
    pub bits_per_channel: u8,
    pub sampling_horiz: u8,
    pub sampling_vert: u8,
    pub color_range: u8,
}

/// The number that stands for a flag.
pub open spec fn spec_flag(b: bool) -> u8 {
    if b {
        1
    } else {
        0
    }
}

fn flag(b: bool) -> (n: u8)
    ensures
        n == spec_flag(b),
{
    if b {
        1
    } else {
        0
    }
}

impl VideoTrack {
    /// The handle of the video track that the multiplexer numbered `number`.
    pub fn new(number: u64) -> (track: VideoTrack)
        ensures
            track.number == number,
    {
        VideoTrack { number }
    }

    /// What to tell the multiplexer so that the track has `bit_depth` bits a
    /// channel, the chroma subsampling `subsampling` (across, down) and the
    /// range `full_range`.
    pub fn set_color(&self, bit_depth: u8, subsampling: (bool, bool), full_range: bool) -> (request:
        ColorRequest)
        ensures
            request == (ColorRequest {
                track: self.number,
                bits_per_channel: bit_depth,
                sampling_horiz: spec_flag(subsampling.0),
                sampling_vert: spec_flag(subsampling.1),
                color_range: spec_flag(full_range),
            }),
    {
        let (sampling_horiz, sampling_vert) = subsampling;
        ColorRequest {
            track: self.number,
            bits_per_channel: bit_depth,
            sampling_horiz: flag(sampling_horiz),
            sampling_vert: flag(sampling_vert),
            color_range: flag(full_range),
        }
    }
}

impl AudioTrack {
    /// The handle of the audio track that the multiplexer numbered `number`.
    pub fn new(number: u64) -> (track: AudioTrack)
        ensures
            track.number == number,
    {
        AudioTrack { number }
    }
}

impl Track for VideoTrack {
    open spec fn number(&self) -> u64 {
        self.number
    }

    fn is_audio(&self) -> (audio: bool)
        ensures
            !audio,
    {
        false
    }

    fn is_video(&self) -> (video: bool)
        ensures
            video,
    {
        true
    }

    fn get_track(&self) -> (number: u64) {
        self.number
    }
}

impl Track for AudioTrack {
    open spec fn number(&self) -> u64 {
        self.number
    }

    fn is_audio(&self) -> (audio: bool)
        ensures
            audio,
    {
        true
    }

    fn is_video(&self) -> (video: bool)
        ensures
            !video,
    {
        false
    }

    fn get_track(&self) -> (number: u64) {
        self.number
    }
}

} // verus!
