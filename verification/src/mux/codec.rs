//! The codecs that a track can carry, and the numbers by which the
//! multiplexer knows them.

use vstd::prelude::*;

verus! {

/// `webm_sys::mux::OPUS_CODEC_ID`, which that crate defines as 0.
#[verifier::external_body]
fn opus_codec_id() -> (id: u32)
    ensures
        id == 0,
{
    webm_sys::mux::OPUS_CODEC_ID
}

/// `webm_sys::mux::VORBIS_CODEC_ID`, which that crate defines as 1.
#[verifier::external_body]
fn vorbis_codec_id() -> (id: u32)
    ensures
        id == 1,
{
    webm_sys::mux::VORBIS_CODEC_ID
}

/// `webm_sys::mux::VP8_CODEC_ID`, which that crate defines as 0.
#[verifier::external_body]
fn vp8_codec_id() -> (id: u32)
    ensures
        id == 0,
{
    webm_sys::mux::VP8_CODEC_ID
}

/// `webm_sys::mux::VP9_CODEC_ID`, which that crate defines as 1.
#[verifier::external_body]
fn vp9_codec_id() -> (id: u32)
    ensures
        id == 1,
{
    webm_sys::mux::VP9_CODEC_ID
}

/// The codec of an audio track.
#[derive(Clone, Copy, Debug, PartialEq, Eq, Structural)]
pub enum AudioCodecId {
    Opus,
    Vorbis,
}

/// The codec of a video track.
#[derive(Clone, Copy, Debug, PartialEq, Eq, Structural)]
pub enum VideoCodecId {
    VP8,
    VP9,
}

impl AudioCodecId {
    /// The number by which the multiplexer knows the codec.
    pub open spec fn spec_id(self) -> u32 {
        match self {
            AudioCodecId::Opus => 0,
            AudioCodecId::Vorbis => 1,
        }
    }

    /// The number by which the multiplexer knows the codec.
    pub fn get_id(&self) -> (id: u32)
        ensures
            id == self.spec_id(),
    {
        match self {
            AudioCodecId::Opus => opus_codec_id(),
            AudioCodecId::Vorbis => vorbis_codec_id(),
        }
    }
}

impl VideoCodecId {
    /// The number by which the multiplexer knows the codec.
    pub open spec fn spec_id(self) -> u32 {
        match self {
            VideoCodecId::VP8 => 0,
            VideoCodecId::VP9 => 1,
        }
    }

    /// The number by which the multiplexer knows the codec.
    pub fn get_id(&self) -> (id: u32)
        ensures
            id == self.spec_id(),
    {
        match self {
            VideoCodecId::VP8 => vp8_codec_id(),
            VideoCodecId::VP9 => vp9_codec_id(),
        }
    }
}

} // verus!
