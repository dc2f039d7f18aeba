//! The segment: one recording as the multiplexer sees it.
//!
//! The segment owns the sink for as long as the recording lasts. What it
//! asks of the multiplexer it hands out as plain values, for its owner to
//! pass on.

use vstd::prelude::*;
use crate::mux::codec::{AudioCodecId, VideoCodecId};
use crate::mux::writer::WebmWriter;

verus! {

/// `webm_sys::mux::SEGMENT_MODE_LIVE`, which that crate defines as 1.
#[verifier::external_body]
fn segment_mode_live() -> (mode: u32)
    ensures
        mode == 1,
{
    webm_sys::mux::SEGMENT_MODE_LIVE
}

/// What the multiplexer is asked for a new video track.
#[derive(Clone, Copy, Debug, PartialEq, Eq, Structural)]
pub struct VideoTrackRequest {
    pub width: i32,
    pub height: i32,
    pub number: i32,
    pub codec_id: u32,
}

/// What the multiplexer is asked for a new audio track.
#[derive(Clone, Copy, Debug, PartialEq, Eq, Structural)]
pub struct AudioTrackRequest {
    pub sample_rate: i32,
    pub channels: i32,
    pub number: i32,
    pub codec_id: u32,
}

/// A picture's side as the multiplexer takes it: the same number where it
/// fits, and the number that has the same 32 bits where it does not.
pub open spec fn spec_dimension(side: u32) -> int {
    if side <= i32::MAX {
        side as int
    } else {
        side - 0x1_0000_0000
    }
}

fn dimension(side: u32) -> (d: i32)
    ensures
        d == spec_dimension(side),
{
    let d: i32 = #[verifier::truncate] (side as i32);
    assert(d == spec_dimension(side)) by (bit_vector)
        requires
            d == side as i32,
    ;
    d
}

/// The track number to ask for: the one wanted, or 0 to let the multiplexer
/// choose.
pub open spec fn spec_track_number(id: Option<i32>) -> i32 {
    match id {
        Some(number) => number,
        None => 0,
    }
}

/// The duration to tell the multiplexer: the one known, or 0 for none.
pub open spec fn spec_duration_hint(duration: Option<u64>) -> u64 {
    match duration {
        Some(nanos) => nanos,
        None => 0,
    }
}

/// One recording as the multiplexer sees it.
pub struct Segment {
    writer: WebmWriter,
    app_name: Option<String>,
}

impl Segment {
    /// The sink that the segment writes through.
    pub closed spec fn sink(&self) -> WebmWriter {
        self.writer
    }

    /// The name of the writing application, where one has been set.
    pub closed spec fn spec_app_name(&self) -> Option<Seq<char>> {
        match self.app_name {
            Some(name) => Some(name@),
            None => None,
        }
    }

    /// A segment that writes through `dest`. `initialized` says whether the
    /// multiplexer took the sink; where it did not, there is no segment.
    pub fn new(dest: WebmWriter, initialized: bool) -> (segment: Option<Segment>)
        ensures
            segment.is_some() == initialized,
            segment.is_some() ==> segment.unwrap().sink() == dest
                && segment.unwrap().spec_app_name().is_none(),
    {
        if !initialized {
            return None;
        }
        Some(Segment { writer: dest, app_name: None })
    }

    /// Names the application that writes the recording. The multiplexer
    /// takes the name as a string that ends at its first NUL character, so
    /// the name holds none.
    pub fn set_app_name(&mut self, name: &str)
        requires
            !name@.contains('\0'),
        ensures
            final(self).spec_app_name() == Some(name@),
            final(self).sink() == old(self).sink(),
    {
        self.app_name = Some(name.to_owned());
    }

    /// The name of the writing application, where one has been set.
    pub fn app_name(&self) -> (name: Option<&str>)
        ensures
            name.is_some() == self.spec_app_name().is_some(),
            name.is_some() ==> name.unwrap()@ == self.spec_app_name().unwrap(),
    {
        match &self.app_name {
            Some(name) => Some(name.as_str()),
            None => None,
        }
    }

    /// The mode that the multiplexer is put in: a live recording, written
    /// as it comes.
    pub fn mode(&self) -> (mode: u32)
        ensures
            mode == 1,
    {
        segment_mode_live()
    }

    /// The sink, to look at.
    pub fn writer(&self) -> (writer: &WebmWriter)
        ensures
            *writer == self.sink(),
    {
        &self.writer
    }

    /// The sink, for the multiplexer to write through.
    pub fn writer_mut(&mut self) -> (writer: &mut WebmWriter)
        ensures
            *writer == old(self).sink(),
            final(self).sink() == *final(writer),
            final(self).spec_app_name() == old(self).spec_app_name(),
    {
        &mut self.writer
    }

    /// What to ask of the multiplexer for a video track of `width` by
    /// `height` pixels in `codec`, numbered `id` where that is given.
    pub fn add_video_track(
        &self,
        width: u32,
        height: u32,
        id: Option<i32>,
        codec: VideoCodecId,
    ) -> (request: VideoTrackRequest)
        ensures
            request.width == spec_dimension(width),
            request.height == spec_dimension(height),
            request.number == spec_track_number(id),
            request.codec_id == codec.spec_id(),
    {
        VideoTrackRequest {
            width: dimension(width),
            height: dimension(height),
            number: id.unwrap_or(0),
            codec_id: codec.get_id(),
        }
    }

    /// What to ask of the multiplexer for an audio track of `channels`
    /// channels at `sample_rate` samples a second in `codec`, numbered `id`
    /// where that is given.
    pub fn add_audio_track(
        &self,
        sample_rate: i32,
        channels: i32,
        id: Option<i32>,
        codec: AudioCodecId,
    ) -> (request: AudioTrackRequest)
        ensures
            request == (AudioTrackRequest {
                sample_rate,
                channels,
                number: spec_track_number(id),
                codec_id: codec.spec_id(),
            }),
    {
        AudioTrackRequest {
            sample_rate,
            channels,
            number: id.unwrap_or(0),
            codec_id: codec.get_id(),
        }
    }

    /// Ends the segment. The result is the duration to tell the multiplexer
    /// as it closes the container, and the sink, as it was: the chunk that is
    /// open stays the last one and is not handed on as complete.
    pub fn finalize(self, duration: Option<u64>) -> (out: (u64, WebmWriter))
        ensures
            out.0 == spec_duration_hint(duration),
            out.1 == self.sink(),
    {
        (duration.unwrap_or(0), self.writer)
    }
}

} // verus!
