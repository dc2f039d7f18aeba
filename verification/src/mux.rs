//! The multiplexer's side of a recording: the sink it writes through, the
//! tracks it carries and the codecs it knows.

pub mod codec;
pub mod history;
pub mod segment;
pub mod track;
pub mod writer;

pub use codec::{AudioCodecId, VideoCodecId};
pub use segment::{AudioTrackRequest, Segment, VideoTrackRequest};
pub use track::{AudioTrack, ColorRequest, Track, VideoTrack};
pub use writer::{
    ChunkDescriptor, ChunkView, Rotation, SinkPhase, SinkView, WebmWriter, WriteSlot,
};
