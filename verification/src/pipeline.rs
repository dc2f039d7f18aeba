//! The recording loop: its decisions, and what holds of every recording.

pub mod history;
pub mod packet;
pub mod scheduler;

pub use scheduler::{
    frame_interval_nanos, pacing_sleep_nanos, timestamp_ms, Awaited, PipelineAction,
    PipelineEvent, PipelineScheduler, PipelineState, PipelineView, NANOS_PER_MILLI,
    NANOS_PER_SECOND,
};
pub use packet::{mux_frames, packet_timestamp_ns, EncodedPacket, MuxFrame};
