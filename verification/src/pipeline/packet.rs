//! Encoded packets on their way to the multiplexer.
//!
//! The encoder counts time in milliseconds, the multiplexer in nanoseconds.

use vstd::prelude::*;

verus! {

/// What the encoder gives for a frame: the payload, its presentation
/// timestamp in milliseconds, and whether it is a key frame.
pub struct EncodedPacket {
    pub data: Vec<u8>,
    pub pts: i64,
    pub key: bool,
}

/// What the multiplexer takes for a track: the payload, its timestamp in
/// nanoseconds, and whether it is a key frame.
pub struct MuxFrame {
    pub data: Vec<u8>,
    pub timestamp_ns: u64,
    pub keyframe: bool,
}

/// A packet as a mathematical value.
pub struct PacketView {
    pub data: Seq<u8>,
    pub pts: int,
    pub key: bool,
}

/// A frame as a mathematical value.
pub struct FrameView {
    pub data: Seq<u8>,
    pub timestamp_ns: int,
    pub keyframe: bool,
}

impl View for EncodedPacket {
    type V = PacketView;

    open spec fn view(&self) -> PacketView {
        PacketView { data: self.data@, pts: self.pts as int, key: self.key }
    }
}

impl View for MuxFrame {
    type V = FrameView;

    open spec fn view(&self) -> FrameView {
        FrameView {
            data: self.data@,
            timestamp_ns: self.timestamp_ns as int,
            keyframe: self.keyframe,
        }
    }
}

/// The nanoseconds in `pts` milliseconds.
pub open spec fn spec_timestamp_ns(pts: int) -> int {
    pts * 1_000_000
}

/// Whether the multiplexer's clock can hold the timestamp `pts`: it is not
/// negative, and its nanoseconds fit.
pub open spec fn spec_representable(pts: int) -> bool {
    0 <= pts && spec_timestamp_ns(pts) <= u64::MAX
}

impl PacketView {
    /// The frame that carries this packet.
    pub open spec fn frame(self) -> FrameView {
        FrameView {
            data: self.data,
            timestamp_ns: spec_timestamp_ns(self.pts),
            keyframe: self.key,
        }
    }
}

/// The timestamp `pts`, given in milliseconds, in nanoseconds; `None` where
/// the multiplexer's clock cannot hold it.
pub fn packet_timestamp_ns(pts: i64) -> (ns: Option<u64>)
    ensures
        ns.is_some() == spec_representable(pts as int),
        ns.is_some() ==> ns.unwrap() == spec_timestamp_ns(pts as int),
{
    if pts < 0 {
        None
    } else {
        let ms: u64 = pts as u64;
        if ms <= u64::MAX / 1_000_000 {
            Some(ms * 1_000_000)
        } else {
            None
        }
    }
}

impl EncodedPacket {
    /// The frame that carries this packet to the multiplexer; `None` where
    /// the multiplexer's clock cannot hold its timestamp.
    pub fn into_frame(self) -> (frame: Option<MuxFrame>)
        ensures
            frame.is_some() == spec_representable(self@.pts),
            frame.is_some() ==> frame.unwrap()@ == self@.frame(),
    {
        match packet_timestamp_ns(self.pts) {
            Some(timestamp_ns) => Some(
                MuxFrame { data: self.data, timestamp_ns, keyframe: self.key },
            ),
            None => None,
        }
    }
}

/// Turns the packets that the encoder gave into frames for the multiplexer,
/// in the order given. It stops before the first packet whose timestamp the
/// multiplexer's clock cannot hold: the frames are those of the packets
/// before it, and `complete` says whether there was no such packet.
pub fn mux_frames(packets: Vec<EncodedPacket>) -> (out: (Vec<MuxFrame>, bool))
    ensures
        out.0.len() <= packets.len(),
        forall|i: int|
            #![trigger packets[i]]
            0 <= i < out.0.len() ==> spec_representable(packets[i]@.pts) && out.0[i]@
                == packets[i]@.frame(),
        out.0.len() < packets.len() ==> !spec_representable(packets[out.0.len() as int]@.pts),
        out.1 == (out.0.len() == packets.len()),
{
    let mut frames: Vec<MuxFrame> = Vec::new();
    let mut complete = true;
    let ghost all = packets@;
    for packet in it: packets
        invariant
            it.seq() == all,
            frames.len() <= it.index(),
            complete ==> frames.len() == it.index(),
            forall|i: int|
                #![trigger all[i]]
                0 <= i < frames.len() ==> spec_representable(all[i]@.pts) && frames[i]@
                    == all[i]@.frame(),
            !complete ==> frames.len() < all.len() && !spec_representable(
                all[frames.len() as int]@.pts,
            ),
    {
        if complete {
            match packet.into_frame() {
                Some(frame) => {
                    frames.push(frame);
                },
                None => {
                    complete = false;
                },
            }
        }
    }
    (frames, complete)
}

} // verus!
