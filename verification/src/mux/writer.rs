//! The chunked sink.
//!
//! To the multiplexer the sink is one seekable stream. Behind it stands a run
//! of files, one per chunk: whenever the multiplexer announces a new cluster,
//! the sink closes the chunk it was writing and goes on in the next one.
//!
//! The sink decides and keeps the books; the files themselves are handled by
//! its owner. Each operation says what the owner has to do on disk, and the
//! owner reports back what became of it through [`WebmWriter::chunk_opened`]
//! and [`WebmWriter::io_failed`].

use vstd::prelude::*;
use crate::naming::{chunk_file_name, spec_chunk_name};

verus! {

/// The element identifier with which the multiplexer announces a cluster.
pub const CLUSTER_ELEMENT_ID: u64 = 0x1F43_B675;

/// What the sink can do at the moment.
#[derive(Clone, Copy, Debug, PartialEq, Eq, Structural)]
pub enum SinkPhase {
    /// A chunk has been named and its file is being created. Nothing can be
    /// written until the outcome is known.
    Opening,
    /// The current chunk's file is open and takes writes.
    Ready,
    /// An operation on a file failed. The sink takes no more writes.
    Failed,
}

/// One chunk of a recording: its place in the run and its file's name.
pub struct ChunkDescriptor {
    pub sequence: u32,
    pub name: String,
}

/// What the owner has to do when the sink moves on to the next chunk: hand
/// `completed` to whoever consumes finished chunks, then create the file of
/// `next`, and tell the sink whether that worked.
pub struct Rotation {
    pub completed: ChunkDescriptor,
    pub next: ChunkDescriptor,
}

/// Where the bytes of an accepted write go: into the file of chunk
/// `sequence`, starting `offset` bytes from its beginning.
#[derive(Clone, Copy, Debug, PartialEq, Eq, Structural)]
pub struct WriteSlot {
    pub sequence: u32,
    pub offset: u64,
}

/// The sink as a mathematical value.
pub struct SinkView {
    /// The directory that the chunk files are created in.
    pub directory: Seq<char>,
    /// The recording's base name.
    pub base: Seq<char>,
    /// The number of the current chunk.
    pub sequence: nat,
    /// The cursor, counted from the beginning of the current chunk.
    pub position: nat,
    pub phase: SinkPhase,
}

impl SinkView {
    /// A sink as it is made: at chunk 0, whose file is yet to be created.
    pub open spec fn fresh(directory: Seq<char>, base: Seq<char>) -> SinkView {
        SinkView { directory, base, sequence: 0, position: 0, phase: SinkPhase::Opening }
    }

    /// The file name of the current chunk.
    pub open spec fn name(self) -> Seq<char> {
        spec_chunk_name(self.base, self.sequence)
    }

    /// The state after the creation of the current chunk's file has ended,
    /// well (`created`) or not.
    pub open spec fn opened(self, created: bool) -> SinkView {
        if self.phase == SinkPhase::Opening {
            SinkView { phase: if created { SinkPhase::Ready } else { SinkPhase::Failed }, ..self }
        } else {
            self
        }
    }

    /// Whether a write of `len` bytes is accepted.
    pub open spec fn accepts(self, len: nat) -> bool {
        self.phase == SinkPhase::Ready && self.position + len <= u64::MAX
    }

    /// The state after a write of `len` bytes was asked for. A write that
    /// would move the cursor beyond what a file offset can hold is a failed
    /// write.
    pub open spec fn written(self, len: nat) -> SinkView {
        if self.phase != SinkPhase::Ready {
            self
        } else if self.position + len <= u64::MAX {
            SinkView { position: self.position + len, ..self }
        } else {
            SinkView { phase: SinkPhase::Failed, ..self }
        }
    }

    /// The state after the cursor was asked to move to `offset`.
    pub open spec fn sought(self, offset: nat) -> SinkView {
        if self.phase == SinkPhase::Ready {
            SinkView { position: offset, ..self }
        } else {
            self
        }
    }

    /// Whether the announcement of the element `element_id` makes the sink
    /// move on to the next chunk.
    pub open spec fn rotates(self, element_id: u64) -> bool {
        element_id == CLUSTER_ELEMENT_ID && self.phase == SinkPhase::Ready
    }

    /// The state right after the sink has moved on: the next chunk is named,
    /// the cursor is at its beginning, and its file is yet to be created.
    pub open spec fn rotated(self) -> SinkView {
        SinkView { sequence: self.sequence + 1, position: 0, phase: SinkPhase::Opening, ..self }
    }

    /// The state after the announcement of the element `element_id`.
    pub open spec fn notified(self, element_id: u64) -> SinkView {
        if self.rotates(element_id) {
            self.rotated()
        } else {
            self
        }
    }

    /// The state after a file operation was reported as failed.
    pub open spec fn failed(self) -> SinkView {
        SinkView { phase: SinkPhase::Failed, ..self }
    }
}

/// A chunk as a mathematical value.
pub struct ChunkView {
    pub sequence: nat,
    pub name: Seq<char>,
}

impl View for ChunkDescriptor {
    type V = ChunkView;

    open spec fn view(&self) -> ChunkView {
        ChunkView { sequence: self.sequence as nat, name: self.name@ }
    }
}

/// Chunk `sequence` of the recording called `base`.
pub open spec fn spec_chunk(base: Seq<char>, sequence: nat) -> ChunkView {
    ChunkView { sequence, name: spec_chunk_name(base, sequence) }
}

/// The chunked sink.
pub struct WebmWriter {
    file_path: String,
    base_name: String,
    chunk_count: u32,
    position: u64,
    phase: SinkPhase,
}

impl View for WebmWriter {
    type V = SinkView;

    closed spec fn view(&self) -> SinkView {
        SinkView {
            directory: self.file_path@,
            base: self.base_name@,
            sequence: self.chunk_count as nat,
            position: self.position as nat,
            phase: self.phase,
        }
    }
}

impl WebmWriter {
    /// A sink for the recording `base_name` under the directory `file_path`.
    /// Its first chunk, number 0, is named at once, and the owner creates
    /// that chunk's file before anything else: the sink waits for
    /// [`WebmWriter::chunk_opened`].
    pub fn new(file_path: &str, base_name: &str) -> (w: WebmWriter)
        ensures
            w@ == SinkView::fresh(file_path@, base_name@),
    {
        WebmWriter {
            file_path: file_path.to_owned(),
            base_name: base_name.to_owned(),
            chunk_count: 0,
            position: 0,
            phase: SinkPhase::Opening,
        }
    }

    /// The owner reports how the creation of the current chunk's file ended.
    /// After a success the sink takes writes; after a failure it never does
    /// again. A report that the sink is not waiting for changes nothing.
    pub fn chunk_opened(&mut self, created: bool)
        ensures
            final(self)@ == old(self)@.opened(created),
    {
        if self.phase == SinkPhase::Opening {
            self.phase = if created { SinkPhase::Ready } else { SinkPhase::Failed };
        }
    }

    /// The owner reports that writing to the current chunk's file, or moving
    /// in it, has failed. The sink takes no more writes.
    pub fn io_failed(&mut self)
        ensures
            final(self)@ == old(self)@.failed(),
    {
        self.phase = SinkPhase::Failed;
    }

    /// A write of `len` bytes at the cursor. Where the sink accepts it, the
    /// result says into which chunk the bytes go and at which offset, and the
    /// cursor moves on by `len`. Where it does not, nothing may be written.
    pub fn write(&mut self, len: usize) -> (slot: Option<WriteSlot>)
        ensures
            final(self)@ == old(self)@.written(len as nat),
            slot.is_some() == old(self)@.accepts(len as nat),
            slot.is_some() ==> slot.unwrap().sequence == old(self)@.sequence
                && slot.unwrap().offset == old(self)@.position,
    {
        if self.phase != SinkPhase::Ready {
            return None;
        }
        let len64: u64 = len as u64;
        if len64 <= u64::MAX - self.position {
            let slot = WriteSlot { sequence: self.chunk_count, offset: self.position };
            self.position = self.position + len64;
            Some(slot)
        } else {
            self.phase = SinkPhase::Failed;
            None
        }
    }

    /// The cursor, counted from the beginning of the current chunk.
    pub fn get_position(&self) -> (offset: u64)
        ensures
            offset == self@.position,
    {
        self.position
    }

    /// Moves the cursor to `offset` within the current chunk. The result says
    /// whether the sink was ready to do so.
    pub fn set_position(&mut self, offset: u64) -> (moved: bool)
        ensures
            final(self)@ == old(self)@.sought(offset as nat),
            moved == (old(self)@.phase == SinkPhase::Ready),
    {
        if self.phase == SinkPhase::Ready {
            self.position = offset;
            true
        } else {
            false
        }
    }

    /// The multiplexer announces that the element `element_id` is about to
    /// be written at `position`. A cluster, announced to a sink that is
    /// ready, ends the current chunk: the result names the chunk that is
    /// complete and the one that follows, whose file the owner now creates.
    /// Any other announcement changes nothing.
    pub fn notify_boundary(&mut self, element_id: u64, position: i64) -> (rotation: Option<Rotation>)
        requires
            old(self)@.rotates(element_id) ==> old(self)@.sequence < u32::MAX,
        ensures
            final(self)@ == old(self)@.notified(element_id),
            rotation.is_some() == old(self)@.rotates(element_id),
            rotation.is_some() ==> {
                &&& rotation.unwrap().completed@ == spec_chunk(old(self)@.base, old(self)@.sequence)
                &&& rotation.unwrap().next@ == spec_chunk(old(self)@.base, old(self)@.sequence + 1)
            },
    {
        if element_id == CLUSTER_ELEMENT_ID && self.phase == SinkPhase::Ready {
            let completed = self.current_chunk();
            self.chunk_count = self.chunk_count + 1;
            self.position = 0;
            self.phase = SinkPhase::Opening;
            let next = self.current_chunk();
            Some(Rotation { completed, next })
        } else {
            None
        }
    }

    /// The chunk that the sink is at.
    pub fn current_chunk(&self) -> (chunk: ChunkDescriptor)
        ensures
            chunk@ == spec_chunk(self@.base, self@.sequence),
    {
        ChunkDescriptor {
            sequence: self.chunk_count,
            name: chunk_file_name(self.base_name.as_str(), self.chunk_count),
        }
    }

    /// The number of the current chunk.
    pub fn chunk_count(&self) -> (n: u32)
        ensures
            n == self@.sequence,
    {
        self.chunk_count
    }

    /// The file name of the current chunk.
    pub fn chunk_name(&self) -> (name: String)
        ensures
            name@ == self@.name(),
    {
        chunk_file_name(self.base_name.as_str(), self.chunk_count)
    }

    /// The recording's base name.
    pub fn base_name(&self) -> (base: &str)
        ensures
            base@ == self@.base,
    {
        self.base_name.as_str()
    }

    /// The directory that the chunk files are created in.
    pub fn file_path(&self) -> (directory: &str)
        ensures
            directory@ == self@.directory,
    {
        self.file_path.as_str()
    }

    /// What the sink can do at the moment.
    pub fn phase(&self) -> (phase: SinkPhase)
        ensures
            phase == self@.phase,
    {
        self.phase
    }
}

} // verus!
