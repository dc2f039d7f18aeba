//! What holds of a sink over any run of operations.
//!
//! A run is a sequence of the operations that a sink offers. The functions
//! here say where a run leaves the sink and which chunks it hands on as
//! complete, and the theorems state what every run has in common.

use vstd::prelude::*;
use crate::mux::writer::{spec_chunk, ChunkView, SinkPhase, SinkView, CLUSTER_ELEMENT_ID};
use crate::naming::lemma_chunk_names_distinct;

verus! {

/// One operation on a sink, as the run records it.
pub enum SinkEvent {
    /// The creation of the current chunk's file has ended, well or not.
    Opened(bool),
    /// A write of so many bytes was asked for.
    Write(nat),
    /// The cursor was asked to move to an offset.
    Seek(nat),
    /// The multiplexer announced an element.
    Notify(u64),
    /// A file operation was reported as failed.
    IoFailed,
}

/// The state after one operation.
pub open spec fn step(v: SinkView, e: SinkEvent) -> SinkView {
    match e {
        SinkEvent::Opened(created) => v.opened(created),
        SinkEvent::Write(len) => v.written(len),
        SinkEvent::Seek(offset) => v.sought(offset),
        SinkEvent::Notify(element_id) => v.notified(element_id),
        SinkEvent::IoFailed => v.failed(),
    }
}

/// Whether the operation makes the sink hand on its current chunk.
pub open spec fn completes(v: SinkView, e: SinkEvent) -> bool {
    match e {
        SinkEvent::Notify(element_id) => v.rotates(element_id),
        _ => false,
    }
}

/// The state after a run.
pub open spec fn run(v: SinkView, events: Seq<SinkEvent>) -> SinkView
    decreases events.len(),
{
    if events.len() == 0 {
        v
    } else {
        step(run(v, events.drop_last()), events.last())
    }
}

/// The chunks that a run hands on as complete, in the order in which it does.
pub open spec fn completed(v: SinkView, events: Seq<SinkEvent>) -> Seq<ChunkView>
    decreases events.len(),
{
    if events.len() == 0 {
        Seq::empty()
    } else {
        let before = run(v, events.drop_last());
        let earlier = completed(v, events.drop_last());
        if completes(before, events.last()) {
            earlier.push(spec_chunk(before.base, before.sequence))
        } else {
            earlier
        }
    }
}

/// The chunks whose files exist after a run: the one that the sink was at
/// when the run began, and each one that a rotation went on to.
pub open spec fn created(v: SinkView, events: Seq<SinkEvent>) -> Seq<ChunkView>
    decreases events.len(),
{
    if events.len() == 0 {
        seq![spec_chunk(v.base, v.sequence)]
    } else {
        let before = run(v, events.drop_last());
        let earlier = created(v, events.drop_last());
        if completes(before, events.last()) {
            earlier.push(spec_chunk(before.base, before.sequence + 1))
        } else {
            earlier
        }
    }
}

/// `n` rotations, the file of each next chunk created without fault.
pub open spec fn rotations(n: nat) -> Seq<SinkEvent>
    decreases n,
{
    if n == 0 {
        Seq::empty()
    } else {
        rotations((n - 1) as nat).push(SinkEvent::Notify(CLUSTER_ELEMENT_ID)).push(
            SinkEvent::Opened(true),
        )
    }
}

/// Whatever a run does, the chunks it hands on are the ones that follow the
/// chunk it began at, one after the other and none twice: the `k`-th chunk
/// handed on is chunk `k` counted from there, and the sink ends at the chunk
/// after the last one handed on. The files that exist are those of the
/// chunks handed on and of the chunk that the sink ends at.
pub proof fn lemma_run_hands_on_consecutive_chunks(v: SinkView, events: Seq<SinkEvent>)
    ensures
        run(v, events).base == v.base,
        run(v, events).directory == v.directory,
        run(v, events).sequence == v.sequence + completed(v, events).len(),
        completed(v, events) =~= Seq::new(
            completed(v, events).len(),
            |k: int| spec_chunk(v.base, (v.sequence + k) as nat),
        ),
        created(v, events) =~= Seq::new(
            completed(v, events).len() + 1,
            |k: int| spec_chunk(v.base, (v.sequence + k) as nat),
        ),
    decreases events.len(),
{
    if events.len() > 0 {
        lemma_run_hands_on_consecutive_chunks(v, events.drop_last());
    }
}

/// No two files of a run share a name.
pub proof fn lemma_run_creates_distinct_files(
    v: SinkView,
    events: Seq<SinkEvent>,
    i: int,
    j: int,
)
    requires
        0 <= i < j < created(v, events).len(),
    ensures
        created(v, events)[i].name != created(v, events)[j].name,
{
    lemma_run_hands_on_consecutive_chunks(v, events);
    lemma_chunk_names_distinct(v.base, (v.sequence + i) as nat, (v.sequence + j) as nat);
}

/// `n` cluster announcements to a sink that is ready, each new file created
/// without fault, hand on exactly `n` chunks, leave `n + 1` files, and leave
/// the sink ready at the beginning of the last of them.
pub proof fn lemma_rotations_count(v: SinkView, n: nat)
    requires
        v.phase == SinkPhase::Ready,
    ensures
        completed(v, rotations(n)).len() == n,
        created(v, rotations(n)).len() == n + 1,
        run(v, rotations(n)).phase == SinkPhase::Ready,
        run(v, rotations(n)).sequence == v.sequence + n,
        n > 0 ==> run(v, rotations(n)).position == 0,
    decreases n,
{
    if n > 0 {
        let shorter = rotations((n - 1) as nat);
        let announced = shorter.push(SinkEvent::Notify(CLUSTER_ELEMENT_ID));
        lemma_rotations_count(v, (n - 1) as nat);
        assert(announced.drop_last() =~= shorter);
        assert(rotations(n).drop_last() =~= announced);
        assert(run(v, announced) == run(v, shorter).notified(CLUSTER_ELEMENT_ID));
        assert(completes(run(v, shorter), announced.last()));
        assert(!completes(run(v, announced), rotations(n).last()));
        assert(completed(v, announced).len() == completed(v, shorter).len() + 1);
        assert(completed(v, rotations(n)) == completed(v, announced));
        assert(created(v, announced).len() == created(v, shorter).len() + 1);
        assert(created(v, rotations(n)) == created(v, announced));
    }
}

/// A run in two parts: the second part goes on where the first ended, and
/// what the run hands on and creates is what its parts do, in order.
pub proof fn lemma_run_in_two_parts(v: SinkView, first: Seq<SinkEvent>, rest: Seq<SinkEvent>)
    ensures
        run(v, first + rest) == run(run(v, first), rest),
        completed(v, first + rest) == completed(v, first) + completed(run(v, first), rest),
        created(v, first + rest).len() == created(v, first).len() + completed(
            run(v, first),
            rest,
        ).len(),
    decreases rest.len(),
{
    if rest.len() == 0 {
        assert(first + rest =~= first);
        assert(completed(v, first) + completed(run(v, first), rest) =~= completed(v, first));
    } else {
        lemma_run_in_two_parts(v, first, rest.drop_last());
        assert((first + rest).drop_last() =~= first + rest.drop_last());
        assert((first + rest).last() == rest.last());
        let before = run(v, first + rest.drop_last());
        let earlier = completed(v, first) + completed(run(v, first), rest.drop_last());
        if completes(before, rest.last()) {
            assert(earlier.push(spec_chunk(before.base, before.sequence)) =~= completed(v, first)
                + completed(run(v, first), rest.drop_last()).push(
                spec_chunk(before.base, before.sequence),
            ));
        }
    }
}

/// A new sink whose first file is created, and which is then told of `n`
/// clusters, each new file created without fault, leaves exactly the `n + 1`
/// files of the chunks `0` to `n`, and hands on exactly the chunks `0` to
/// `n - 1`, in that order: each time the one that was open until then.
pub proof fn lemma_new_sink_numbers_chunks_from_zero(
    directory: Seq<char>,
    base: Seq<char>,
    n: nat,
)
    ensures
        ({
            let events = seq![SinkEvent::Opened(true)] + rotations(n);
            let sink = SinkView::fresh(directory, base);
            &&& completed(sink, events) =~= Seq::new(n, |k: int| spec_chunk(base, k as nat))
            &&& created(sink, events) =~= Seq::new(n + 1, |k: int| spec_chunk(base, k as nat))
            &&& run(sink, events).sequence == n
            &&& run(sink, events).phase == SinkPhase::Ready
        }),
{
    let first = seq![SinkEvent::Opened(true)];
    let events = first + rotations(n);
    let sink = SinkView::fresh(directory, base);
    assert(first.drop_last() =~= Seq::<SinkEvent>::empty());
    assert(run(sink, first.drop_last()) == sink);
    assert(run(sink, first) == sink.opened(true));
    assert(completed(sink, first.drop_last()).len() == 0);
    assert(completed(sink, first).len() == 0);
    lemma_run_in_two_parts(sink, first, rotations(n));
    lemma_rotations_count(sink.opened(true), n);
    lemma_run_hands_on_consecutive_chunks(sink, events);
}

/// Between the announcement of a cluster and the report that the next file
/// exists, the sink accepts no write. Once the file exists, a write goes to
/// the new chunk, and the cursor counts from that chunk's beginning.
pub proof fn lemma_write_waits_for_the_new_chunk(v: SinkView, element_id: u64, len: nat)
    requires
        v.rotates(element_id),
    ensures
        !v.notified(element_id).accepts(len),
        v.notified(element_id).position == 0,
        v.notified(element_id).opened(true).accepts(len) == (len <= u64::MAX),
        v.notified(element_id).opened(true).sequence == v.sequence + 1,
        v.notified(element_id).opened(true).position == 0,
        v.notified(element_id).opened(true).written(len).sequence == v.sequence + 1,
{
}

/// A sink that has failed stays so, whatever is asked of it afterwards: it
/// accepts no write, hands on no chunk and names no new one.
pub proof fn lemma_failed_sink_stays_failed(v: SinkView, events: Seq<SinkEvent>)
    requires
        v.phase == SinkPhase::Failed,
    ensures
        run(v, events) == v,
        completed(v, events).len() == 0,
        forall|len: nat| !run(v, events).accepts(len),
    decreases events.len(),
{
    if events.len() > 0 {
        lemma_failed_sink_stays_failed(v, events.drop_last());
    }
}

/// Where the file of the next chunk cannot be created, the rotation leaves
/// the sink failed: no later write is accepted, into the old chunk or any
/// other.
pub proof fn lemma_failed_creation_stops_the_sink(
    v: SinkView,
    element_id: u64,
    events: Seq<SinkEvent>,
)
    requires
        v.rotates(element_id),
    ensures
        v.notified(element_id).opened(false).phase == SinkPhase::Failed,
        forall|len: nat| !run(v.notified(element_id).opened(false), events).accepts(len),
        completed(v.notified(element_id).opened(false), events).len() == 0,
{
    lemma_failed_sink_stays_failed(v.notified(element_id).opened(false), events);
}

} // verus!
