//! What holds of a recording over any run of reports.
//!
//! A run is the sequence of reports that a scheduler is given. The functions
//! here say where a run leaves the scheduler and what it answers, and the
//! theorems state what every run has in common.

use vstd::prelude::*;
use crate::pipeline::packet::{spec_representable, spec_timestamp_ns};
use crate::pipeline::scheduler::{
    spec_pacing, spec_timestamp_ms, Awaited, PipelineAction, PipelineEvent, PipelineState,
    PipelineView,
};

verus! {

/// The scheduler after a run.
pub open spec fn run(v: PipelineView, events: Seq<PipelineEvent>) -> PipelineView
    decreases events.len(),
{
    if events.len() == 0 {
        v
    } else {
        run(v, events.drop_last()).step(events.last()).0
    }
}

/// The answers that a run is given, one for each report.
pub open spec fn actions(v: PipelineView, events: Seq<PipelineEvent>) -> Seq<PipelineAction>
    decreases events.len(),
{
    if events.len() == 0 {
        Seq::empty()
    } else {
        actions(v, events.drop_last()).push(run(v, events.drop_last()).step(events.last()).1)
    }
}

/// The presentation timestamps that a run hands to the encoder, in order.
pub open spec fn timestamps(v: PipelineView, events: Seq<PipelineEvent>) -> Seq<int>
    decreases events.len(),
{
    if events.len() == 0 {
        Seq::empty()
    } else {
        let earlier = timestamps(v, events.drop_last());
        match run(v, events.drop_last()).step(events.last()).1 {
            PipelineAction::Encode { timestamp_ms } => earlier.push(timestamp_ms as int),
            _ => earlier,
        }
    }
}

/// How often a run is given the answer `action`.
pub open spec fn count(
    v: PipelineView,
    events: Seq<PipelineEvent>,
    action: PipelineAction,
) -> nat
    decreases events.len(),
{
    if events.len() == 0 {
        0
    } else {
        let earlier = count(v, events.drop_last(), action);
        if run(v, events.drop_last()).step(events.last()).1 == action {
            earlier + 1
        } else {
            earlier
        }
    }
}

/// The place of a stage in the order in which a recording passes them.
pub open spec fn stage_rank(state: PipelineState) -> nat {
    match state {
        PipelineState::Idle => 0,
        PipelineState::Recording => 1,
        PipelineState::Stopping => 2,
        PipelineState::Finalizing => 3,
        PipelineState::Done => 4,
    }
}

/// The clock reading of the last tick in `events`, or `start` if there is
/// none.
pub open spec fn last_reading(start: nat, events: Seq<PipelineEvent>) -> nat
    decreases events.len(),
{
    if events.len() == 0 {
        start
    } else {
        match events.last() {
            PipelineEvent::Tick { elapsed_nanos, stop_requested } => elapsed_nanos as nat,
            _ => last_reading(start, events.drop_last()),
        }
    }
}

/// Whether no tick in `events` reads less than the tick before it, nor the
/// first less than `start`: the readings are taken from one clock that does
/// not run backwards.
pub open spec fn clock_runs_forward(start: nat, events: Seq<PipelineEvent>) -> bool
    decreases events.len(),
{
    if events.len() == 0 {
        true
    } else {
        &&& clock_runs_forward(start, events.drop_last())
        &&& match events.last() {
            PipelineEvent::Tick { elapsed_nanos, stop_requested } => last_reading(
                start,
                events.drop_last(),
            ) <= elapsed_nanos,
            _ => true,
        }
    }
}

/// Whether an answer asks for work on the frame source or the encoder.
pub open spec fn captures(action: PipelineAction) -> bool {
    action is Observe || action is Poll || action is Encode
}

/// Whether the report `event` belongs to the stage that the scheduler is in:
/// the start while it is idle; while it records, the report that it waits
/// for, or a failure; the end of the flush while it stops; the end of the
/// closing while it finalizes.
pub open spec fn expects(v: PipelineView, event: PipelineEvent) -> bool {
    match event {
        PipelineEvent::Start => v.state == PipelineState::Idle,
        PipelineEvent::Tick { elapsed_nanos, stop_requested } => v.records(Awaited::Tick),
        PipelineEvent::FrameReady => v.records(Awaited::Frame),
        PipelineEvent::FrameNotReady { iteration_nanos } => v.records(Awaited::Frame),
        PipelineEvent::FrameFailed => v.records(Awaited::Frame),
        PipelineEvent::Encoded { ok, iteration_nanos } => v.records(Awaited::Encoder),
        PipelineEvent::Failure => v.state == PipelineState::Recording,
        PipelineEvent::Flushed => v.state == PipelineState::Stopping,
        PipelineEvent::Finalized => v.state == PipelineState::Finalizing,
    }
}

/// A report is answered with `Ignore` exactly when it does not belong to the
/// stage that the scheduler is in, and then it changes nothing.
pub proof fn lemma_only_reports_out_of_turn_are_ignored(v: PipelineView, event: PipelineEvent)
    ensures
        (v.step(event).1 == PipelineAction::Ignore) == !expects(v, event),
        !expects(v, event) ==> v.step(event).0 == v,
{
}

/// A recording never returns to a stage that it has left.
pub proof fn lemma_stage_never_goes_back(v: PipelineView, events: Seq<PipelineEvent>)
    ensures
        stage_rank(v.state) <= stage_rank(run(v, events).state),
        run(v, events).frame_interval_nanos == v.frame_interval_nanos,
        run(v, events).max_duration_nanos == v.max_duration_nanos,
    decreases events.len(),
{
    if events.len() > 0 {
        lemma_stage_never_goes_back(v, events.drop_last());
    }
}

/// Once capture has ended, no report makes the scheduler ask for a frame, a
/// sleep or a reading of the clock again, and nothing is handed to the
/// encoder.
pub proof fn lemma_no_capture_after_stop(v: PipelineView, events: Seq<PipelineEvent>)
    requires
        stage_rank(v.state) >= 2,
    ensures
        forall|i: int| 0 <= i < actions(v, events).len() ==> !captures(#[trigger] actions(v, events)[i]),
        timestamps(v, events).len() == 0,
    decreases events.len(),
{
    if events.len() > 0 {
        let before = events.drop_last();
        lemma_no_capture_after_stop(v, before);
        lemma_stage_never_goes_back(v, before);
        let answer = run(v, before).step(events.last()).1;
        assert(!captures(answer));
        assert(actions(v, events) =~= actions(v, before).push(answer));
        assert forall|i: int| 0 <= i < actions(v, events).len() implies !captures(
            #[trigger] actions(v, events)[i],
        ) by {
            if i < actions(v, before).len() {
                assert(actions(v, events)[i] == actions(v, before)[i]);
            }
        }
    }
}

/// A recording that is done stays as it is, and every further report is
/// answered with `Ignore`.
pub proof fn lemma_done_is_final(v: PipelineView, events: Seq<PipelineEvent>)
    requires
        v.state == PipelineState::Done,
    ensures
        run(v, events) == v,
        actions(v, events).len() == events.len(),
        forall|i: int| 0 <= i < events.len() ==> #[trigger] actions(v, events)[i]
            == PipelineAction::Ignore,
    decreases events.len(),
{
    if events.len() > 0 {
        lemma_done_is_final(v, events.drop_last());
    }
}

/// From its beginning a recording is told to flush the encoder exactly once,
/// as it leaves `Recording`; to close the container exactly once, as it
/// leaves `Stopping`; and to release the sink exactly once, as it becomes
/// `Done`. Before that, it is told none of them. As this holds of every run,
/// it holds at every moment of one: the container is never closed before the
/// encoder was flushed, nor the sink released before the container was
/// closed.
pub proof fn lemma_shutdown_steps_happen_once_in_order(
    v: PipelineView,
    events: Seq<PipelineEvent>,
)
    requires
        stage_rank(v.state) <= 1,
    ensures
        count(v, events, PipelineAction::Flush) == (if stage_rank(run(v, events).state) >= 2 {
            1nat
        } else {
            0nat
        }),
        count(v, events, PipelineAction::Finalize) == (if stage_rank(run(v, events).state)
            >= 3 {
            1nat
        } else {
            0nat
        }),
        count(v, events, PipelineAction::Release) == (if stage_rank(run(v, events).state) >= 4 {
            1nat
        } else {
            0nat
        }),
    decreases events.len(),
{
    if events.len() > 0 {
        lemma_shutdown_steps_happen_once_in_order(v, events.drop_last());
    }
}

/// The timestamp of every frame is the whole milliseconds of a clock
/// reading, and the scheduler's own reading is never ahead of the clock.
proof fn lemma_timestamps_bounded(v: PipelineView, events: Seq<PipelineEvent>)
    requires
        clock_runs_forward(v.elapsed_nanos, events),
        v.elapsed_nanos <= u64::MAX,
    ensures
        v.elapsed_nanos <= run(v, events).elapsed_nanos <= last_reading(v.elapsed_nanos, events),
        run(v, events).elapsed_nanos <= u64::MAX,
        forall|i: int| 0 <= i < timestamps(v, events).len() ==> #[trigger] timestamps(v, events)[i]
            <= spec_timestamp_ms(run(v, events).elapsed_nanos),
        forall|i: int, j: int| 0 <= i <= j < timestamps(v, events).len() ==> timestamps(
            v,
            events,
        )[i] <= timestamps(v, events)[j],
    decreases events.len(),
{
    if events.len() > 0 {
        let before = events.drop_last();
        lemma_timestamps_bounded(v, before);
        let s = run(v, before);
        let t = run(v, events);
        let earlier = timestamps(v, before);
        let now = spec_timestamp_ms(s.elapsed_nanos);
        assert(s.elapsed_nanos <= t.elapsed_nanos);
        assert(now <= spec_timestamp_ms(t.elapsed_nanos));
        assert(0 <= now <= s.elapsed_nanos);
        assert((now as i64) as int == now);
        match s.step(events.last()).1 {
            PipelineAction::Encode { timestamp_ms } => {
                assert(timestamp_ms as int == now);
                assert(t.elapsed_nanos == s.elapsed_nanos);
                assert(timestamps(v, events) =~= earlier.push(now));
            },
            _ => {
                assert(timestamps(v, events) =~= earlier);
            },
        }
    }
}

/// While the clock does not run backwards, the presentation timestamps
/// handed to the encoder never decrease over a recording.
pub proof fn lemma_timestamps_never_decrease(
    v: PipelineView,
    events: Seq<PipelineEvent>,
    i: int,
    j: int,
)
    requires
        clock_runs_forward(v.elapsed_nanos, events),
        v.elapsed_nanos <= u64::MAX,
        0 <= i <= j < timestamps(v, events).len(),
    ensures
        timestamps(v, events)[i] <= timestamps(v, events)[j],
{
    lemma_timestamps_bounded(v, events);
}

/// A timestamp that the scheduler hands to the encoder can always be told to
/// the multiplexer: its nanoseconds are no more than the clock reading that
/// it was taken from.
pub proof fn lemma_frame_timestamps_are_representable(elapsed_nanos: u64)
    ensures
        spec_representable(spec_timestamp_ms(elapsed_nanos as nat)),
        spec_timestamp_ns(spec_timestamp_ms(elapsed_nanos as nat)) <= elapsed_nanos,
{
}

/// Turning milliseconds into nanoseconds keeps the order of timestamps.
pub proof fn lemma_nanoseconds_keep_the_order(earlier_ms: int, later_ms: int)
    requires
        earlier_ms <= later_ms,
    ensures
        spec_timestamp_ns(earlier_ms) <= spec_timestamp_ns(later_ms),
{
}

/// A stop that is asked for ends capture at the next tick, whatever the
/// clock says and whether or not a limit is set.
pub proof fn lemma_stop_request_ends_capture(v: PipelineView, elapsed_nanos: u64)
    requires
        v.records(Awaited::Tick),
    ensures
        v.step(PipelineEvent::Tick { elapsed_nanos, stop_requested: true }) == (
            v.stopping(),
            PipelineAction::Flush,
        ),
        v.stopping().state == PipelineState::Stopping,
{
}

/// An iteration in which the frame source has nothing is no fault: nothing
/// goes to the encoder, the recording goes on, and the sleep that follows
/// fills up the frame interval.
pub proof fn lemma_idle_iteration_is_paced(
    v: PipelineView,
    elapsed_nanos: u64,
    iteration_nanos: u64,
)
    requires
        v.records(Awaited::Tick),
        !v.over_limit(elapsed_nanos as nat),
        v.frame_interval_nanos <= u64::MAX,
    ensures
        ({
            let events = seq![
                PipelineEvent::Tick { elapsed_nanos, stop_requested: false },
                PipelineEvent::FrameNotReady { iteration_nanos },
            ];
            &&& run(v, events).records(Awaited::Tick)
            &&& timestamps(v, events).len() == 0
            &&& actions(v, events) == seq![
                PipelineAction::Poll,
                PipelineAction::Observe {
                    sleep_nanos: spec_pacing(v.frame_interval_nanos, iteration_nanos as nat) as u64,
                },
            ]
            &&& iteration_nanos + spec_pacing(v.frame_interval_nanos, iteration_nanos as nat)
                >= v.frame_interval_nanos
        }),
{
    let first = PipelineEvent::Tick { elapsed_nanos, stop_requested: false };
    let second = PipelineEvent::FrameNotReady { iteration_nanos };
    let events = seq![first, second];
    let head = seq![first];
    assert(events.drop_last() =~= head);
    assert(head.drop_last() =~= Seq::<PipelineEvent>::empty());
    assert(run(v, head.drop_last()) == v);
    assert(actions(v, head.drop_last()) =~= Seq::<PipelineAction>::empty());
    assert(timestamps(v, head.drop_last()) =~= Seq::<int>::empty());
    assert(run(v, head) == v.step(first).0);
    assert(actions(v, head) =~= seq![PipelineAction::Poll]);
    assert(timestamps(v, head).len() == 0);
    assert(actions(v, events) =~= seq![
        PipelineAction::Poll,
        PipelineAction::Observe {
            sleep_nanos: spec_pacing(v.frame_interval_nanos, iteration_nanos as nat) as u64,
        },
    ]);
}

} // verus!
