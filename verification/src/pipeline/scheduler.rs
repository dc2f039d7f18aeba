//! The recording loop's decisions.
//!
//! A recording runs through `Idle`, `Recording`, `Stopping`, `Finalizing` and
//! `Done`. While it records, it repeats one iteration per frame interval:
//! read the clock and the stop flag, poll the frame source, encode what came,
//! and sleep for what is left of the interval.
//!
//! The scheduler makes every decision of that loop and touches no device.
//! Its owner does the work: it reports to [`PipelineScheduler::step`] what
//! happened, and is told what to do next.

use vstd::prelude::*;

verus! {

/// Nanoseconds in a millisecond.
pub const NANOS_PER_MILLI: u64 = 1_000_000;

/// Nanoseconds in a second.
pub const NANOS_PER_SECOND: u64 = 1_000_000_000;

/// The stage that a recording is in.
#[derive(Clone, Copy, Debug, PartialEq, Eq, Structural)]
pub enum PipelineState {
    /// Nothing has started.
    Idle,
    /// Frames are being captured.
    Recording,
    /// Capture has ended; the encoder gives up what it still holds.
    Stopping,
    /// The multiplexer writes what closes the container.
    Finalizing,
    /// The sink is released. Nothing more happens.
    Done,
}

/// The report that a recording loop waits for within an iteration.
#[derive(Clone, Copy, Debug, PartialEq, Eq, Structural)]
pub enum Awaited {
    /// The clock and the stop flag, read at the top of an iteration.
    Tick,
    /// The outcome of polling the frame source.
    Frame,
    /// The outcome of encoding a frame and handing its packets on.
    Encoder,
}

/// What the owner reports to the scheduler.
#[derive(Clone, Copy, Debug, PartialEq, Eq, Structural)]
pub enum PipelineEvent {
    /// The frame source, the encoder and the multiplexer stand ready.
    Start,
    /// The top of an iteration: the time since the recording began, and
    /// whether a stop has been asked for.
    Tick { elapsed_nanos: u64, stop_requested: bool },
    /// The frame source gave a frame.
    FrameReady,
    /// The frame source has no frame yet. `iteration_nanos` is the time
    /// since this iteration's tick.
    FrameNotReady { iteration_nanos: u64 },
    /// The frame source failed.
    FrameFailed,
    /// The frame was encoded and its packets were handed to the multiplexer
    /// (`ok`), or one of the two failed. `iteration_nanos` is the time since
    /// this iteration's tick.
    Encoded { ok: bool, iteration_nanos: u64 },
    /// The sink or a device failed outside the loop's own work.
    Failure,
    /// The encoder has given up all it held, and the multiplexer has it.
    Flushed,
    /// The multiplexer has closed the container.
    Finalized,
}

/// What the scheduler tells the owner to do.
#[derive(Clone, Copy, Debug, PartialEq, Eq, Structural)]
pub enum PipelineAction {
    /// Sleep for `sleep_nanos` (not at all where it is 0), then read the
    /// clock and the stop flag, and report a `Tick`.
    Observe { sleep_nanos: u64 },
    /// Poll the frame source without waiting, and report what it said.
    Poll,
    /// Convert the frame, give it to the encoder with the presentation
    /// timestamp `timestamp_ms`, hand every packet that comes back to the
    /// multiplexer, and report `Encoded`.
    Encode { timestamp_ms: i64 },
    /// Ask the encoder for all it still holds, hand each packet to the
    /// multiplexer in the order given, and report `Flushed`.
    Flush,
    /// Have the multiplexer close the container, and report `Finalized`.
    Finalize,
    /// Release the sink. The chunk that is open ends where it is; it is not
    /// handed on as complete.
    Release,
    /// The report does not belong to the stage that the recording is in.
    /// There is nothing to do.
    Ignore,
}

/// The scheduler as a mathematical value.
pub struct PipelineView {
    /// The time for one iteration.
    pub frame_interval_nanos: nat,
    /// The longest time that a recording may run, where there is a limit.
    pub max_duration_nanos: Option<nat>,
    pub state: PipelineState,
    /// Meaningful while `state` is `Recording`.
    pub awaited: Awaited,
    /// The clock reading of the last tick.
    pub elapsed_nanos: nat,
}

/// The time for one iteration at `fps` frames a second.
pub open spec fn spec_frame_interval(fps: nat) -> nat
    recommends
        fps > 0,
{
    NANOS_PER_SECOND as nat / fps
}

/// The presentation timestamp of a frame captured `elapsed_nanos` after the
/// recording began: the whole milliseconds that have passed.
pub open spec fn spec_timestamp_ms(elapsed_nanos: nat) -> int {
    (elapsed_nanos / NANOS_PER_MILLI as nat) as int
}

/// What is left of the frame interval after an iteration that took
/// `iteration_nanos`: never less than nothing.
pub open spec fn spec_pacing(frame_interval_nanos: nat, iteration_nanos: nat) -> nat {
    if iteration_nanos < frame_interval_nanos {
        (frame_interval_nanos - iteration_nanos) as nat
    } else {
        0
    }
}

impl PipelineView {
    /// Whether a recording that has run for `elapsed_nanos` is over its limit.
    pub open spec fn over_limit(self, elapsed_nanos: nat) -> bool {
        match self.max_duration_nanos {
            Some(limit) => elapsed_nanos > limit,
            None => false,
        }
    }

    /// The same scheduler in another stage.
    pub open spec fn at(self, state: PipelineState, awaited: Awaited) -> PipelineView {
        PipelineView { state, awaited, ..self }
    }

    /// The scheduler as capture ends.
    pub open spec fn stopping(self) -> PipelineView {
        self.at(PipelineState::Stopping, Awaited::Tick)
    }

    /// Whether the scheduler is recording and waits for `awaited`.
    pub open spec fn records(self, awaited: Awaited) -> bool {
        self.state == PipelineState::Recording && self.awaited == awaited
    }

    /// The scheduler after the report `event`, and what it answers.
    pub open spec fn step(self, event: PipelineEvent) -> (PipelineView, PipelineAction) {
        match event {
            PipelineEvent::Start => if self.state == PipelineState::Idle {
                (
                    self.at(PipelineState::Recording, Awaited::Tick),
                    PipelineAction::Observe { sleep_nanos: 0 },
                )
            } else {
                (self, PipelineAction::Ignore)
            },
            PipelineEvent::Tick { elapsed_nanos, stop_requested } => if self.records(
                Awaited::Tick,
            ) {
                if stop_requested || self.over_limit(elapsed_nanos as nat) {
                    (self.stopping(), PipelineAction::Flush)
                } else {
                    (
                        PipelineView {
                            awaited: Awaited::Frame,
                            elapsed_nanos: elapsed_nanos as nat,
                            ..self
                        },
                        PipelineAction::Poll,
                    )
                }
            } else {
                (self, PipelineAction::Ignore)
            },
            PipelineEvent::FrameReady => if self.records(Awaited::Frame) {
                (
                    self.at(PipelineState::Recording, Awaited::Encoder),
                    PipelineAction::Encode {
                        timestamp_ms: spec_timestamp_ms(self.elapsed_nanos) as i64,
                    },
                )
            } else {
                (self, PipelineAction::Ignore)
            },
            PipelineEvent::FrameNotReady { iteration_nanos } => if self.records(Awaited::Frame) {
                (
                    self.at(PipelineState::Recording, Awaited::Tick),
                    PipelineAction::Observe {
                        sleep_nanos: spec_pacing(
                            self.frame_interval_nanos,
                            iteration_nanos as nat,
                        ) as u64,
                    },
                )
            } else {
                (self, PipelineAction::Ignore)
            },
            PipelineEvent::FrameFailed => if self.records(Awaited::Frame) {
                (self.stopping(), PipelineAction::Flush)
            } else {
                (self, PipelineAction::Ignore)
            },
            PipelineEvent::Encoded { ok, iteration_nanos } => if self.records(Awaited::Encoder) {
                if ok {
                    (
                        self.at(PipelineState::Recording, Awaited::Tick),
                        PipelineAction::Observe {
                            sleep_nanos: spec_pacing(
                                self.frame_interval_nanos,
                                iteration_nanos as nat,
                            ) as u64,
                        },
                    )
                } else {
                    (self.stopping(), PipelineAction::Flush)
                }
            } else {
                (self, PipelineAction::Ignore)
            },
            PipelineEvent::Failure => if self.state == PipelineState::Recording {
                (self.stopping(), PipelineAction::Flush)
            } else {
                (self, PipelineAction::Ignore)
            },
            PipelineEvent::Flushed => if self.state == PipelineState::Stopping {
                (self.at(PipelineState::Finalizing, Awaited::Tick), PipelineAction::Finalize)
            } else {
                (self, PipelineAction::Ignore)
            },
            PipelineEvent::Finalized => if self.state == PipelineState::Finalizing {
                (self.at(PipelineState::Done, Awaited::Tick), PipelineAction::Release)
            } else {
                (self, PipelineAction::Ignore)
            },
        }
    }
}

/// The time for one iteration at `fps` frames a second.
pub fn frame_interval_nanos(fps: u64) -> (interval: u64)
    requires
        fps > 0,
    ensures
        interval == spec_frame_interval(fps as nat),
{
    NANOS_PER_SECOND / fps
}

/// The presentation timestamp, in milliseconds, of a frame captured
/// `elapsed_nanos` after the recording began.
pub fn timestamp_ms(elapsed_nanos: u64) -> (ms: i64)
    ensures
        ms == spec_timestamp_ms(elapsed_nanos as nat),
{
    (elapsed_nanos / NANOS_PER_MILLI) as i64
}

/// How long to sleep after an iteration that took `iteration_nanos`, so that
/// iterations begin a frame interval apart. An iteration that took the whole
/// interval or more is followed by no sleep: lost time is not made up.
pub fn pacing_sleep_nanos(frame_interval_nanos: u64, iteration_nanos: u64) -> (sleep: u64)
    ensures
        sleep == spec_pacing(frame_interval_nanos as nat, iteration_nanos as nat),
{
    if iteration_nanos < frame_interval_nanos {
        frame_interval_nanos - iteration_nanos
    } else {
        0
    }
}

/// The decisions of one recording.
pub struct PipelineScheduler {
    frame_interval_nanos: u64,
    max_duration_nanos: Option<u64>,
    state: PipelineState,
    awaited: Awaited,
    elapsed_nanos: u64,
}

impl View for PipelineScheduler {
    type V = PipelineView;

    closed spec fn view(&self) -> PipelineView {
        PipelineView {
            frame_interval_nanos: self.frame_interval_nanos as nat,
            max_duration_nanos: match self.max_duration_nanos {
                Some(limit) => Some(limit as nat),
                None => None,
            },
            state: self.state,
            awaited: self.awaited,
            elapsed_nanos: self.elapsed_nanos as nat,
        }
    }
}

impl PipelineScheduler {
    /// A scheduler for a recording at `fps` frames a second that ends by
    /// itself once it has run for more than `max_duration_nanos`, where that
    /// is given.
    pub fn new(fps: u64, max_duration_nanos: Option<u64>) -> (scheduler: PipelineScheduler)
        requires
            fps > 0,
        ensures
            scheduler@ == (PipelineView {
                frame_interval_nanos: spec_frame_interval(fps as nat),
                max_duration_nanos: match max_duration_nanos {
                    Some(limit) => Some(limit as nat),
                    None => None,
                },
                state: PipelineState::Idle,
                awaited: Awaited::Tick,
                elapsed_nanos: 0,
            }),
    {
        PipelineScheduler {
            frame_interval_nanos: frame_interval_nanos(fps),
            max_duration_nanos,
            state: PipelineState::Idle,
            awaited: Awaited::Tick,
            elapsed_nanos: 0,
        }
    }

    /// The stage that the recording is in.
    pub fn state(&self) -> (state: PipelineState)
        ensures
            state == self@.state,
    {
        self.state
    }

    /// The time for one iteration.
    pub fn frame_interval(&self) -> (interval: u64)
        ensures
            interval == self@.frame_interval_nanos,
    {
        self.frame_interval_nanos
    }

    /// Whether the recording has come to its end.
    pub fn is_done(&self) -> (done: bool)
        ensures
            done == (self@.state == PipelineState::Done),
    {
        self.state == PipelineState::Done
    }

    fn over_limit(&self, elapsed_nanos: u64) -> (over: bool)
        ensures
            over == self@.over_limit(elapsed_nanos as nat),
    {
        match self.max_duration_nanos {
            Some(limit) => elapsed_nanos > limit,
            None => false,
        }
    }

    fn stop(&mut self) -> (action: PipelineAction)
        ensures
            final(self)@ == old(self)@.stopping(),
            action == PipelineAction::Flush,
    {
        self.state = PipelineState::Stopping;
        self.awaited = Awaited::Tick;
        PipelineAction::Flush
    }

    fn pace(&mut self, iteration_nanos: u64) -> (action: PipelineAction)
        ensures
            final(self)@ == old(self)@.at(PipelineState::Recording, Awaited::Tick),
            action == (PipelineAction::Observe {
                sleep_nanos: spec_pacing(
                    old(self)@.frame_interval_nanos,
                    iteration_nanos as nat,
                ) as u64,
            }),
    {
        self.state = PipelineState::Recording;
        self.awaited = Awaited::Tick;
        PipelineAction::Observe {
            sleep_nanos: pacing_sleep_nanos(self.frame_interval_nanos, iteration_nanos),
        }
    }

    /// Takes the owner's report of what happened and answers with what to do
    /// next. A report that does not belong to the stage that the recording is
    /// in changes nothing and is answered with `Ignore`.
    pub fn step(&mut self, event: PipelineEvent) -> (action: PipelineAction)
        ensures
            (final(self)@, action) == old(self)@.step(event),
    {
        let recording = self.state == PipelineState::Recording;
        match event {
            PipelineEvent::Start => {
                if self.state == PipelineState::Idle {
                    self.state = PipelineState::Recording;
                    self.awaited = Awaited::Tick;
                    PipelineAction::Observe { sleep_nanos: 0 }
                } else {
                    PipelineAction::Ignore
                }
            },
            PipelineEvent::Tick { elapsed_nanos, stop_requested } => {
                if recording && self.awaited == Awaited::Tick {
                    if stop_requested || self.over_limit(elapsed_nanos) {
                        self.stop()
                    } else {
                        self.awaited = Awaited::Frame;
                        self.elapsed_nanos = elapsed_nanos;
                        PipelineAction::Poll
                    }
                } else {
                    PipelineAction::Ignore
                }
            },
            PipelineEvent::FrameReady => {
                if recording && self.awaited == Awaited::Frame {
                    self.awaited = Awaited::Encoder;
                    PipelineAction::Encode { timestamp_ms: timestamp_ms(self.elapsed_nanos) }
                } else {
                    PipelineAction::Ignore
                }
            },
            PipelineEvent::FrameNotReady { iteration_nanos } => {
                if recording && self.awaited == Awaited::Frame {
                    self.pace(iteration_nanos)
                } else {
                    PipelineAction::Ignore
                }
            },
            PipelineEvent::FrameFailed => {
                if recording && self.awaited == Awaited::Frame {
                    self.stop()
                } else {
                    PipelineAction::Ignore
                }
            },
            PipelineEvent::Encoded { ok, iteration_nanos } => {
                if recording && self.awaited == Awaited::Encoder {
                    if ok {
                        self.pace(iteration_nanos)
                    } else {
                        self.stop()
                    }
                } else {
                    PipelineAction::Ignore
                }
            },
            PipelineEvent::Failure => {
                if recording {
                    self.stop()
                } else {
                    PipelineAction::Ignore
                }
            },
            PipelineEvent::Flushed => {
                if self.state == PipelineState::Stopping {
                    self.state = PipelineState::Finalizing;
                    self.awaited = Awaited::Tick;
                    PipelineAction::Finalize
                } else {
                    PipelineAction::Ignore
                }
            },
            PipelineEvent::Finalized => {
                if self.state == PipelineState::Finalizing {
                    self.state = PipelineState::Done;
                    self.awaited = Awaited::Tick;
                    PipelineAction::Release
                } else {
                    PipelineAction::Ignore
                }
            },
        }
    }
}

} // verus!
