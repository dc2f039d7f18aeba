use record_screen::pipeline::{
    frame_interval_nanos, pacing_sleep_nanos, timestamp_ms, PipelineAction, PipelineEvent,
    PipelineScheduler, PipelineState,
};

const UNIT: u64 = 1_000_000_000;

/// A recording driven by a clock that the test moves.
struct Simulation {
    scheduler: PipelineScheduler,
    clock: u64,
    actions: Vec<PipelineAction>,
    slept: Vec<u64>,
    submitted: Vec<i64>,
}

impl Simulation {
    fn new(fps: u64, max_duration_nanos: Option<u64>, clock: u64) -> Simulation {
        Simulation {
            scheduler: PipelineScheduler::new(fps, max_duration_nanos),
            clock,
            actions: Vec::new(),
            slept: Vec::new(),
            submitted: Vec::new(),
        }
    }

    fn report(&mut self, event: PipelineEvent) -> PipelineAction {
        let action = self.scheduler.step(event);
        self.actions.push(action);
        if let PipelineAction::Encode { timestamp_ms } = action {
            self.submitted.push(timestamp_ms);
        }
        action
    }

    /// Sleeps as told and reports the tick. `stop` is the flag's value.
    fn observe(&mut self, sleep_nanos: u64, stop: bool) -> PipelineAction {
        self.clock += sleep_nanos;
        self.slept.push(sleep_nanos);
        self.report(PipelineEvent::Tick { elapsed_nanos: self.clock, stop_requested: stop })
    }

    /// Runs iterations until capture ends. `frame_ready` says what the frame
    /// source gives on each poll, `stop_at` on which iteration the stop flag
    /// is found set.
    fn record(&mut self, frame_ready: &dyn Fn(usize) -> bool, stop_at: Option<usize>) -> usize {
        let mut action = self.report(PipelineEvent::Start);
        let mut iterations = 0;
        loop {
            let sleep_nanos = match action {
                PipelineAction::Observe { sleep_nanos } => sleep_nanos,
                other => panic!("expected Observe, got {:?}", other),
            };
            let stop = stop_at == Some(iterations);
            match self.observe(sleep_nanos, stop) {
                PipelineAction::Flush => return iterations,
                PipelineAction::Poll => {}
                other => panic!("expected Poll or Flush, got {:?}", other),
            }
            action = if frame_ready(iterations) {
                match self.report(PipelineEvent::FrameReady) {
                    PipelineAction::Encode { .. } => {}
                    other => panic!("expected Encode, got {:?}", other),
                }
                self.report(PipelineEvent::Encoded { ok: true, iteration_nanos: 0 })
            } else {
                self.report(PipelineEvent::FrameNotReady { iteration_nanos: 0 })
            };
            iterations += 1;
            assert!(iterations < 1000, "the recording does not end");
        }
    }

    fn finish(&mut self) {
        assert_eq!(self.scheduler.state(), PipelineState::Stopping);
        assert_eq!(self.report(PipelineEvent::Flushed), PipelineAction::Finalize);
        assert_eq!(self.scheduler.state(), PipelineState::Finalizing);
        assert_eq!(self.report(PipelineEvent::Finalized), PipelineAction::Release);
        assert_eq!(self.scheduler.state(), PipelineState::Done);
        assert!(self.scheduler.is_done());
    }
}

#[test]
fn frame_interval_is_a_second_divided_by_the_rate() {
    assert_eq!(frame_interval_nanos(30), 33_333_333);
    assert_eq!(frame_interval_nanos(1), 1_000_000_000);
    assert_eq!(frame_interval_nanos(60), 16_666_666);
    assert_eq!(frame_interval_nanos(1_000_000_000), 1);
    assert_eq!(frame_interval_nanos(2_000_000_000), 0);
}

#[test]
fn timestamp_is_whole_milliseconds_elapsed() {
    assert_eq!(timestamp_ms(0), 0);
    assert_eq!(timestamp_ms(999_999), 0);
    assert_eq!(timestamp_ms(1_000_000), 1);
    assert_eq!(timestamp_ms(2_345_678_901), 2345);
    assert_eq!(timestamp_ms(u64::MAX), 18_446_744_073_709);
}

#[test]
fn pacing_sleeps_the_rest_of_the_interval_and_never_less_than_nothing() {
    assert_eq!(pacing_sleep_nanos(33_333_333, 0), 33_333_333);
    assert_eq!(pacing_sleep_nanos(33_333_333, 10_000_000), 23_333_333);
    assert_eq!(pacing_sleep_nanos(33_333_333, 33_333_332), 1);
    assert_eq!(pacing_sleep_nanos(33_333_333, 33_333_333), 0);
    assert_eq!(pacing_sleep_nanos(33_333_333, 50_000_000), 0);
    assert_eq!(pacing_sleep_nanos(0, 0), 0);
    assert_eq!(pacing_sleep_nanos(u64::MAX, 1), u64::MAX - 1);
}

#[test]
fn new_scheduler_is_idle() {
    let scheduler = PipelineScheduler::new(30, Some(180 * UNIT));
    assert_eq!(scheduler.state(), PipelineState::Idle);
    assert_eq!(scheduler.frame_interval(), 33_333_333);
    assert!(!scheduler.is_done());
}

#[test]
fn start_begins_recording_without_a_sleep() {
    let mut scheduler = PipelineScheduler::new(30, None);
    assert_eq!(scheduler.step(PipelineEvent::Start), PipelineAction::Observe { sleep_nanos: 0 });
    assert_eq!(scheduler.state(), PipelineState::Recording);
    assert_eq!(scheduler.step(PipelineEvent::Start), PipelineAction::Ignore);
    assert_eq!(scheduler.state(), PipelineState::Recording);
}

#[test]
fn two_unit_recording_submits_two_frames_then_finalizes() {
    // One frame a unit of time, at most two units of recording; the first
    // tick finds that a millisecond has passed since the start.
    let mut sim = Simulation::new(1, Some(2 * UNIT), 1_000_000);
    let iterations = sim.record(&|_| true, None);
    assert_eq!(iterations, 2);
    assert_eq!(sim.submitted, vec![1, 1001]);
    assert_eq!(sim.slept, vec![0, UNIT, UNIT]);
    assert_eq!(sim.clock, 2 * UNIT + 1_000_000);

    let flushes = sim.actions.iter().filter(|a| **a == PipelineAction::Flush).count();
    assert_eq!(flushes, 1);
    assert_eq!(sim.actions.last(), Some(&PipelineAction::Flush));

    sim.finish();
    let flush_at = sim.actions.iter().position(|a| *a == PipelineAction::Flush).unwrap();
    let finalize_at = sim.actions.iter().position(|a| *a == PipelineAction::Finalize).unwrap();
    let release_at = sim.actions.iter().position(|a| *a == PipelineAction::Release).unwrap();
    assert!(flush_at < finalize_at);
    assert!(finalize_at < release_at);
    assert_eq!(release_at, sim.actions.len() - 1);

    // Nothing is asked for once the recording is done.
    let late = [
        PipelineEvent::Start,
        PipelineEvent::Tick { elapsed_nanos: 3 * UNIT, stop_requested: false },
        PipelineEvent::FrameReady,
        PipelineEvent::FrameNotReady { iteration_nanos: 0 },
        PipelineEvent::FrameFailed,
        PipelineEvent::Encoded { ok: true, iteration_nanos: 0 },
        PipelineEvent::Failure,
        PipelineEvent::Flushed,
        PipelineEvent::Finalized,
    ];
    for event in late {
        assert_eq!(sim.scheduler.step(event), PipelineAction::Ignore);
        assert_eq!(sim.scheduler.state(), PipelineState::Done);
    }
    assert_eq!(sim.submitted.len(), 2);
}

#[test]
fn recording_exactly_at_the_limit_goes_on() {
    let mut scheduler = PipelineScheduler::new(1, Some(2 * UNIT));
    scheduler.step(PipelineEvent::Start);
    let at_limit = PipelineEvent::Tick { elapsed_nanos: 2 * UNIT, stop_requested: false };
    assert_eq!(scheduler.step(at_limit), PipelineAction::Poll);
    assert_eq!(scheduler.state(), PipelineState::Recording);
    assert_eq!(
        scheduler.step(PipelineEvent::FrameNotReady { iteration_nanos: 0 }),
        PipelineAction::Observe { sleep_nanos: UNIT }
    );
    let over = PipelineEvent::Tick { elapsed_nanos: 2 * UNIT + 1, stop_requested: false };
    assert_eq!(scheduler.step(over), PipelineAction::Flush);
    assert_eq!(scheduler.state(), PipelineState::Stopping);
}

#[test]
fn recording_without_a_limit_ends_only_on_request() {
    let mut scheduler = PipelineScheduler::new(30, None);
    scheduler.step(PipelineEvent::Start);
    let late = PipelineEvent::Tick { elapsed_nanos: u64::MAX, stop_requested: false };
    assert_eq!(scheduler.step(late), PipelineAction::Poll);
    assert_eq!(
        scheduler.step(PipelineEvent::FrameReady),
        PipelineAction::Encode { timestamp_ms: 18_446_744_073_709 }
    );
}

#[test]
fn stop_flag_set_mid_loop_ends_capture_within_one_iteration() {
    // Three minutes allowed; the flag is found set at the fourth tick.
    let mut sim = Simulation::new(30, Some(180 * UNIT), 0);
    let iterations = sim.record(&|_| true, Some(3));
    assert_eq!(iterations, 3);
    assert_eq!(sim.submitted.len(), 3);
    assert!(sim.clock < 180 * UNIT);
    assert_eq!(sim.scheduler.state(), PipelineState::Stopping);
    assert_eq!(sim.actions.last(), Some(&PipelineAction::Flush));
    sim.finish();
}

#[test]
fn stop_flag_set_before_the_first_iteration_captures_nothing() {
    let mut sim = Simulation::new(30, None, 0);
    let iterations = sim.record(&|_| true, Some(0));
    assert_eq!(iterations, 0);
    assert!(sim.submitted.is_empty());
    assert_eq!(
        sim.actions,
        vec![PipelineAction::Observe { sleep_nanos: 0 }, PipelineAction::Flush]
    );
    sim.finish();
}

#[test]
fn stop_request_wins_over_any_clock_reading() {
    for elapsed_nanos in [0, 1, UNIT, 180 * UNIT, u64::MAX] {
        let mut scheduler = PipelineScheduler::new(30, Some(180 * UNIT));
        scheduler.step(PipelineEvent::Start);
        let tick = PipelineEvent::Tick { elapsed_nanos, stop_requested: true };
        assert_eq!(scheduler.step(tick), PipelineAction::Flush);
        assert_eq!(scheduler.state(), PipelineState::Stopping);
    }
}

#[test]
fn five_polls_without_a_frame_are_paced_and_submit_nothing() {
    let mut scheduler = PipelineScheduler::new(30, None);
    let interval = scheduler.frame_interval();
    let mut action = scheduler.step(PipelineEvent::Start);
    let mut clock: u64 = 0;
    let took = [0, 1_000_000, 33_333_332, 33_333_333, 40_000_000];
    let expected_sleep = [33_333_333, 32_333_333, 1, 0, 0];
    for i in 0..5 {
        match action {
            PipelineAction::Observe { sleep_nanos } => clock += sleep_nanos,
            other => panic!("expected Observe, got {:?}", other),
        }
        let tick = PipelineEvent::Tick { elapsed_nanos: clock, stop_requested: false };
        assert_eq!(scheduler.step(tick), PipelineAction::Poll);
        clock += took[i];
        action = scheduler.step(PipelineEvent::FrameNotReady { iteration_nanos: took[i] });
        assert_eq!(action, PipelineAction::Observe { sleep_nanos: expected_sleep[i] });
        assert_eq!(action, PipelineAction::Observe {
            sleep_nanos: pacing_sleep_nanos(interval, took[i])
        });
        assert_eq!(scheduler.state(), PipelineState::Recording);
    }
    // The frame that comes at last is the first to reach the encoder.
    match action {
        PipelineAction::Observe { sleep_nanos } => clock += sleep_nanos,
        other => panic!("expected Observe, got {:?}", other),
    }
    let tick = PipelineEvent::Tick { elapsed_nanos: clock, stop_requested: false };
    assert_eq!(scheduler.step(tick), PipelineAction::Poll);
    assert_eq!(
        scheduler.step(PipelineEvent::FrameReady),
        PipelineAction::Encode { timestamp_ms: timestamp_ms(clock) }
    );
}

#[test]
fn frame_source_failure_ends_capture_without_pacing() {
    let mut scheduler = PipelineScheduler::new(30, None);
    scheduler.step(PipelineEvent::Start);
    scheduler.step(PipelineEvent::Tick { elapsed_nanos: 5, stop_requested: false });
    assert_eq!(scheduler.step(PipelineEvent::FrameFailed), PipelineAction::Flush);
    assert_eq!(scheduler.state(), PipelineState::Stopping);
    assert_eq!(scheduler.step(PipelineEvent::Flushed), PipelineAction::Finalize);
    assert_eq!(scheduler.step(PipelineEvent::Finalized), PipelineAction::Release);
    assert!(scheduler.is_done());
}

#[test]
fn failed_encoding_ends_capture_without_pacing() {
    let mut scheduler = PipelineScheduler::new(30, None);
    scheduler.step(PipelineEvent::Start);
    scheduler.step(PipelineEvent::Tick { elapsed_nanos: 5, stop_requested: false });
    assert_eq!(
        scheduler.step(PipelineEvent::FrameReady),
        PipelineAction::Encode { timestamp_ms: 0 }
    );
    assert_eq!(
        scheduler.step(PipelineEvent::Encoded { ok: false, iteration_nanos: 1 }),
        PipelineAction::Flush
    );
    assert_eq!(scheduler.state(), PipelineState::Stopping);
}

#[test]
fn failure_ends_capture_at_any_point_of_an_iteration() {
    let before: [&[PipelineEvent]; 3] = [
        &[],
        &[PipelineEvent::Tick { elapsed_nanos: 1, stop_requested: false }],
        &[
            PipelineEvent::Tick { elapsed_nanos: 1, stop_requested: false },
            PipelineEvent::FrameReady,
        ],
    ];
    for events in before {
        let mut scheduler = PipelineScheduler::new(30, None);
        scheduler.step(PipelineEvent::Start);
        for event in events {
            scheduler.step(*event);
        }
        assert_eq!(scheduler.step(PipelineEvent::Failure), PipelineAction::Flush);
        assert_eq!(scheduler.state(), PipelineState::Stopping);
        assert_eq!(scheduler.step(PipelineEvent::Failure), PipelineAction::Ignore);
    }
}

#[test]
fn failure_before_the_start_is_ignored() {
    let mut scheduler = PipelineScheduler::new(30, None);
    assert_eq!(scheduler.step(PipelineEvent::Failure), PipelineAction::Ignore);
    assert_eq!(scheduler.state(), PipelineState::Idle);
}

#[test]
fn reports_out_of_turn_are_ignored() {
    let mut scheduler = PipelineScheduler::new(30, None);
    let tick = PipelineEvent::Tick { elapsed_nanos: 1, stop_requested: false };
    assert_eq!(scheduler.step(tick), PipelineAction::Ignore);
    assert_eq!(scheduler.step(PipelineEvent::Flushed), PipelineAction::Ignore);
    assert_eq!(scheduler.state(), PipelineState::Idle);

    scheduler.step(PipelineEvent::Start);
    assert_eq!(scheduler.step(PipelineEvent::FrameReady), PipelineAction::Ignore);
    assert_eq!(
        scheduler.step(PipelineEvent::Encoded { ok: true, iteration_nanos: 0 }),
        PipelineAction::Ignore
    );
    assert_eq!(scheduler.step(PipelineEvent::Finalized), PipelineAction::Ignore);
    assert_eq!(scheduler.step(tick), PipelineAction::Poll);
    assert_eq!(scheduler.step(tick), PipelineAction::Ignore);
    assert_eq!(
        scheduler.step(PipelineEvent::Encoded { ok: true, iteration_nanos: 0 }),
        PipelineAction::Ignore
    );
    assert_eq!(scheduler.step(PipelineEvent::FrameReady), PipelineAction::Encode {
        timestamp_ms: 0
    });
    assert_eq!(scheduler.step(PipelineEvent::FrameReady), PipelineAction::Ignore);
    assert_eq!(scheduler.step(PipelineEvent::FrameFailed), PipelineAction::Ignore);
    assert_eq!(scheduler.state(), PipelineState::Recording);
}

#[test]
fn finalize_waits_for_the_flush() {
    let mut scheduler = PipelineScheduler::new(30, None);
    scheduler.step(PipelineEvent::Start);
    scheduler.step(PipelineEvent::Tick { elapsed_nanos: 0, stop_requested: true });
    assert_eq!(scheduler.step(PipelineEvent::Finalized), PipelineAction::Ignore);
    assert_eq!(scheduler.state(), PipelineState::Stopping);
    assert_eq!(scheduler.step(PipelineEvent::Flushed), PipelineAction::Finalize);
    assert_eq!(scheduler.step(PipelineEvent::Flushed), PipelineAction::Ignore);
    assert_eq!(scheduler.step(PipelineEvent::Finalized), PipelineAction::Release);
}

#[test]
fn timestamps_never_decrease_over_a_recording() {
    let mut sim = Simulation::new(1000, Some(UNIT / 10), 123_456);
    sim.record(&|i| i % 3 != 1, None);
    assert!(sim.submitted.len() > 10);
    for pair in sim.submitted.windows(2) {
        assert!(pair[0] <= pair[1]);
    }
    assert_eq!(sim.submitted[0], 0);
    assert_eq!(sim.submitted[1], 2);
}

#[test]
fn late_iteration_is_not_made_up_for() {
    let mut scheduler = PipelineScheduler::new(10, None);
    scheduler.step(PipelineEvent::Start);
    scheduler.step(PipelineEvent::Tick { elapsed_nanos: 0, stop_requested: false });
    scheduler.step(PipelineEvent::FrameReady);
    // The iteration took three intervals: no sleep, and no shorter sleep later.
    assert_eq!(
        scheduler.step(PipelineEvent::Encoded { ok: true, iteration_nanos: 300_000_000 }),
        PipelineAction::Observe { sleep_nanos: 0 }
    );
    scheduler.step(PipelineEvent::Tick { elapsed_nanos: 300_000_000, stop_requested: false });
    scheduler.step(PipelineEvent::FrameReady);
    assert_eq!(
        scheduler.step(PipelineEvent::Encoded { ok: true, iteration_nanos: 20_000_000 }),
        PipelineAction::Observe { sleep_nanos: 80_000_000 }
    );
}
