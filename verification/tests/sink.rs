use record_screen::mux::writer::CLUSTER_ELEMENT_ID;
use record_screen::mux::{Rotation, SinkPhase, WebmWriter, WriteSlot};

const CUES_ELEMENT_ID: u64 = 0x1C53_BB6B;

fn ready_sink(base: &str) -> WebmWriter {
    let mut sink = WebmWriter::new("out", base);
    sink.chunk_opened(true);
    sink
}

fn rotate(sink: &mut WebmWriter) -> Rotation {
    let rotation = sink.notify_boundary(CLUSTER_ELEMENT_ID, 0).expect("a ready sink rotates");
    sink.chunk_opened(true);
    rotation
}

#[test]
fn new_sink_names_chunk_zero_and_waits_for_its_file() {
    let sink = WebmWriter::new("out", "chunk");
    assert_eq!(sink.phase(), SinkPhase::Opening);
    assert_eq!(sink.chunk_count(), 0);
    assert_eq!(sink.chunk_name(), "chunk_0.webm");
    assert_eq!(sink.base_name(), "chunk");
    assert_eq!(sink.file_path(), "out");
    assert_eq!(sink.get_position(), 0);
    let chunk = sink.current_chunk();
    assert_eq!(chunk.sequence, 0);
    assert_eq!(chunk.name, "chunk_0.webm");
}

#[test]
fn new_sink_takes_no_write_before_its_file_exists() {
    let mut sink = WebmWriter::new("", "chunk");
    assert_eq!(sink.write(10), None);
    assert!(!sink.set_position(4));
    assert!(sink.notify_boundary(CLUSTER_ELEMENT_ID, 0).is_none());
    assert_eq!(sink.phase(), SinkPhase::Opening);
    assert_eq!(sink.get_position(), 0);
    assert_eq!(sink.chunk_count(), 0);
}

#[test]
fn first_file_that_cannot_be_created_fails_the_sink() {
    let mut sink = WebmWriter::new("", "chunk");
    sink.chunk_opened(false);
    assert_eq!(sink.phase(), SinkPhase::Failed);
    assert_eq!(sink.write(1), None);
    sink.chunk_opened(true);
    assert_eq!(sink.phase(), SinkPhase::Failed);
}

#[test]
fn write_moves_the_cursor_by_its_length() {
    let mut sink = ready_sink("chunk");
    assert_eq!(sink.write(10), Some(WriteSlot { sequence: 0, offset: 0 }));
    assert_eq!(sink.get_position(), 10);
    assert_eq!(sink.write(0), Some(WriteSlot { sequence: 0, offset: 10 }));
    assert_eq!(sink.get_position(), 10);
    assert_eq!(sink.write(5), Some(WriteSlot { sequence: 0, offset: 10 }));
    assert_eq!(sink.get_position(), 15);
}

#[test]
fn set_position_moves_the_cursor_within_the_chunk() {
    let mut sink = ready_sink("chunk");
    assert_eq!(sink.write(100), Some(WriteSlot { sequence: 0, offset: 0 }));
    assert!(sink.set_position(8));
    assert_eq!(sink.get_position(), 8);
    assert_eq!(sink.write(4), Some(WriteSlot { sequence: 0, offset: 8 }));
    assert_eq!(sink.get_position(), 12);
    assert!(sink.set_position(100));
    assert_eq!(sink.get_position(), 100);
}

#[test]
fn write_beyond_the_largest_offset_fails_the_sink() {
    let mut sink = ready_sink("chunk");
    assert!(sink.set_position(u64::MAX - 3));
    assert_eq!(sink.write(3), Some(WriteSlot { sequence: 0, offset: u64::MAX - 3 }));
    assert_eq!(sink.get_position(), u64::MAX);
    assert_eq!(sink.write(1), None);
    assert_eq!(sink.phase(), SinkPhase::Failed);
    assert_eq!(sink.write(0), None);
}

#[test]
fn n_cluster_notifications_give_n_plus_one_chunks_in_order() {
    let n: u32 = 7;
    let mut sink = ready_sink("rec");
    let mut created = vec![sink.chunk_name()];
    let mut completed = Vec::new();
    for _ in 0..n {
        let rotation = rotate(&mut sink);
        completed.push((rotation.completed.sequence, rotation.completed.name));
        assert_eq!(rotation.next.sequence, rotation.completed.sequence + 1);
        created.push(rotation.next.name);
    }
    let expected_created: Vec<String> = (0..=n).map(|k| format!("rec_{}.webm", k)).collect();
    let expected_completed: Vec<(u32, String)> =
        (0..n).map(|k| (k, format!("rec_{}.webm", k))).collect();
    assert_eq!(created, expected_created);
    assert_eq!(completed, expected_completed);
    assert_eq!(sink.chunk_count(), n);
    assert_eq!(sink.chunk_name(), "rec_7.webm");
    assert_eq!(sink.phase(), SinkPhase::Ready);
}

#[test]
fn no_notification_gives_one_chunk_and_no_completion() {
    let mut sink = ready_sink("rec");
    assert_eq!(sink.write(64), Some(WriteSlot { sequence: 0, offset: 0 }));
    assert_eq!(sink.chunk_count(), 0);
    assert_eq!(sink.chunk_name(), "rec_0.webm");
}

#[test]
fn rotation_names_the_chunk_that_was_open_before() {
    let mut sink = ready_sink("chunk");
    let first = rotate(&mut sink);
    assert_eq!(first.completed.sequence, 0);
    assert_eq!(first.completed.name, "chunk_0.webm");
    assert_eq!(first.next.sequence, 1);
    assert_eq!(first.next.name, "chunk_1.webm");
    let second = rotate(&mut sink);
    assert_eq!(second.completed.sequence, 1);
    assert_eq!(second.completed.name, "chunk_1.webm");
    assert_eq!(second.next.sequence, 2);
    assert_eq!(second.next.name, "chunk_2.webm");
}

#[test]
fn rotation_past_nine_chunks_keeps_counting_in_decimal() {
    let mut sink = ready_sink("c");
    for _ in 0..9 {
        rotate(&mut sink);
    }
    let tenth = rotate(&mut sink);
    assert_eq!(tenth.completed.name, "c_9.webm");
    assert_eq!(tenth.next.name, "c_10.webm");
    assert_eq!(sink.chunk_name(), "c_10.webm");
}

#[test]
fn write_after_notification_lands_in_the_new_chunk() {
    let mut sink = ready_sink("chunk");
    assert_eq!(sink.write(500), Some(WriteSlot { sequence: 0, offset: 0 }));
    let rotation = sink.notify_boundary(CLUSTER_ELEMENT_ID, 500);
    assert!(rotation.is_some());
    assert_eq!(sink.phase(), SinkPhase::Opening);
    assert_eq!(sink.write(8), None);
    assert!(!sink.set_position(0));
    sink.chunk_opened(true);
    assert_eq!(sink.write(8), Some(WriteSlot { sequence: 1, offset: 0 }));
    assert_eq!(sink.write(8), Some(WriteSlot { sequence: 1, offset: 8 }));
}

#[test]
fn position_after_rotation_counts_from_the_new_chunk() {
    let mut sink = ready_sink("chunk");
    assert_eq!(sink.write(1234), Some(WriteSlot { sequence: 0, offset: 0 }));
    assert_eq!(sink.get_position(), 1234);
    assert!(sink.notify_boundary(CLUSTER_ELEMENT_ID, 1234).is_some());
    assert_eq!(sink.get_position(), 0);
    sink.chunk_opened(true);
    assert_eq!(sink.get_position(), 0);
    assert_eq!(sink.write(10), Some(WriteSlot { sequence: 1, offset: 0 }));
    assert_eq!(sink.get_position(), 10);
}

#[test]
fn failed_creation_during_rotation_stops_all_writes() {
    let mut sink = ready_sink("chunk");
    assert_eq!(sink.write(100), Some(WriteSlot { sequence: 0, offset: 0 }));
    let rotation = sink.notify_boundary(CLUSTER_ELEMENT_ID, 100).expect("rotation");
    assert_eq!(rotation.completed.name, "chunk_0.webm");
    sink.chunk_opened(false);
    assert_eq!(sink.phase(), SinkPhase::Failed);
    assert_eq!(sink.write(1), None);
    assert_eq!(sink.write(0), None);
    assert!(!sink.set_position(0));
    assert!(sink.notify_boundary(CLUSTER_ELEMENT_ID, 0).is_none());
    assert_eq!(sink.chunk_count(), 1);
    assert_eq!(sink.phase(), SinkPhase::Failed);
}

#[test]
fn other_elements_do_not_rotate() {
    let mut sink = ready_sink("chunk");
    assert_eq!(sink.write(20), Some(WriteSlot { sequence: 0, offset: 0 }));
    assert!(sink.notify_boundary(CUES_ELEMENT_ID, 20).is_none());
    assert!(sink.notify_boundary(0, 20).is_none());
    assert!(sink.notify_boundary(CLUSTER_ELEMENT_ID + 1, 20).is_none());
    assert_eq!(sink.phase(), SinkPhase::Ready);
    assert_eq!(sink.chunk_count(), 0);
    assert_eq!(sink.get_position(), 20);
    assert_eq!(sink.write(1), Some(WriteSlot { sequence: 0, offset: 20 }));
}

#[test]
fn cluster_element_id_is_the_matroska_cluster() {
    assert_eq!(CLUSTER_ELEMENT_ID, 0x1F43B675);
}

#[test]
fn reported_io_failure_stops_all_writes() {
    let mut sink = ready_sink("chunk");
    assert_eq!(sink.write(10), Some(WriteSlot { sequence: 0, offset: 0 }));
    sink.io_failed();
    assert_eq!(sink.phase(), SinkPhase::Failed);
    assert_eq!(sink.write(10), None);
    assert_eq!(sink.get_position(), 10);
    assert!(sink.notify_boundary(CLUSTER_ELEMENT_ID, 10).is_none());
    assert_eq!(sink.chunk_count(), 0);
}

#[test]
fn unexpected_open_report_changes_nothing() {
    let mut sink = ready_sink("chunk");
    assert_eq!(sink.write(10), Some(WriteSlot { sequence: 0, offset: 0 }));
    sink.chunk_opened(false);
    assert_eq!(sink.phase(), SinkPhase::Ready);
    sink.chunk_opened(true);
    assert_eq!(sink.phase(), SinkPhase::Ready);
    assert_eq!(sink.get_position(), 10);
}
