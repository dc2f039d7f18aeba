use record_screen::shutdown::ShutdownSignal;

#[test]
fn new_signal_is_not_set() {
    let mut signal = ShutdownSignal::new();
    assert!(!signal.is_requested());
    assert!(!signal.is_requested());
}

#[test]
fn request_is_seen_by_the_handle_that_made_it() {
    let mut signal = ShutdownSignal::new();
    signal.request();
    assert!(signal.is_requested());
    assert!(signal.is_requested());
}

#[test]
fn request_is_seen_by_every_handle() {
    let mut main = ShutdownSignal::new();
    let mut audio = main.share();
    let mut trigger = main.share();
    assert!(!audio.is_requested());
    trigger.request();
    assert!(main.is_requested());
    assert!(audio.is_requested());
    let mut late = audio.share();
    assert!(late.is_requested());
}

#[test]
fn second_request_changes_nothing() {
    let mut signal = ShutdownSignal::new();
    let mut other = signal.share();
    signal.request();
    other.request();
    signal.request();
    assert!(signal.is_requested());
    assert!(other.is_requested());
}
