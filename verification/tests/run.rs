use specialfx::{run_until, Step, POLL_INTERVAL_MS};

#[test]
fn stops_when_asked() {
    assert_eq!(run_until(true), Step::Stop);
}

#[test]
fn otherwise_waits_one_interval() {
    assert_eq!(POLL_INTERVAL_MS, 16);
    assert_eq!(run_until(false), Step::Wait { millis: 16 });
}
