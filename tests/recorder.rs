use std::sync::atomic::{AtomicBool, Ordering};
use std::sync::Arc;

use metrics_facade::handles::{Counter, Gauge, Histogram};
use metrics_facade::key::{Key, Unit};
use metrics_facade::recorder::{
    clear_recorder, recorder, set_boxed_recorder, set_recorder, try_recorder, NoopRecorder,
    Recorder, RecorderOnceCell, RecorderVariant, SetRecorderError,
};

struct TrackOnDropRecorder(Arc<AtomicBool>);

impl TrackOnDropRecorder {
    fn new() -> (Self, Arc<AtomicBool>) {
        let arc = Arc::new(AtomicBool::new(false));
        (Self(arc.clone()), arc)
    }
}

impl Recorder for TrackOnDropRecorder {
    fn describe_counter(&self, _: &Key, _: Option<Unit>, _: Option<String>) {}
    fn describe_gauge(&self, _: &Key, _: Option<Unit>, _: Option<String>) {}
    fn describe_histogram(&self, _: &Key, _: Option<Unit>, _: Option<String>) {}
    fn register_counter(&self, _: &Key) -> Counter {
        Counter::noop()
    }
    fn register_gauge(&self, _: &Key) -> Gauge {
        Gauge::noop()
    }
    fn register_histogram(&self, _: &Key) -> Histogram {
        Histogram::noop()
    }
    fn increment_counter(&self, _: &Counter, _: u64) {}
    fn set_gauge(&self, _: &Gauge, _: u64) {}
    fn record_histogram(&self, _: &Histogram, _: u64) {}
}

impl Drop for TrackOnDropRecorder {
    fn drop(&mut self) {
        self.0.store(true, Ordering::SeqCst);
    }
}

#[test]
fn boxed_recorder_dropped_on_existing_set() {
    let mut recorder_cell: RecorderOnceCell<Box<dyn Recorder>> = RecorderOnceCell::new();

    let first_recorder: Box<dyn Recorder> = Box::new(NoopRecorder);
    let first_set_result = recorder_cell.set(RecorderVariant::from_boxed(Box::new(first_recorder)));
    assert!(first_set_result.is_ok());

    let (second_recorder, was_dropped) = TrackOnDropRecorder::new();
    assert!(!was_dropped.load(Ordering::SeqCst));

    let second_recorder: Box<dyn Recorder> = Box::new(second_recorder);
    let second_set_result =
        recorder_cell.set(RecorderVariant::from_boxed(Box::new(second_recorder)));
    assert!(second_set_result.is_err());
    assert!(was_dropped.load(Ordering::SeqCst));
}

#[test]
fn installed_boxed_recorder_is_not_dropped() {
    let mut cell: RecorderOnceCell<TrackOnDropRecorder> = RecorderOnceCell::new();
    let (rec, was_dropped) = TrackOnDropRecorder::new();
    assert!(set_boxed_recorder(&mut cell, Box::new(rec)).is_ok());
    assert!(!was_dropped.load(Ordering::SeqCst));
    assert!(try_recorder(&cell).is_some());
}

#[test]
fn only_first_install_succeeds() {
    static A: u64 = 1;
    static B: u64 = 2;
    let mut cell: RecorderOnceCell<u64> = RecorderOnceCell::new();
    assert!(try_recorder(&cell).is_none());
    assert_eq!(set_recorder(&mut cell, &A), Ok(()));
    assert_eq!(set_recorder(&mut cell, &B), Err(SetRecorderError));
    assert_eq!(set_boxed_recorder(&mut cell, Box::new(3)), Err(SetRecorderError));
    assert_eq!(try_recorder(&cell).copied(), Some(1));
}

#[test]
fn clear_allows_a_new_install() {
    let mut cell: RecorderOnceCell<u64> = RecorderOnceCell::new();
    assert!(set_boxed_recorder(&mut cell, Box::new(7)).is_ok());
    clear_recorder(&mut cell);
    assert!(try_recorder(&cell).is_none());
    assert!(set_boxed_recorder(&mut cell, Box::new(8)).is_ok());
    assert_eq!(try_recorder(&cell).copied(), Some(8));
}

#[test]
fn into_recorder_ref_gives_the_recorder() {
    static A: u64 = 11;
    assert_eq!(*RecorderVariant::from_static(&A).into_recorder_ref(), 11);
    assert_eq!(*RecorderVariant::from_boxed(Box::new(12u64)).into_recorder_ref(), 12);
}

#[test]
fn recorder_falls_back_to_noop() {
    let mut cell: RecorderOnceCell<TrackOnDropRecorder> = RecorderOnceCell::new();
    let key = Key::from_name("requests".to_string());
    let current = recorder(&cell);
    assert_eq!(current.register_counter(&key), Counter::noop());
    assert_eq!(current.register_gauge(&key), Gauge::noop());
    assert_eq!(current.register_histogram(&key), Histogram::noop());
    current.describe_counter(&key, Some(Unit::Count), None);
    current.increment_counter(&Counter::noop(), 1);

    let (rec, _flag) = TrackOnDropRecorder::new();
    assert!(set_boxed_recorder(&mut cell, Box::new(rec)).is_ok());
    match recorder(&cell) {
        metrics_facade::recorder::RecorderRef::Installed(_) => {}
        metrics_facade::recorder::RecorderRef::Noop(_) => panic!("expected the installed recorder"),
    }
}

#[test]
fn set_recorder_error_message() {
    assert_eq!(
        SetRecorderError.message(),
        "attempted to set a recorder after the metrics system was already initialized"
    );
}

#[test]
fn unit_labels() {
    assert_eq!(Unit::Count.as_str(), "count");
    assert_eq!(Unit::Bytes.as_str(), "bytes");
    assert_eq!(Unit::CountPerSecond.as_str(), "count_per_second");
}

#[test]
fn noop_recorder_hands_out_inert_handles() {
    let noop = NoopRecorder;
    let key = Key::from_name("anything".to_string());
    noop.describe_counter(&key, Some(Unit::Count), Some("ignored".to_string()));
    noop.describe_histogram(&key, None, None);
    assert_eq!(noop.register_counter(&key).slot, None);
    assert_eq!(noop.register_gauge(&key).slot, None);
    assert_eq!(noop.register_histogram(&key).slot, None);
}
