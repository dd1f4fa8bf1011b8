use std::cell::RefCell;
use std::rc::Rc;

use rattler_archive::progress::{NoProgressReporter, ProgressReader, ProgressReporter};

struct RecordingReporter {
    totals: Rc<RefCell<Vec<u64>>>,
}

impl ProgressReporter for RecordingReporter {
    fn on_start(&self, _total_bytes: Option<u64>) {}

    fn on_progress(&self, bytes_processed: u64) {
        self.totals.borrow_mut().push(bytes_processed);
    }

    fn on_finish(&self, _message: &str) {}
}

#[test]
fn test_new_reader_has_read_nothing() {
    let reader = ProgressReader::new((), NoProgressReporter);
    assert_eq!(reader.bytes_read(), 0);
}

#[test]
fn test_record_read_accumulates() {
    let mut reader = ProgressReader::new((), NoProgressReporter);
    reader.record_read(5);
    reader.record_read(0);
    reader.record_read(7);
    assert_eq!(reader.bytes_read(), 12);
}

#[test]
fn test_reported_totals_are_nondecreasing_and_final() {
    let totals = Rc::new(RefCell::new(Vec::new()));
    let reporter = RecordingReporter {
        totals: Rc::clone(&totals),
    };
    let mut reader = ProgressReader::new((), reporter);
    for n in [3usize, 0, 10, 2] {
        reader.record_read(n);
    }
    let seen = totals.borrow().clone();
    // One report per read, zero-length reads included.
    assert_eq!(seen, vec![3, 3, 13, 15]);
    // Non-decreasing, and the final report equals the bytes actually read.
    assert!(seen.windows(2).all(|w| w[0] <= w[1]));
    assert_eq!(*seen.last().unwrap(), reader.bytes_read());
}

#[test]
fn test_inner_mut_reaches_the_wrapped_source() {
    let mut reader = ProgressReader::new(vec![1u8, 2, 3], NoProgressReporter);
    reader.inner_mut().push(4);
    assert_eq!(reader.inner_mut().len(), 4);
    // Touching the inner source does not change the accounting.
    assert_eq!(reader.bytes_read(), 0);
}
