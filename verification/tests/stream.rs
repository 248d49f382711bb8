use std::sync::Mutex;

use dispatch_core::Items;
use dispatch_core::StdInWorker;
use dispatch_core::Worker;
use dispatch_core::dispatch_parsed;

/// A stream-based worker: a non-empty input parses to one item carrying the
/// input's length; empty input parses to nothing.
struct StreamWorker {
    consume_calls: Mutex<u32>,
    consumed: Mutex<Vec<u64>>,
}

impl StreamWorker {
    fn new() -> StreamWorker {
        StreamWorker { consume_calls: Mutex::new(0), consumed: Mutex::new(Vec::new()) }
    }
}

impl Worker for StreamWorker {
    type Item = u64;

    fn consume_items(&self, mut items: Items<u64>) -> Result<(), anyhow::Error> {
        *self.consume_calls.lock().unwrap() += 1;
        while let Some(i) = items.next() {
            self.consumed.lock().unwrap().push(i);
        }
        Ok(())
    }
}

impl StdInWorker for StreamWorker {
    fn parse_stdin(&self, src: String) -> Option<u64> {
        if src.is_empty() { None } else { Some(src.len() as u64) }
    }
}

#[test]
fn declined_parse_dispatches_nothing() {
    let worker = StreamWorker::new();
    assert!(dispatch_parsed(&worker, None).is_ok());
    assert_eq!(*worker.consume_calls.lock().unwrap(), 0);
    assert!(worker.consumed.lock().unwrap().is_empty());
}

#[test]
fn parsed_item_is_dispatched_as_one_element_sequence() {
    let worker = StreamWorker::new();
    assert!(dispatch_parsed(&worker, Some(9)).is_ok());
    assert_eq!(*worker.consume_calls.lock().unwrap(), 1);
    assert_eq!(*worker.consumed.lock().unwrap(), vec![9]);
}

#[test]
fn empty_input_succeeds_without_consumption() {
    let worker = StreamWorker::new();
    let result = worker.run_on_source(String::new());
    assert!(result.is_ok());
    assert_eq!(*worker.consume_calls.lock().unwrap(), 0);
    assert!(worker.consumed.lock().unwrap().is_empty());
}

#[test]
fn parsed_input_reaches_consumer_once() {
    let worker = StreamWorker::new();
    let result = worker.run_on_source(String::from("abc"));
    assert!(result.is_ok());
    assert_eq!(*worker.consume_calls.lock().unwrap(), 1);
    assert_eq!(*worker.consumed.lock().unwrap(), vec![3]);
}
