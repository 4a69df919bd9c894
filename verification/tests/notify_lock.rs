//! Behavior of the change-announcing lock: notification timing, exactly-once
//! delivery, peeked payloads, and poisoning.
use std::cell::RefCell;
use std::sync::Arc;

use cmdpal::notify::{LockError, NotifyLock};

#[test]
fn write_notifies_once_and_commits_value() {
    let recorded: Arc<RefCell<Vec<&'static str>>> = Arc::new(RefCell::new(Vec::new()));
    let cell = NotifyLock::new(String::from("a"));

    let log = recorded.clone();
    let mut guard = cell.write(move || log.borrow_mut().push("notified")).unwrap();
    *guard.value_mut() = String::from("b");
    guard.finish();

    assert_eq!(*recorded.borrow(), vec!["notified"]);
    let read = cell.read().unwrap();
    assert_eq!(read.value(), "b");
    read.release();
}

#[test]
fn notifier_runs_exactly_once_per_scope() {
    let count = Arc::new(RefCell::new(0u32));
    let cell = NotifyLock::new(7u64);

    let c = count.clone();
    let mut guard = cell.write(move || *c.borrow_mut() += 1).unwrap();
    *guard.value_mut() = 8;
    *guard.value_mut() = 9;
    guard.finish();
    assert_eq!(*count.borrow(), 1);

    // A scope that never touches the value still announces exactly once.
    let c = count.clone();
    let guard = cell.write(move || *c.borrow_mut() += 1).unwrap();
    guard.finish();
    assert_eq!(*count.borrow(), 2);
}

#[test]
fn reentrant_notifier_reads_the_value_its_own_scope_wrote() {
    let cell = Arc::new(NotifyLock::new(String::from("a")));
    let seen: Arc<RefCell<Vec<String>>> = Arc::new(RefCell::new(Vec::new()));

    let reader = cell.clone();
    let log = seen.clone();
    let mut guard = cell
        .write(move || {
            // The lock is already released here: this read must not deadlock.
            let read = reader.read().unwrap();
            log.borrow_mut().push(read.value().clone());
            read.release();
        })
        .unwrap();
    *guard.value_mut() = String::from("b");
    guard.finish();

    assert_eq!(*seen.borrow(), vec![String::from("b")]);
}

#[test]
fn peeker_sees_the_post_mutation_collection_length() {
    let recorded: Arc<RefCell<Vec<usize>>> = Arc::new(RefCell::new(Vec::new()));
    let cell = NotifyLock::new(Vec::<i32>::new());

    let log = recorded.clone();
    let mut guard = cell
        .write_with_peek(|v: &Vec<i32>| v.len(), move |n| log.borrow_mut().push(n))
        .unwrap();
    guard.value_mut().push(10);
    guard.value_mut().push(20);
    guard.value_mut().push(30);
    guard.finish();

    assert_eq!(*recorded.borrow(), vec![3]);
    let read = cell.read().unwrap();
    assert_eq!(*read.value(), vec![10, 20, 30]);
    read.release();
}

#[test]
fn peek_scope_set_replaces_the_value() {
    let recorded: Arc<RefCell<Vec<usize>>> = Arc::new(RefCell::new(Vec::new()));
    let cell = NotifyLock::new(vec![1i32]);

    let log = recorded.clone();
    let mut guard = cell
        .write_with_peek(|v: &Vec<i32>| v.len(), move |n| log.borrow_mut().push(n))
        .unwrap();
    guard.set(vec![4, 5]);
    assert_eq!(*guard.value(), vec![4, 5]);
    guard.finish();

    assert_eq!(*recorded.borrow(), vec![2]);
}

#[test]
fn abandoned_writer_poisons_reads_and_writes() {
    let count = Arc::new(RefCell::new(0u32));
    let cell = NotifyLock::new(String::from("a"));

    let c = count.clone();
    let mut guard = cell.write(move || *c.borrow_mut() += 1).unwrap();
    // The writer gives up partway through its mutation.
    *guard.value_mut() = String::from("torn");
    guard.abandon();
    // Even the abandoned scope ran its finalize sequence exactly once.
    assert_eq!(*count.borrow(), 1);

    assert_eq!(cell.read().err(), Some(LockError::Poisoned));
    assert!(cell.write(|| ()).is_err());
    match cell.write(|| ()) {
        Err(e) => assert_eq!(e, LockError::Poisoned),
        Ok(_) => panic!("a poisoned cell must refuse writers"),
    }
}

#[test]
fn abandoned_peek_scope_still_peeks_and_notifies() {
    let recorded: Arc<RefCell<Vec<usize>>> = Arc::new(RefCell::new(Vec::new()));
    let cell = NotifyLock::new(Vec::<u8>::new());

    let log = recorded.clone();
    let mut guard = cell
        .write_with_peek(|v: &Vec<u8>| v.len(), move |n| log.borrow_mut().push(n))
        .unwrap();
    guard.value_mut().push(1);
    guard.abandon();

    assert_eq!(*recorded.borrow(), vec![1]);
    assert_eq!(cell.read().err(), Some(LockError::Poisoned));
}

fn shareable_across_threads<T: Send + Sync>() {}

#[test]
fn the_cell_is_shareable_across_threads() {
    shareable_across_threads::<NotifyLock<String>>();
    shareable_across_threads::<NotifyLock<Vec<u8>>>();
}
