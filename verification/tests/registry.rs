//! Behavior of the multicast registry: token assignment, idempotent removal,
//! broadcast order and cardinality.
use std::cell::RefCell;
use std::sync::Arc;

use cmdpal::events::{EventRegistry, ItemsChangedEventArgs, PropChangedEventArgs, Subscriber};
use cmdpal::events::items_count_of;

struct Recorder {
    name: &'static str,
    log: Arc<RefCell<Vec<String>>>,
}

impl Subscriber for Recorder {
    type Sender = String;
    type Args = PropChangedEventArgs;

    fn invoke(&self, sender: &String, args: &PropChangedEventArgs) {
        self.log.borrow_mut().push(format!("{}:{}:{}", self.name, sender, args.0));
    }
}

fn recorder(name: &'static str, log: &Arc<RefCell<Vec<String>>>) -> Arc<Recorder> {
    Arc::new(Recorder { name, log: log.clone() })
}

#[test]
fn broadcast_reaches_every_subscriber_in_registration_order() {
    let log = Arc::new(RefCell::new(Vec::new()));
    let mut registry: EventRegistry<Recorder> = EventRegistry::new();

    let t1 = registry.add(recorder("c1", &log)).unwrap();
    let t2 = registry.add(recorder("c2", &log)).unwrap();
    assert_ne!(t1, t2);

    let sender = String::from("entity");
    let invoked = registry.broadcast(&sender, &PropChangedEventArgs(String::from("Title")));
    assert_eq!(invoked, 2);
    assert_eq!(
        *log.borrow(),
        vec![String::from("c1:entity:Title"), String::from("c2:entity:Title")]
    );

    registry.remove(t1);
    log.borrow_mut().clear();
    let invoked = registry.broadcast(&sender, &PropChangedEventArgs(String::from("Title")));
    assert_eq!(invoked, 1);
    assert_eq!(*log.borrow(), vec![String::from("c2:entity:Title")]);
}

#[test]
fn remove_is_idempotent_and_ignores_unknown_tokens() {
    let log = Arc::new(RefCell::new(Vec::new()));
    let mut registry: EventRegistry<Recorder> = EventRegistry::new();

    let t1 = registry.add(recorder("c1", &log)).unwrap();
    let t2 = registry.add(recorder("c2", &log)).unwrap();

    // A token this registry never issued unsubscribes nothing.
    registry.remove(-5);
    registry.remove(9_999);
    let sender = String::from("s");
    assert_eq!(registry.broadcast(&sender, &PropChangedEventArgs(String::from("P"))), 2);

    // Removing twice is the same as removing once.
    registry.remove(t1);
    registry.remove(t1);
    assert_eq!(registry.broadcast(&sender, &PropChangedEventArgs(String::from("P"))), 1);

    registry.remove(t2);
    registry.remove(t2);
    assert_eq!(registry.broadcast(&sender, &PropChangedEventArgs(String::from("P"))), 0);
}

#[test]
fn tokens_grow_and_are_never_reissued_while_registered() {
    let log = Arc::new(RefCell::new(Vec::new()));
    let mut registry: EventRegistry<Recorder> = EventRegistry::new();

    let t1 = registry.add(recorder("a", &log)).unwrap();
    let t2 = registry.add(recorder("b", &log)).unwrap();
    registry.remove(t1);
    let t3 = registry.add(recorder("c", &log)).unwrap();
    assert!(t1 < t2);
    assert!(t2 < t3);
}

#[test]
fn snapshot_copies_the_current_subscribers() {
    let log = Arc::new(RefCell::new(Vec::new()));
    let mut registry: EventRegistry<Recorder> = EventRegistry::new();
    registry.add(recorder("c1", &log)).unwrap();
    registry.add(recorder("c2", &log)).unwrap();

    let snapshot = registry.snapshot();
    assert_eq!(snapshot.len(), 2);
    assert_eq!(snapshot[0].name, "c1");
    assert_eq!(snapshot[1].name, "c2");
}

struct ItemsRecorder {
    log: Arc<RefCell<Vec<i32>>>,
}

impl Subscriber for ItemsRecorder {
    type Sender = ();
    type Args = ItemsChangedEventArgs;

    fn invoke(&self, _sender: &(), args: &ItemsChangedEventArgs) {
        self.log.borrow_mut().push(args.0);
    }
}

#[test]
fn items_records_carry_the_count_or_the_unknown_sentinel() {
    assert_eq!(items_count_of(0), 0);
    assert_eq!(items_count_of(41), 41);
    assert_eq!(items_count_of(i32::MAX as usize), i32::MAX);
    assert_eq!(items_count_of(i32::MAX as usize + 1), -1);

    let log = Arc::new(RefCell::new(Vec::new()));
    let mut registry: EventRegistry<ItemsRecorder> = EventRegistry::new();
    registry.add(Arc::new(ItemsRecorder { log: log.clone() })).unwrap();
    registry.broadcast(&(), &ItemsChangedEventArgs(3));
    registry.broadcast(&(), &ItemsChangedEventArgs(-1));
    assert_eq!(*log.borrow(), vec![3, -1]);
}
