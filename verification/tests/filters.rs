//! Behavior of the filter list: first-match selection, separators skipped,
//! and the update callback running after the selection is committed.
use std::cell::RefCell;
use std::sync::Arc;

use cmdpal::filter::{filters_builder, Filter, FilterItem};
use cmdpal::notify::LockError;

fn filter(id: &str, name: &str) -> Filter {
    Filter { icon: None, id: String::from(id), name: String::from(name) }
}

fn ids(pair: (Option<Filter>, Option<Filter>)) -> String {
    let show = |f: Option<Filter>| f.map_or(String::from("none"), |f| f.name);
    format!("{}->{}", show(pair.0), show(pair.1))
}

#[test]
fn selection_takes_the_first_match_and_skips_separators() {
    let log: Arc<RefCell<Vec<String>>> = Arc::new(RefCell::new(Vec::new()));
    let sink = log.clone();
    let filters = filters_builder()
        .add_separator()
        .add_filter(filter("a", "First A"))
        .add_filter(filter("a", "Second A"))
        .add_filter(filter("b", "Only B"))
        .on_update(move |old, new| {
            sink.borrow_mut().push(ids((old, new)));
            Ok(())
        })
        .build();

    assert_eq!(filters.items().len(), 4);
    assert_eq!(filters.current_filter_id().unwrap(), None);

    filters.set_current_filter_id("a").unwrap();
    assert_eq!(filters.current_filter_id().unwrap().as_deref(), Some("a"));
    filters.set_current_filter_id("b").unwrap();
    filters.set_current_filter_id("missing").unwrap();
    assert_eq!(filters.current_filter_id().unwrap(), None);

    assert_eq!(
        *log.borrow(),
        vec![
            String::from("none->First A"),
            String::from("First A->Only B"),
            String::from("Only B->none"),
        ]
    );
}

#[test]
fn a_failing_update_callback_does_not_undo_the_selection() {
    let filters = filters_builder()
        .add_filter(filter("x", "X"))
        .on_update(|_old, _new| Err(LockError::Poisoned))
        .build();

    assert_eq!(filters.set_current_filter_id("x"), Err(LockError::Poisoned));
    // The selection was committed before the callback ran.
    assert_eq!(filters.current_filter_id().unwrap().as_deref(), Some("x"));
}

#[test]
fn the_default_callback_accepts_every_change() {
    let filters = filters_builder().add_filter(filter("only", "Only")).build();
    assert!(filters.set_current_filter_id("only").is_ok());
    let current = filters.current().unwrap();
    match current.value() {
        Some(f) => {
            assert_eq!(f.id, "only");
            assert_eq!(f.name, "Only");
            assert!(f.icon.is_none());
        }
        None => panic!("a matching filter must be selected"),
    }
    current.release();
    match &filters.items()[0] {
        FilterItem::Filter(f) => assert_eq!(f.name, "Only"),
        FilterItem::Separator(_) => panic!("expected the filter"),
    }
}
