//! Behavior of the content blocks: text writes announce their property
//! names.
use std::cell::RefCell;
use std::sync::Arc;

use cmdpal::cmd::NotifyPropChanged;
use cmdpal::content::{FormContent, FormContentBuilder, MarkdownContent, TreeContentBuilder};
use cmdpal::events::{ItemsChangedEventArgs, PropChangedEventArgs, Subscriber};
use cmdpal::page::NotifyItemsChanged;

struct Recorder {
    log: Arc<RefCell<Vec<String>>>,
}

impl Subscriber for Recorder {
    type Sender = ();
    type Args = PropChangedEventArgs;

    fn invoke(&self, _sender: &(), args: &PropChangedEventArgs) {
        self.log.borrow_mut().push(args.0.clone());
    }
}

#[test]
fn markdown_body_writes_announce_body() {
    let log = Arc::new(RefCell::new(Vec::new()));
    let content: MarkdownContent<Recorder> = MarkdownContent::new("# Hello");
    content.prop_changed(Arc::new(Recorder { log: log.clone() })).unwrap();

    let body = content.body().unwrap();
    assert_eq!(body.value(), "# Hello");
    body.release();

    let mut guard = content.body_mut(&()).unwrap();
    *guard.value_mut() = String::from("# Updated");
    guard.finish();

    assert_eq!(*log.borrow(), vec![String::from("Body")]);
    let body = content.body().unwrap();
    assert_eq!(body.value(), "# Updated");
    body.release();
}

#[test]
fn form_text_writes_announce_their_property_names() {
    let log = Arc::new(RefCell::new(Vec::new()));
    let form: FormContent<Recorder> = FormContentBuilder::new()
        .template_json("{\"type\":\"AdaptiveCard\"}")
        .data_json("{}")
        .build();
    form.prop_changed(Arc::new(Recorder { log: log.clone() })).unwrap();

    let template = form.template_json().unwrap();
    assert_eq!(template.value(), "{\"type\":\"AdaptiveCard\"}");
    template.release();
    let state = form.state_json().unwrap();
    assert_eq!(state.value(), "");
    state.release();

    let mut guard = form.template_json_mut(&()).unwrap();
    *guard.value_mut() = String::from("{\"v\":2}");
    guard.finish();
    let mut guard = form.data_json_mut(&()).unwrap();
    *guard.value_mut() = String::from("{\"name\":\"x\"}");
    guard.finish();
    let mut guard = form.state_json_mut(&()).unwrap();
    *guard.value_mut() = String::from("{\"s\":1}");
    guard.finish();

    assert_eq!(
        *log.borrow(),
        vec![
            String::from("TemplateJson"),
            String::from("DataJson"),
            String::from("StateJson"),
        ]
    );
}

struct CountRecorder {
    log: Arc<RefCell<Vec<i32>>>,
}

impl Subscriber for CountRecorder {
    type Sender = ();
    type Args = ItemsChangedEventArgs;

    fn invoke(&self, _sender: &(), args: &ItemsChangedEventArgs) {
        self.log.borrow_mut().push(args.0);
    }
}

#[test]
fn tree_root_and_children_announce_on_their_own_registries() {
    let prop_log = Arc::new(RefCell::new(Vec::new()));
    let items_log = Arc::new(RefCell::new(Vec::new()));
    let tree = TreeContentBuilder::new(String::from("root block"))
        .add_child(String::from("first child"))
        .build::<Recorder, CountRecorder>();
    tree.prop_changed(Arc::new(Recorder { log: prop_log.clone() })).unwrap();
    tree.items_changed(Arc::new(CountRecorder { log: items_log.clone() })).unwrap();

    let root = tree.root().unwrap();
    assert_eq!(root.value(), "root block");
    root.release();

    let mut guard = tree.root_mut(&()).unwrap();
    *guard.value_mut() = String::from("new root");
    guard.finish();
    assert_eq!(*prop_log.borrow(), vec![String::from("RootContent")]);
    assert!(items_log.borrow().is_empty());

    let mut guard = tree.children_mut(&()).unwrap();
    guard.value_mut().push(String::from("second child"));
    guard.value_mut().push(String::from("third child"));
    guard.finish();
    assert_eq!(*items_log.borrow(), vec![3]);

    let children = tree.children().unwrap();
    assert_eq!(children.value().len(), 3);
    children.release();
}
