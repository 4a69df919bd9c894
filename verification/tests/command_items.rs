//! Behavior of command items and context items: shared bases, and wrapper
//! properties announcing through the base's registry.
use std::cell::RefCell;
use std::sync::Arc;

use cmdpal::cmd::{BaseCommand, BaseCommandBuilder, NotifyPropChanged};
use cmdpal::cmd_item::{CommandItem, CommandItemBuilder};
use cmdpal::ctx_item::{
    CommandContextItem, CommandContextItemBuilder, ContextItem, KeyChord, SeparatorContextItem,
};
use cmdpal::events::{PropChangedEventArgs, Subscriber};
use cmdpal::fallback::fallback_command_item_builder;
use cmdpal::notify::LockError;

struct Recorder {
    log: Arc<RefCell<Vec<String>>>,
}

impl Recorder {
    fn new(log: &Arc<RefCell<Vec<String>>>) -> Arc<Self> {
        Arc::new(Recorder { log: log.clone() })
    }
}

impl Subscriber for Recorder {
    type Sender = ();
    type Args = PropChangedEventArgs;

    fn invoke(&self, _sender: &(), args: &PropChangedEventArgs) {
        self.log.borrow_mut().push(args.0.clone());
    }
}

type Item = CommandItem<Recorder, BaseCommand<Recorder>>;

fn demo_item() -> Item {
    let command: Arc<BaseCommand<Recorder>> =
        Arc::new(BaseCommandBuilder::new().name("open").build());
    CommandItemBuilder::new(command)
        .title("Open")
        .subtitle("Opens the document")
        .icon(String::from("open.png"))
        .build()
}

#[test]
fn item_property_writes_announce_their_names() {
    let log = Arc::new(RefCell::new(Vec::new()));
    let item = demo_item();
    item.prop_changed(Recorder::new(&log)).unwrap();

    let title = item.title().unwrap();
    assert_eq!(title.value(), "Open");
    title.release();
    let subtitle = item.subtitle().unwrap();
    assert_eq!(subtitle.value(), "Opens the document");
    subtitle.release();
    let icon = item.icon().unwrap();
    assert_eq!(icon.value().as_deref(), Some("open.png"));
    icon.release();

    let mut guard = item.title_mut(&()).unwrap();
    *guard.value_mut() = String::from("Open file");
    guard.finish();
    let mut guard = item.subtitle_mut(&()).unwrap();
    *guard.value_mut() = String::from("Opens the file");
    guard.finish();

    assert_eq!(*log.borrow(), vec![String::from("Title"), String::from("Subtitle")]);
}

#[test]
fn unset_texts_fall_back_to_empty() {
    let command: Arc<BaseCommand<Recorder>> = Arc::new(BaseCommandBuilder::new().build());
    let item: Item = CommandItemBuilder::new(command).build();
    let title = item.title().unwrap();
    assert_eq!(title.value(), "");
    title.release();
    let subtitle = item.subtitle().unwrap();
    assert_eq!(subtitle.value(), "");
    subtitle.release();
}

#[test]
fn context_item_properties_announce_through_the_shared_base() {
    let log = Arc::new(RefCell::new(Vec::new()));
    let base: Arc<Item> = Arc::new(demo_item());
    let context: CommandContextItem<Recorder, BaseCommand<Recorder>> =
        CommandContextItemBuilder::new(base.clone())
            .critical(true)
            .shortcut(KeyChord { modifiers: 1, vkey: 65, scan_code: 0 })
            .build();

    // One subscription on the base hears both the base's and the wrapper's
    // properties.
    base.prop_changed(Recorder::new(&log)).unwrap();

    let critical = context.critical().unwrap();
    assert!(*critical.value());
    critical.release();
    let shortcut = context.shortcut().unwrap();
    assert_eq!(shortcut.value().map(|k| k.vkey), Some(65));
    shortcut.release();

    let mut guard = context.critical_mut(&()).unwrap();
    *guard.value_mut() = false;
    guard.finish();
    let mut guard = base.title_mut(&()).unwrap();
    *guard.value_mut() = String::from("renamed");
    guard.finish();
    let mut guard = context.shortcut_mut(&()).unwrap();
    *guard.value_mut() = None;
    guard.finish();

    assert_eq!(
        *log.borrow(),
        vec![
            String::from("Critical"),
            String::from("Title"),
            String::from("RequestedShortcut"),
        ]
    );
}

#[test]
fn context_menus_hold_separators_and_commands() {
    let log = Arc::new(RefCell::new(Vec::new()));
    let base: Arc<Item> = Arc::new(demo_item());
    let entry = Arc::new(CommandContextItemBuilder::new(base.clone()).build());
    let item: Item = {
        let command: Arc<BaseCommand<Recorder>> = Arc::new(BaseCommandBuilder::new().build());
        CommandItemBuilder::new(command)
            .add_context_item(ContextItem::Separator(SeparatorContextItem::new()))
            .add_context_item(ContextItem::Command(entry))
            .build()
    };
    item.prop_changed(Recorder::new(&log)).unwrap();

    let more = item.more().unwrap();
    assert_eq!(more.value().len(), 2);
    match &more.value()[0] {
        ContextItem::Separator(_) => {}
        ContextItem::Command(_) => panic!("expected the separator first"),
    }
    more.release();

    let mut guard = item.more_mut(&()).unwrap();
    guard.value_mut().pop();
    guard.finish();
    assert_eq!(*log.borrow(), vec![String::from("MoreCommands")]);
}

#[test]
fn fallback_items_follow_the_query_and_announce_their_title() {
    let log = Arc::new(RefCell::new(Vec::new()));
    let queries = Arc::new(RefCell::new(Vec::new()));
    let base: Arc<Item> = Arc::new(demo_item());

    let seen = queries.clone();
    let fallback = fallback_command_item_builder(base.clone())
        .title("Search the web")
        .handler(move |query: String| {
            if query == "reject" {
                return Err(LockError::Poisoned);
            }
            seen.borrow_mut().push(query);
            Ok(())
        })
        .build();
    base.prop_changed(Recorder::new(&log)).unwrap();

    let title = fallback.title().unwrap();
    assert_eq!(title.value(), "Search the web");
    title.release();

    fallback.update_query("weather").unwrap();
    fallback.update_query("news").unwrap();
    assert_eq!(fallback.update_query("reject"), Err(LockError::Poisoned));
    assert_eq!(*queries.borrow(), vec![String::from("weather"), String::from("news")]);

    // The wrapper's title announces through the shared base's registry.
    let mut guard = fallback.title_mut(&()).unwrap();
    *guard.value_mut() = String::from("Search for weather");
    guard.finish();
    assert_eq!(*log.borrow(), vec![String::from("DisplayTitle")]);
}

#[test]
fn the_default_fallback_handler_ignores_every_query() {
    let base: Arc<Item> = Arc::new(demo_item());
    let fallback = fallback_command_item_builder(base).build();
    assert!(fallback.update_query("anything").is_ok());
    let title = fallback.title().unwrap();
    assert_eq!(title.value(), "");
    title.release();
}
