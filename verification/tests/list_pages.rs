//! Behavior of list items and list pages: decorated entries, counted item
//! writes, search text, and paging.
use std::cell::RefCell;
use std::sync::Arc;

use cmdpal::cmd::{BaseCommand, BaseCommandBuilder, NotifyPropChanged};
use cmdpal::cmd_item::{CommandItem, CommandItemBuilder};
use cmdpal::details::{DetailsBuilder, TagBuilder};
use cmdpal::events::{ItemsChangedEventArgs, PropChangedEventArgs, Subscriber};
use cmdpal::filter::{filters_builder, Filter};
use cmdpal::list::{list_page_builder, DynamicListPage, ListItem, ListItemBuilder};
use cmdpal::page::{BasePage, BasePageBuilder, NotifyItemsChanged};

struct PropRecorder {
    log: Arc<RefCell<Vec<String>>>,
}

impl Subscriber for PropRecorder {
    type Sender = ();
    type Args = PropChangedEventArgs;

    fn invoke(&self, _sender: &(), args: &PropChangedEventArgs) {
        self.log.borrow_mut().push(args.0.clone());
    }
}

struct ItemsRecorder {
    log: Arc<RefCell<Vec<i32>>>,
}

impl Subscriber for ItemsRecorder {
    type Sender = ();
    type Args = ItemsChangedEventArgs;

    fn invoke(&self, _sender: &(), args: &ItemsChangedEventArgs) {
        self.log.borrow_mut().push(args.0);
    }
}

type Cmd = BaseCommand<PropRecorder>;
type Item = ListItem<PropRecorder, Cmd>;

fn command_item(name: &str) -> Arc<CommandItem<PropRecorder, Cmd>> {
    let command: Arc<Cmd> = Arc::new(BaseCommandBuilder::new().name(name).build());
    Arc::new(CommandItemBuilder::new(command).title(name).build())
}

fn entry(name: &str) -> Arc<Item> {
    Arc::new(ListItemBuilder::new(command_item(name)).build())
}

#[test]
fn list_entries_announce_their_own_properties_through_the_shared_base() {
    let log = Arc::new(RefCell::new(Vec::new()));
    let base = command_item("open");
    let item: Item = ListItemBuilder::new(base.clone())
        .section("Files")
        .suggestion("open ")
        .add_tag(TagBuilder::new().text("new").build())
        .details(DetailsBuilder::new().title("Open").body("Opens a file").build())
        .build();
    base.prop_changed(Arc::new(PropRecorder { log: log.clone() })).unwrap();

    let section = item.section().unwrap();
    assert_eq!(section.value(), "Files");
    section.release();
    let suggestion = item.suggestion().unwrap();
    assert_eq!(suggestion.value(), "open ");
    suggestion.release();
    let tags = item.tags().unwrap();
    assert_eq!(tags.value().len(), 1);
    assert_eq!(tags.value()[0].text, "new");
    tags.release();
    let details = item.details().unwrap();
    assert_eq!(details.value().as_ref().map(|d| d.title.as_str()), Some("Open"));
    details.release();

    let mut guard = item.section_mut(&()).unwrap();
    *guard.value_mut() = String::from("Recent");
    guard.finish();
    let mut guard = item.suggestion_mut(&()).unwrap();
    *guard.value_mut() = String::from("open recent ");
    guard.finish();
    let mut guard = item.tags_mut(&()).unwrap();
    guard.value_mut().clear();
    guard.finish();
    let mut guard = item.details_mut(&()).unwrap();
    *guard.value_mut() = None;
    guard.finish();

    assert_eq!(
        *log.borrow(),
        vec![
            String::from("Section"),
            String::from("TextToSuggest"),
            String::from("Tags"),
            String::from("Details"),
        ]
    );
}

#[test]
fn item_collection_writes_announce_the_post_mutation_count() {
    let prop_log = Arc::new(RefCell::new(Vec::new()));
    let items_log = Arc::new(RefCell::new(Vec::new()));
    let command: Arc<Cmd> = Arc::new(BaseCommandBuilder::new().name("list").build());
    let base: Arc<BasePage<PropRecorder>> =
        base_page(command.clone(), "A list");
    let page = list_page_builder::<PropRecorder, Cmd>(base)
        .add_item(entry("first"))
        .placeholder("type to search")
        .build::<ItemsRecorder>();

    command.prop_changed(Arc::new(PropRecorder { log: prop_log.clone() })).unwrap();
    page.items_changed(Arc::new(ItemsRecorder { log: items_log.clone() })).unwrap();

    let mut guard = page.items_mut(&()).unwrap();
    guard.value_mut().push(entry("second"));
    guard.value_mut().push(entry("third"));
    guard.finish();
    assert_eq!(*items_log.borrow(), vec![3]);

    let items = page.items().unwrap();
    assert_eq!(items.value().len(), 3);
    items.release();

    // Page-level properties announce through the base page's registry.
    let mut guard = page.search_text_mut(&()).unwrap();
    *guard.value_mut() = String::from("sec");
    guard.finish();
    let mut guard = page.show_details_mut(&()).unwrap();
    *guard.value_mut() = true;
    guard.finish();
    assert_eq!(
        *prop_log.borrow(),
        vec![String::from("SearchText"), String::from("ShowDetails")]
    );

    let placeholder = page.placeholder().unwrap();
    assert_eq!(placeholder.value(), "type to search");
    placeholder.release();
}

fn base_page(command: Arc<Cmd>, title: &str) -> Arc<BasePage<PropRecorder>> {
    Arc::new(BasePageBuilder::new(command).title(title).build())
}

#[test]
fn loading_more_runs_the_paging_callback_and_updates_the_flag() {
    let prop_log = Arc::new(RefCell::new(Vec::new()));
    let command: Arc<Cmd> = Arc::new(BaseCommandBuilder::new().name("list").build());
    let base = base_page(command.clone(), "Pages");
    let calls = Arc::new(RefCell::new(0u32));
    let counter = calls.clone();
    let page = list_page_builder::<PropRecorder, Cmd>(base)
        .more_fn(move || {
            *counter.borrow_mut() += 1;
            Ok(false)
        })
        .build::<ItemsRecorder>();
    command.prop_changed(Arc::new(PropRecorder { log: prop_log.clone() })).unwrap();

    // The builder marked the page as having more to load.
    let flag = page.has_more().unwrap();
    assert!(*flag.value());
    flag.release();

    let more = page.load_more(&()).unwrap();
    assert!(!more);
    assert_eq!(*calls.borrow(), 1);
    assert_eq!(*prop_log.borrow(), vec![String::from("HasMoreItems")]);
    let flag = page.has_more().unwrap();
    assert!(!*flag.value());
    flag.release();
}

#[test]
fn a_page_without_a_paging_callback_never_has_more() {
    let command: Arc<Cmd> = Arc::new(BaseCommandBuilder::new().build());
    let base = base_page(command, "Plain");
    let page = list_page_builder::<PropRecorder, Cmd>(base).build::<ItemsRecorder>();
    let flag = page.has_more().unwrap();
    assert!(!*flag.value());
    flag.release();
    assert_eq!(page.load_more(&()).unwrap(), false);
}

#[test]
fn typing_runs_the_update_callback_with_old_and_new_text() {
    let transitions = Arc::new(RefCell::new(Vec::new()));
    let command: Arc<Cmd> = Arc::new(BaseCommandBuilder::new().build());
    let base = base_page(command.clone(), "Search");
    let list = Arc::new(
        list_page_builder::<PropRecorder, Cmd>(base).build::<ItemsRecorder>(),
    );

    let log = transitions.clone();
    let dynamic = DynamicListPage::new(list.clone(), move |old: String, new: String| {
        log.borrow_mut().push(format!("{}=>{}", old, new));
        Ok(())
    });

    dynamic.set_search_text("a").unwrap();
    dynamic.set_search_text("ab").unwrap();

    assert_eq!(
        *transitions.borrow(),
        vec![String::from("=>a"), String::from("a=>ab")]
    );
    // The host's own typing is not announced back to it.
    let text = list.search_text().unwrap();
    assert_eq!(text.value(), "ab");
    text.release();
}

#[test]
fn the_filter_list_rides_in_its_own_announcing_cell() {
    let prop_log = Arc::new(RefCell::new(Vec::new()));
    let command: Arc<Cmd> = Arc::new(BaseCommandBuilder::new().build());
    let base = base_page(command.clone(), "Filtered");
    let filters = Arc::new(
        filters_builder()
            .add_filter(Filter {
                icon: None,
                id: String::from("all"),
                name: String::from("All"),
            })
            .build(),
    );
    let page = list_page_builder::<PropRecorder, Cmd>(base)
        .filters(filters.clone())
        .build::<ItemsRecorder>();
    command.prop_changed(Arc::new(PropRecorder { log: prop_log.clone() })).unwrap();

    let held = page.filters().unwrap();
    assert!(held.value().is_some());
    held.release();

    // Replacing the filter list announces "Filters".
    let mut guard = page.filters_mut(&()).unwrap();
    *guard.value_mut() = None;
    guard.finish();
    assert_eq!(*prop_log.borrow(), vec![String::from("Filters")]);

    // The shared filter object still works through its own handle.
    filters.set_current_filter_id("all").unwrap();
    assert_eq!(filters.current_filter_id().unwrap().as_deref(), Some("all"));
}

#[test]
fn grid_properties_ride_in_their_own_announcing_cell() {
    // The page never reads inside the grid payload, so the host's own
    // tile-size type — floating point and all — can ride through it.
    struct TileSize {
        width: f32,
        height: f32,
    }

    let prop_log = Arc::new(RefCell::new(Vec::new()));
    let command: Arc<Cmd> = Arc::new(BaseCommandBuilder::new().build());
    let base = base_page(command.clone(), "Grid");
    let page = list_page_builder::<PropRecorder, Cmd>(base)
        .grid_properties(Arc::new(TileSize { width: 150.0, height: 150.0 }))
        .build::<ItemsRecorder>();
    command.prop_changed(Arc::new(PropRecorder { log: prop_log.clone() })).unwrap();

    let held = page.grid_properties().unwrap();
    match held.value() {
        Some(tile) => {
            assert_eq!(tile.width, 150.0);
            assert_eq!(tile.height, 150.0);
        }
        None => panic!("the grid payload must be held"),
    }
    held.release();

    let mut guard = page.grid_properties_mut(&()).unwrap();
    *guard.value_mut() = None;
    guard.finish();
    assert_eq!(*prop_log.borrow(), vec![String::from("GridProperties")]);
}
