//! Behavior of the notifying entities: property writes announce themselves,
//! wrappers share their base, and broadcasts run over a snapshot.
use std::cell::{Cell, RefCell};
use std::sync::Arc;

use cmdpal::cmd::{BaseCommand, BaseCommandBuilder, InvokableCommand, NotifyPropChanged};
use cmdpal::cmd_result::{CommandResult, CommandResultKind};
use cmdpal::events::{ItemsChangedEventArgs, PropChangedEventArgs, Subscriber};
use cmdpal::host::{MessageState, ProgressStateBuilder, StatusMessageBuilder};
use cmdpal::page::{BasePage, BasePageBuilder, Color, ContentPage, NotifyItemsChanged};
use cmdpal::ctx_item::{CommandContextItemBuilder, ContextItem};
use cmdpal::cmd_item::CommandItemBuilder;
use cmdpal::details::DetailsBuilder;
use cmdpal::provider::CommandProvider;

/// A property-change subscriber that records what it hears and can,
/// optionally, unsubscribe some token from a target entity while it runs.
struct PropRecorder {
    name: &'static str,
    log: Arc<RefCell<Vec<String>>>,
    unsubscribe: RefCell<Option<(Arc<BaseCommand<PropRecorder>>, i64)>>,
}

impl PropRecorder {
    fn new(name: &'static str, log: &Arc<RefCell<Vec<String>>>) -> Arc<Self> {
        Arc::new(PropRecorder { name, log: log.clone(), unsubscribe: RefCell::new(None) })
    }
}

impl Subscriber for PropRecorder {
    type Sender = ();
    type Args = PropChangedEventArgs;

    fn invoke(&self, _sender: &(), args: &PropChangedEventArgs) {
        self.log.borrow_mut().push(format!("{}:{}", self.name, args.0));
        if let Some((target, token)) = self.unsubscribe.borrow().as_ref() {
            target.remove_prop_changed(*token).unwrap();
        }
    }
}

#[test]
fn finished_name_write_announces_name_to_subscribers() {
    let log = Arc::new(RefCell::new(Vec::new()));
    let command: Arc<BaseCommand<PropRecorder>> =
        Arc::new(BaseCommandBuilder::new().name("before").id("cmd-1").build());
    command.prop_changed(PropRecorder::new("c1", &log)).unwrap();

    let mut guard = command.name_mut(&()).unwrap();
    *guard.value_mut() = String::from("after");
    guard.finish();

    assert_eq!(*log.borrow(), vec![String::from("c1:Name")]);
    let name = command.name().unwrap();
    assert_eq!(name.value(), "after");
    name.release();

    let id = command.id().unwrap();
    assert_eq!(id.value(), "cmd-1");
    id.release();
    let icon = command.icon().unwrap();
    assert!(icon.value().is_none());
    icon.release();
}

#[test]
fn icon_and_id_writes_announce_their_property_names() {
    let log = Arc::new(RefCell::new(Vec::new()));
    let command: Arc<BaseCommand<PropRecorder>> = Arc::new(BaseCommandBuilder::new().build());
    command.prop_changed(PropRecorder::new("c", &log)).unwrap();

    let mut guard = command.id_mut(&()).unwrap();
    *guard.value_mut() = String::from("new-id");
    guard.finish();
    let mut guard = command.icon_mut(&()).unwrap();
    *guard.value_mut() = Some(String::from("pic.png"));
    guard.finish();

    assert_eq!(*log.borrow(), vec![String::from("c:Id"), String::from("c:Icon")]);
}

#[test]
fn broadcast_runs_over_a_snapshot_taken_before_any_callback() {
    let log = Arc::new(RefCell::new(Vec::new()));
    let command: Arc<BaseCommand<PropRecorder>> = Arc::new(BaseCommandBuilder::new().build());

    let c1 = PropRecorder::new("c1", &log);
    let c2 = PropRecorder::new("c2", &log);
    command.prop_changed(c1.clone()).unwrap();
    let t2 = command.prop_changed(c2).unwrap();

    // While it runs, the first callback unsubscribes the second.
    *c1.unsubscribe.borrow_mut() = Some((command.clone(), t2));

    let invoked = command.emit_prop_changed(&(), "Title").unwrap();
    // Snapshot policy: the in-flight broadcast still reaches the second
    // callback, because the subscriber list was copied before any callback
    // ran.
    assert_eq!(invoked, 2);
    assert_eq!(*log.borrow(), vec![String::from("c1:Title"), String::from("c2:Title")]);

    // The unsubscription shows up in the next broadcast.
    *c1.unsubscribe.borrow_mut() = None;
    log.borrow_mut().clear();
    let invoked = command.emit_prop_changed(&(), "Title").unwrap();
    assert_eq!(invoked, 1);
    assert_eq!(*log.borrow(), vec![String::from("c1:Title")]);
}

#[test]
fn invokable_command_shares_its_base_and_forwards_subscriptions() {
    let log = Arc::new(RefCell::new(Vec::new()));
    let base: Arc<BaseCommand<PropRecorder>> =
        Arc::new(BaseCommandBuilder::new().name("shared").build());
    let invoked_flag = Arc::new(Cell::new(0u32));

    let flag = invoked_flag.clone();
    let command = InvokableCommand::new(base.clone(), move |_sender: &()| {
        flag.set(flag.get() + 1);
        Ok(CommandResult::GoHome)
    });

    // Subscribing through the wrapper reaches the shared base's registry.
    command.prop_changed(PropRecorder::new("c", &log)).unwrap();
    let mut guard = base.name_mut(&()).unwrap();
    *guard.value_mut() = String::from("renamed");
    guard.finish();
    assert_eq!(*log.borrow(), vec![String::from("c:Name")]);

    // The wrapper reads the same cell the base writes.
    let name = command.base.name().unwrap();
    assert_eq!(name.value(), "renamed");
    name.release();

    let result = command.invoke(&()).unwrap();
    assert_eq!(result.kind(), CommandResultKind::GoHome);
    assert_eq!(invoked_flag.get(), 1);
}

/// A collection-size subscriber that records the counts it hears.
struct ItemsRecorder {
    log: Arc<RefCell<Vec<i32>>>,
}

impl Subscriber for ItemsRecorder {
    type Sender = ();
    type Args = ItemsChangedEventArgs;

    fn invoke(&self, _sender: &(), args: &ItemsChangedEventArgs) {
        self.log.borrow_mut().push(args.0);
    }
}

#[test]
fn finished_contents_write_announces_the_post_mutation_count() {
    let prop_log = Arc::new(RefCell::new(Vec::new()));
    let items_log = Arc::new(RefCell::new(Vec::new()));
    let command: Arc<BaseCommand<PropRecorder>> =
        Arc::new(BaseCommandBuilder::new().name("page").build());
    let base: Arc<BasePage<PropRecorder>> =
        Arc::new(BasePageBuilder::new(command).title("Demo").loading(false).build());
    let page: ContentPage<PropRecorder, ItemsRecorder, String> =
        ContentPage::new(base, Vec::new());

    page.items_changed(Arc::new(ItemsRecorder { log: items_log.clone() })).unwrap();
    page.prop_changed(PropRecorder::new("c", &prop_log)).unwrap();

    let mut guard = page.contents_mut(&()).unwrap();
    guard.value_mut().push(String::from("first"));
    guard.value_mut().push(String::from("second"));
    guard.value_mut().push(String::from("third"));
    guard.finish();

    assert_eq!(*items_log.borrow(), vec![3]);
    assert!(prop_log.borrow().is_empty());

    let contents = page.contents().unwrap();
    assert_eq!(contents.value().len(), 3);
    contents.release();

    // Removing an items subscriber by a foreign token changes nothing.
    page.remove_items_changed(424_242).unwrap();
    let mut guard = page.contents_mut(&()).unwrap();
    guard.value_mut().clear();
    guard.finish();
    assert_eq!(*items_log.borrow(), vec![3, 0]);
}

#[test]
fn progress_and_status_builders_fill_their_entities() {
    let log = Arc::new(RefCell::new(Vec::new()));
    let progress = ProgressStateBuilder::new()
        .indeterminate(false)
        .percentage(40)
        .build::<PropRecorder>();
    progress.prop_changed(PropRecorder::new("p", &log)).unwrap();

    let flag = progress.indeterminate().unwrap();
    assert!(!*flag.value());
    flag.release();

    let mut guard = progress.percentage_mut(&()).unwrap();
    *guard.value_mut() = 55;
    guard.finish();
    assert_eq!(*log.borrow(), vec![String::from("p:ProgressPercent")]);
    let percent = progress.percentage().unwrap();
    assert_eq!(*percent.value(), 55);
    percent.release();

    let status = StatusMessageBuilder::<PropRecorder>::new()
        .state(MessageState::Warning)
        .message("disk is almost full")
        .build();
    log.borrow_mut().clear();
    status.prop_changed(PropRecorder::new("s", &log)).unwrap();
    let mut guard = status.message_mut(&()).unwrap();
    *guard.value_mut() = String::from("disk is full");
    guard.finish();
    assert_eq!(*log.borrow(), vec![String::from("s:Message")]);

    let state = status.state().unwrap();
    assert_eq!(*state.value(), MessageState::Warning);
    state.release();
    let message = status.message().unwrap();
    assert_eq!(message.value(), "disk is full");
    message.release();
}

#[test]
fn page_property_writes_announce_through_the_base_command() {
    let log = Arc::new(RefCell::new(Vec::new()));
    let command: Arc<BaseCommand<PropRecorder>> =
        Arc::new(BaseCommandBuilder::new().name("cmd").build());
    let page: Arc<BasePage<PropRecorder>> =
        Arc::new(BasePageBuilder::new(command.clone()).title("Start").build());

    // One subscription on the base command hears the page's properties too.
    command.prop_changed(PropRecorder::new("c", &log)).unwrap();

    let title = page.title().unwrap();
    assert_eq!(title.value(), "Start");
    title.release();
    let loading = page.loading().unwrap();
    assert!(*loading.value());
    loading.release();

    let mut guard = page.title_mut(&()).unwrap();
    *guard.value_mut() = String::from("Results");
    guard.finish();
    let mut guard = page.loading_mut(&()).unwrap();
    *guard.value_mut() = false;
    guard.finish();
    let mut guard = page.accent_color_mut(&()).unwrap();
    *guard.value_mut() = Some(Color { r: 1, g: 2, b: 3, a: 255 });
    guard.finish();

    assert_eq!(
        *log.borrow(),
        vec![
            String::from("c:Title"),
            String::from("c:IsLoading"),
            String::from("c:AccentColor"),
        ]
    );
    let color = page.accent_color().unwrap();
    assert_eq!(*color.value(), Some(Color { r: 1, g: 2, b: 3, a: 255 }));
    color.release();
}

#[test]
fn a_provider_lists_its_commands_and_announces_set_changes() {
    let items_log = Arc::new(RefCell::new(Vec::new()));
    let open_cmd: Arc<BaseCommand<PropRecorder>> =
        Arc::new(BaseCommandBuilder::new().name("open").build());
    let provider: CommandProvider<ItemsRecorder, BaseCommand<PropRecorder>, String> =
        CommandProvider::new(
            "demo.provider",
            "Demo",
            None,
            true,
            vec![open_cmd],
            Vec::new(),
        );

    assert_eq!(provider.id, "demo.provider");
    assert_eq!(provider.display_name, "Demo");
    assert!(provider.frozen);
    assert_eq!(provider.top_level().len(), 1);
    assert!(provider.fallbacks().is_empty());

    provider.items_changed(Arc::new(ItemsRecorder { log: items_log.clone() })).unwrap();
    // An unknown count is announced with the sentinel.
    provider.emit_items_changed(&(), -1).unwrap();
    assert_eq!(*items_log.borrow(), vec![-1]);
}

#[test]
fn page_details_and_context_menu_announce_like_the_other_cells() {
    let prop_log = new_log();
    let items_log: Arc<RefCell<Vec<i32>>> = Arc::new(RefCell::new(Vec::new()));
    let command: Arc<BaseCommand<PropRecorder>> =
        Arc::new(BaseCommandBuilder::new().name("page").build());
    let base: Arc<BasePage<PropRecorder>> =
        Arc::new(BasePageBuilder::new(command.clone()).build());
    let page: ContentPage<PropRecorder, ItemsRecorder, String> =
        ContentPage::new(base, Vec::new());
    command.prop_changed(PropRecorder::new("c", &prop_log)).unwrap();
    page.items_changed(Arc::new(ItemsRecorder { log: items_log.clone() })).unwrap();

    // The details pane announces as a named property.
    let details = page.details().unwrap();
    assert!(details.value().is_none());
    details.release();
    let mut guard = page.details_mut(&()).unwrap();
    *guard.value_mut() = Some(DetailsBuilder::new().title("About").build());
    guard.finish();
    assert_eq!(*prop_log.borrow(), vec![String::from("c:Details")]);

    // The context menu announces its post-mutation size.
    let entry = Arc::new(
        CommandContextItemBuilder::new(Arc::new(
            CommandItemBuilder::new(command.clone()).title("Copy").build(),
        )).build(),
    );
    let mut guard = page.context_menu_mut(&()).unwrap();
    guard.value_mut().push(ContextItem::Command(entry));
    guard.finish();
    assert_eq!(*items_log.borrow(), vec![1]);
    let menu = page.context_menu().unwrap();
    assert_eq!(menu.value().len(), 1);
    menu.release();
}

fn new_log() -> Arc<RefCell<Vec<String>>> {
    Arc::new(RefCell::new(Vec::new()))
}
