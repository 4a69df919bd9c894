//! Behavior of command results, notification records, and the small leaf
//! types.
use std::cell::RefCell;
use std::sync::Arc;

use cmdpal::cmd::BaseCommandBuilder;
use cmdpal::cmd_result::{
    CommandResult, CommandResultKind, ConfirmationArgsBuilder, GoToPageArgs, NavigationMode,
    ToastArgs,
};
use cmdpal::ctx_item::SeparatorContextItem;
use cmdpal::details::DetailsSeparator;
use cmdpal::events::{PropChangedEventArgs, Subscriber};
use cmdpal::filter::{Filter, FilterItem, FilterSeparator};
use cmdpal::host::{LogMessage, MessageState, StatusContext};

struct NoopSubscriber;

impl Subscriber for NoopSubscriber {
    type Sender = ();
    type Args = PropChangedEventArgs;

    fn invoke(&self, _sender: &(), _args: &PropChangedEventArgs) {}
}

#[test]
fn every_result_reports_its_kind() {
    let dismiss: CommandResult<NoopSubscriber> = CommandResult::Dismiss;
    assert_eq!(dismiss.kind(), CommandResultKind::Dismiss);
    let home: CommandResult<NoopSubscriber> = CommandResult::GoHome;
    assert_eq!(home.kind(), CommandResultKind::GoHome);
    let back: CommandResult<NoopSubscriber> = CommandResult::GoBack;
    assert_eq!(back.kind(), CommandResultKind::GoBack);
    let hide: CommandResult<NoopSubscriber> = CommandResult::Hide;
    assert_eq!(hide.kind(), CommandResultKind::Hide);
    let keep: CommandResult<NoopSubscriber> = CommandResult::default();
    assert_eq!(keep.kind(), CommandResultKind::KeepOpen);

    let go = GoToPageArgs::new(NavigationMode::GoBack, String::from("page-7"));
    assert_eq!(go.navigation_mode, NavigationMode::GoBack);
    assert_eq!(go.page_id, "page-7");
    let result: CommandResult<NoopSubscriber> = CommandResult::GoToPage(Arc::new(go));
    assert_eq!(result.kind(), CommandResultKind::GoToPage);

    let toast = ToastArgs::new(String::from("saved"), CommandResult::Dismiss);
    assert_eq!(toast.message, "saved");
    let result: CommandResult<NoopSubscriber> = CommandResult::ShowToast(Arc::new(toast));
    assert_eq!(result.kind(), CommandResultKind::ShowToast);

    let base = Arc::new(BaseCommandBuilder::new().name("danger").build());
    let confirm = ConfirmationArgsBuilder::new(base)
        .title(String::from("Delete?"))
        .description(String::from("This cannot be undone"))
        .is_critical(true)
        .build();
    assert_eq!(confirm.title, "Delete?");
    assert_eq!(confirm.description, "This cannot be undone");
    assert!(confirm.is_primary_command_critical);
    let result: CommandResult<NoopSubscriber> = CommandResult::Confirm(Arc::new(confirm));
    assert_eq!(result.kind(), CommandResultKind::Confirm);
}

#[test]
fn navigation_mode_defaults_to_push() {
    assert_eq!(NavigationMode::default(), NavigationMode::Push);
}

#[test]
fn log_messages_carry_their_severity() {
    assert_eq!(LogMessage::info(String::from("i")).state, MessageState::Info);
    assert_eq!(LogMessage::success(String::from("s")).state, MessageState::Success);
    assert_eq!(LogMessage::warning(String::from("w")).state, MessageState::Warning);
    let err = LogMessage::error(String::from("boom"));
    assert_eq!(err.state, MessageState::Error);
    assert_eq!(err.message, "boom");
    let _ = StatusContext::Page;
    let _ = StatusContext::Extension;
}

#[test]
fn separators_carry_no_data() {
    assert_eq!(SeparatorContextItem::new(), SeparatorContextItem);
    assert_eq!(DetailsSeparator::new(), DetailsSeparator);
    let item = FilterItem::Separator(FilterSeparator);
    match item {
        FilterItem::Separator(_) => {}
        FilterItem::Filter(_) => panic!("expected a separator"),
    }
    let filter = FilterItem::Filter(Filter {
        icon: None,
        id: String::from("all"),
        name: String::from("All"),
    });
    match filter {
        FilterItem::Filter(f) => {
            assert_eq!(f.id, "all");
            assert_eq!(f.name, "All");
            assert!(f.icon.is_none());
        }
        FilterItem::Separator(_) => panic!("expected a filter"),
    }
}

/// Records what it hears; used to check that record payloads arrive intact.
struct ArgsRecorder {
    log: Arc<RefCell<Vec<String>>>,
}

impl Subscriber for ArgsRecorder {
    type Sender = ();
    type Args = PropChangedEventArgs;

    fn invoke(&self, _sender: &(), args: &PropChangedEventArgs) {
        self.log.borrow_mut().push(args.0.clone());
    }
}

#[test]
fn prop_changed_records_carry_the_property_name() {
    let record = PropChangedEventArgs::from(String::from("Title"));
    assert_eq!(record.0, "Title");
    let log = Arc::new(RefCell::new(Vec::new()));
    let mut registry = cmdpal::events::EventRegistry::new();
    registry.add(Arc::new(ArgsRecorder { log: log.clone() })).unwrap();
    registry.broadcast(&(), &record);
    assert_eq!(*log.borrow(), vec![String::from("Title")]);
}
