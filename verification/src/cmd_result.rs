//! What invoking a command tells the host to do next.
use vstd::prelude::*;
use std::sync::Arc;
use crate::cmd::BaseCommand;
use crate::events::{PropChangedEventArgs, Subscriber};

verus! {

/// How the host should move between pages when a command result asks for
/// navigation.
#[derive(Clone, Copy, PartialEq, Eq, Structural, Debug)]
pub enum NavigationMode {
    /// Push the target page onto the navigation stack.
    Push,
    /// Navigate back one page.
    GoBack,
    /// Navigate back to the host's home page.
    GoHome,
}

impl Default for NavigationMode {
    fn default() -> (r: Self)
        ensures
            r == NavigationMode::Push,
    {
        NavigationMode::Push
    }
}

/// Arguments for a result that navigates to another page.
pub struct GoToPageArgs {
    /// How the host should reach the page.
    pub navigation_mode: NavigationMode,
    /// The identifier of the page to show.
    pub page_id: String,
}

impl GoToPageArgs {
    /// Creates navigation arguments for `page_id`.
    pub fn new(navigation_mode: NavigationMode, page_id: String) -> (r: Self)
        ensures
            r.navigation_mode == navigation_mode,
            r.page_id == page_id,
    {
        GoToPageArgs { navigation_mode, page_id }
    }
}

/// Arguments for a result that shows a toast message, then applies a further
/// result.
pub struct ToastArgs<S: Subscriber<Args = PropChangedEventArgs>> {
    /// The text the toast shows.
    pub message: String,
    /// What the host should do after showing the toast.
    pub result: CommandResult<S>,
}

impl<S: Subscriber<Args = PropChangedEventArgs>> ToastArgs<S> {
    /// Creates toast arguments carrying `message` and the follow-up result.
    pub fn new(message: String, result: CommandResult<S>) -> (r: Self)
        ensures
            r.message == message,
            r.result == result,
    {
        ToastArgs { message, result }
    }
}

/// Arguments for a result that asks the user to confirm before a command
/// runs.
pub struct ConfirmationArgs<S: Subscriber<Args = PropChangedEventArgs>> {
    /// The confirmation dialog's title.
    pub title: String,
    /// The confirmation dialog's body text.
    pub description: String,
    /// The command to run when the user confirms.
    pub primary_command: Arc<BaseCommand<S>>,
    /// Whether confirming is destructive enough to mark prominently.
    pub is_primary_command_critical: bool,
}

/// Builder for [`ConfirmationArgs`].
pub struct ConfirmationArgsBuilder<S: Subscriber<Args = PropChangedEventArgs>> {
    title: String,
    description: String,
    primary_command: Arc<BaseCommand<S>>,
    is_primary_command_critical: bool,
}

impl<S: Subscriber<Args = PropChangedEventArgs>> ConfirmationArgsBuilder<S> {
    /// The title set so far.
    pub closed spec fn title_spec(self) -> String {
        self.title
    }

    /// The description set so far.
    pub closed spec fn description_spec(self) -> String {
        self.description
    }

    /// The primary command the builder was created with.
    pub closed spec fn primary_command_spec(self) -> Arc<BaseCommand<S>> {
        self.primary_command
    }

    /// Whether the primary command is marked critical.
    pub closed spec fn is_critical_spec(self) -> bool {
        self.is_primary_command_critical
    }

    /// Starts a confirmation for `primary_command`: empty texts, not
    /// critical.
    pub fn new(primary_command: Arc<BaseCommand<S>>) -> (r: Self)
        ensures
            r.title_spec()@ == Seq::<char>::empty(),
            r.description_spec()@ == Seq::<char>::empty(),
            r.primary_command_spec() == primary_command,
            !r.is_critical_spec(),
    {
        ConfirmationArgsBuilder {
            title: String::new(),
            description: String::new(),
            primary_command,
            is_primary_command_critical: false,
        }
    }

    /// Sets the dialog title.
    pub fn title(self, title: String) -> (r: Self)
        ensures
            r.title_spec() == title,
            r.description_spec() == self.description_spec(),
            r.primary_command_spec() == self.primary_command_spec(),
            r.is_critical_spec() == self.is_critical_spec(),
    {
        ConfirmationArgsBuilder { title, ..self }
    }

    /// Sets the dialog body text.
    pub fn description(self, description: String) -> (r: Self)
        ensures
            r.description_spec() == description,
            r.title_spec() == self.title_spec(),
            r.primary_command_spec() == self.primary_command_spec(),
            r.is_critical_spec() == self.is_critical_spec(),
    {
        ConfirmationArgsBuilder { description, ..self }
    }

    /// Marks the primary command as critical or not.
    pub fn is_critical(self, is_critical: bool) -> (r: Self)
        ensures
            r.is_critical_spec() == is_critical,
            r.title_spec() == self.title_spec(),
            r.description_spec() == self.description_spec(),
            r.primary_command_spec() == self.primary_command_spec(),
    {
        ConfirmationArgsBuilder { is_primary_command_critical: is_critical, ..self }
    }

    /// Assembles the confirmation arguments.
    pub fn build(self) -> (r: ConfirmationArgs<S>)
        ensures
            r.title == self.title_spec(),
            r.description == self.description_spec(),
            r.primary_command == self.primary_command_spec(),
            r.is_primary_command_critical == self.is_critical_spec(),
    {
        ConfirmationArgs {
            title: self.title,
            description: self.description,
            primary_command: self.primary_command,
            is_primary_command_critical: self.is_primary_command_critical,
        }
    }
}

/// The result of invoking a command: what the host should do once the
/// command returns.
pub enum CommandResult<S: Subscriber<Args = PropChangedEventArgs>> {
    /// Dismiss the palette.
    Dismiss,
    /// Navigate to the host's home page.
    GoHome,
    /// Navigate back one page.
    GoBack,
    /// Hide the palette window.
    Hide,
    /// Keep the palette open where it is.
    KeepOpen,
    /// Navigate to another page.
    GoToPage(Arc<GoToPageArgs>),
    /// Show a toast, then apply the toast's own follow-up result.
    ShowToast(Arc<ToastArgs<S>>),
    /// Ask the user to confirm before running a further command.
    Confirm(Arc<ConfirmationArgs<S>>),
}

/// The bare kind of a [`CommandResult`], with the payload stripped.
#[derive(Clone, Copy, PartialEq, Eq, Structural, Debug)]
pub enum CommandResultKind {
    /// See [`CommandResult::Dismiss`].
    Dismiss,
    /// See [`CommandResult::GoHome`].
    GoHome,
    /// See [`CommandResult::GoBack`].
    GoBack,
    /// See [`CommandResult::Hide`].
    Hide,
    /// See [`CommandResult::KeepOpen`].
    KeepOpen,
    /// See [`CommandResult::GoToPage`].
    GoToPage,
    /// See [`CommandResult::ShowToast`].
    ShowToast,
    /// See [`CommandResult::Confirm`].
    Confirm,
}

impl<S: Subscriber<Args = PropChangedEventArgs>> CommandResult<S> {
    /// The kind of this result.
    pub fn kind(&self) -> (k: CommandResultKind)
        ensures
            k == CommandResultKind::Dismiss <==> self is Dismiss,
            k == CommandResultKind::GoHome <==> self is GoHome,
            k == CommandResultKind::GoBack <==> self is GoBack,
            k == CommandResultKind::Hide <==> self is Hide,
            k == CommandResultKind::KeepOpen <==> self is KeepOpen,
            k == CommandResultKind::GoToPage <==> self is GoToPage,
            k == CommandResultKind::ShowToast <==> self is ShowToast,
            k == CommandResultKind::Confirm <==> self is Confirm,
    {
        match self {
            CommandResult::Dismiss => CommandResultKind::Dismiss,
            CommandResult::GoHome => CommandResultKind::GoHome,
            CommandResult::GoBack => CommandResultKind::GoBack,
            CommandResult::Hide => CommandResultKind::Hide,
            CommandResult::KeepOpen => CommandResultKind::KeepOpen,
            CommandResult::GoToPage(_) => CommandResultKind::GoToPage,
            CommandResult::ShowToast(_) => CommandResultKind::ShowToast,
            CommandResult::Confirm(_) => CommandResultKind::Confirm,
        }
    }
}

impl<S: Subscriber<Args = PropChangedEventArgs>> Default for CommandResult<S> {
    fn default() -> (r: Self)
        ensures
            r is KeepOpen,
    {
        CommandResult::KeepOpen
    }
}

} // verus!
