//! Progress, status, and log records an extension sends toward its host.
use vstd::prelude::*;
use std::sync::Arc;
use crate::cmd::NotifyPropChanged;
use crate::events::{EventRegistry, PropChangedEventArgs, Subscriber};
use crate::notify::{LockError, NotifyLock, NotifyLockReadGuard, NotifyLockWriteGuard};

verus! {

/// The progress of an operation: either indeterminate or a percentage. Both
/// properties live in change-announcing cells, and changes reach the
/// entity's property-change subscribers.
pub struct ProgressState<S: Subscriber<Args = PropChangedEventArgs>> {
    indeterminate: NotifyLock<bool>,
    percentage: NotifyLock<u32>,
    event: NotifyLock<EventRegistry<S>>,
}

impl<S: Subscriber<Args = PropChangedEventArgs>> NotifyPropChanged<S> for ProgressState<S> {
    fn prop_event(&self) -> &NotifyLock<EventRegistry<S>> {
        &self.event
    }
}

impl<S: Subscriber<Args = PropChangedEventArgs>> ProgressState<S> {
    /// Shared read access to whether the progress is indeterminate.
    pub fn indeterminate(&self) -> (r: Result<NotifyLockReadGuard<'_, bool>, LockError>)
        ensures
            r matches Err(e) ==> e == LockError::Poisoned,
    {
        self.indeterminate.read()
    }

    /// Exclusive write access to the indeterminate flag; announces
    /// `"IsIndeterminate"` on finish, after the lock is released.
    pub fn indeterminate_mut<'a>(&'a self, sender: &'a S::Sender) -> (r: Result<
        NotifyLockWriteGuard<'a, bool, impl Fn() + 'a>,
        LockError,
    >)
        ensures
            r matches Ok(g) ==> call_requires(g.notifier_spec(), ()),
            r matches Err(e) ==> e == LockError::Poisoned,
    {
        self.indeterminate.write(
            move || {
                let _ = self.emit_prop_changed(sender, "IsIndeterminate");
            },
        )
    }

    /// Shared read access to the progress percentage.
    pub fn percentage(&self) -> (r: Result<NotifyLockReadGuard<'_, u32>, LockError>)
        ensures
            r matches Err(e) ==> e == LockError::Poisoned,
    {
        self.percentage.read()
    }

    /// Exclusive write access to the progress percentage; announces
    /// `"ProgressPercent"` on finish, after the lock is released.
    pub fn percentage_mut<'a>(&'a self, sender: &'a S::Sender) -> (r: Result<
        NotifyLockWriteGuard<'a, u32, impl Fn() + 'a>,
        LockError,
    >)
        ensures
            r matches Ok(g) ==> call_requires(g.notifier_spec(), ()),
            r matches Err(e) ==> e == LockError::Poisoned,
    {
        self.percentage.write(
            move || {
                let _ = self.emit_prop_changed(sender, "ProgressPercent");
            },
        )
    }
}

/// Builder for [`ProgressState`].
pub struct ProgressStateBuilder {
    indeterminate: bool,
    percentage: u32,
}

impl ProgressStateBuilder {
    /// The indeterminate flag set so far.
    pub closed spec fn indeterminate_spec(self) -> bool {
        self.indeterminate
    }

    /// The percentage set so far.
    pub closed spec fn percentage_spec(self) -> u32 {
        self.percentage
    }

    /// Starts a progress state: indeterminate, at zero percent.
    pub fn new() -> (r: Self)
        ensures
            r.indeterminate_spec(),
            r.percentage_spec() == 0,
    {
        ProgressStateBuilder { indeterminate: true, percentage: 0 }
    }

    /// Sets the indeterminate state of the progress.
    pub fn indeterminate(self, indeterminate: bool) -> (r: Self)
        ensures
            r.indeterminate_spec() == indeterminate,
            r.percentage_spec() == self.percentage_spec(),
    {
        ProgressStateBuilder { indeterminate, ..self }
    }

    /// Sets the progress percentage.
    pub fn percentage(self, percentage: u32) -> (r: Self)
        ensures
            r.percentage_spec() == percentage,
            r.indeterminate_spec() == self.indeterminate_spec(),
    {
        ProgressStateBuilder { percentage, ..self }
    }

    /// Assembles the progress state: each property in a fresh cell, with an
    /// empty subscriber registry.
    pub fn build<S: Subscriber<Args = PropChangedEventArgs>>(self) -> ProgressState<S> {
        ProgressState {
            indeterminate: NotifyLock::new(self.indeterminate),
            percentage: NotifyLock::new(self.percentage),
            event: NotifyLock::new(EventRegistry::new()),
        }
    }
}

impl Default for ProgressStateBuilder {
    fn default() -> (r: Self)
        ensures
            r.indeterminate_spec(),
            r.percentage_spec() == 0,
    {
        ProgressStateBuilder::new()
    }
}

/// How severe a status or log message is.
#[derive(Clone, Copy, PartialEq, Eq, Structural, Debug)]
pub enum MessageState {
    /// Informational.
    Info,
    /// A success report.
    Success,
    /// A warning.
    Warning,
    /// An error report.
    Error,
}

/// Where a status message should appear: scoped to the page that raised it,
/// or to the whole extension.
#[derive(Clone, Copy, PartialEq, Eq, Structural, Debug)]
pub enum StatusContext {
    /// Show with the current page.
    Page,
    /// Show for the extension as a whole.
    Extension,
}

/// A status message shown to the user: severity, text, and an attached
/// progress state, each in its own change-announcing cell.
pub struct StatusMessage<S: Subscriber<Args = PropChangedEventArgs>> {
    state: NotifyLock<MessageState>,
    progress: NotifyLock<Arc<ProgressState<S>>>,
    message: NotifyLock<String>,
    event: NotifyLock<EventRegistry<S>>,
}

impl<S: Subscriber<Args = PropChangedEventArgs>> NotifyPropChanged<S> for StatusMessage<S> {
    fn prop_event(&self) -> &NotifyLock<EventRegistry<S>> {
        &self.event
    }
}

impl<S: Subscriber<Args = PropChangedEventArgs>> StatusMessage<S> {
    /// Shared read access to the message's severity.
    pub fn state(&self) -> (r: Result<NotifyLockReadGuard<'_, MessageState>, LockError>)
        ensures
            r matches Err(e) ==> e == LockError::Poisoned,
    {
        self.state.read()
    }

    /// Exclusive write access to the severity; announces `"State"` on
    /// finish, after the lock is released.
    pub fn state_mut<'a>(&'a self, sender: &'a S::Sender) -> (r: Result<
        NotifyLockWriteGuard<'a, MessageState, impl Fn() + 'a>,
        LockError,
    >)
        ensures
            r matches Ok(g) ==> call_requires(g.notifier_spec(), ()),
            r matches Err(e) ==> e == LockError::Poisoned,
    {
        self.state.write(
            move || {
                let _ = self.emit_prop_changed(sender, "State");
            },
        )
    }

    /// Shared read access to the attached progress state.
    pub fn progress(&self) -> (r: Result<
        NotifyLockReadGuard<'_, Arc<ProgressState<S>>>,
        LockError,
    >)
        ensures
            r matches Err(e) ==> e == LockError::Poisoned,
    {
        self.progress.read()
    }

    /// Exclusive write access to the attached progress state; announces
    /// `"Progress"` on finish, after the lock is released.
    pub fn progress_mut<'a>(&'a self, sender: &'a S::Sender) -> (r: Result<
        NotifyLockWriteGuard<'a, Arc<ProgressState<S>>, impl Fn() + 'a>,
        LockError,
    >)
        ensures
            r matches Ok(g) ==> call_requires(g.notifier_spec(), ()),
            r matches Err(e) ==> e == LockError::Poisoned,
    {
        self.progress.write(
            move || {
                let _ = self.emit_prop_changed(sender, "Progress");
            },
        )
    }

    /// Shared read access to the message text.
    pub fn message(&self) -> (r: Result<NotifyLockReadGuard<'_, String>, LockError>)
        ensures
            r matches Err(e) ==> e == LockError::Poisoned,
    {
        self.message.read()
    }

    /// Exclusive write access to the message text; announces `"Message"` on
    /// finish, after the lock is released.
    pub fn message_mut<'a>(&'a self, sender: &'a S::Sender) -> (r: Result<
        NotifyLockWriteGuard<'a, String, impl Fn() + 'a>,
        LockError,
    >)
        ensures
            r matches Ok(g) ==> call_requires(g.notifier_spec(), ()),
            r matches Err(e) ==> e == LockError::Poisoned,
    {
        self.message.write(
            move || {
                let _ = self.emit_prop_changed(sender, "Message");
            },
        )
    }
}

/// Builder for [`StatusMessage`].
pub struct StatusMessageBuilder<S: Subscriber<Args = PropChangedEventArgs>> {
    state: MessageState,
    progress: Arc<ProgressState<S>>,
    message: String,
}

impl<S: Subscriber<Args = PropChangedEventArgs>> StatusMessageBuilder<S> {
    /// The severity set so far.
    pub closed spec fn state_spec(self) -> MessageState {
        self.state
    }

    /// The message text set so far.
    pub closed spec fn message_spec(self) -> String {
        self.message
    }

    /// Starts an informational status message with empty text and a fresh,
    /// indeterminate progress state.
    pub fn new() -> (r: Self)
        ensures
            r.state_spec() == MessageState::Info,
            r.message_spec()@ == Seq::<char>::empty(),
    {
        StatusMessageBuilder {
            state: MessageState::Info,
            progress: Arc::new(ProgressStateBuilder::new().build()),
            message: String::new(),
        }
    }

    /// Sets the severity of the status message.
    pub fn state(self, state: MessageState) -> (r: Self)
        ensures
            r.state_spec() == state,
            r.message_spec() == self.message_spec(),
    {
        StatusMessageBuilder { state, ..self }
    }

    /// Sets the progress shown with the status message.
    pub fn progress(self, progress: Arc<ProgressState<S>>) -> (r: Self)
        ensures
            r.state_spec() == self.state_spec(),
            r.message_spec() == self.message_spec(),
    {
        StatusMessageBuilder { progress, ..self }
    }

    /// Sets the text of the status message.
    pub fn message(self, message: &str) -> (r: Self)
        ensures
            r.message_spec()@ == message@,
            r.state_spec() == self.state_spec(),
    {
        StatusMessageBuilder { message: message.to_owned(), ..self }
    }

    /// Assembles the status message: each property in a fresh cell, with an
    /// empty subscriber registry.
    pub fn build(self) -> StatusMessage<S> {
        StatusMessage {
            state: NotifyLock::new(self.state),
            progress: NotifyLock::new(self.progress),
            message: NotifyLock::new(self.message),
            event: NotifyLock::new(EventRegistry::new()),
        }
    }
}

/// A log line sent to the host's log file, never shown to the user.
#[derive(Clone, Debug)]
pub struct LogMessage {
    /// The severity of the log line.
    pub state: MessageState,
    /// The text of the log line.
    pub message: String,
}

impl LogMessage {
    /// Creates a log line with the given severity.
    pub fn new(state: MessageState, message: String) -> (r: Self)
        ensures
            r.state == state,
            r.message == message,
    {
        LogMessage { state, message }
    }

    /// Creates an informational log line.
    pub fn info(message: String) -> (r: Self)
        ensures
            r.state == MessageState::Info,
            r.message == message,
    {
        LogMessage::new(MessageState::Info, message)
    }

    /// Creates a success log line.
    pub fn success(message: String) -> (r: Self)
        ensures
            r.state == MessageState::Success,
            r.message == message,
    {
        LogMessage::new(MessageState::Success, message)
    }

    /// Creates a warning log line.
    pub fn warning(message: String) -> (r: Self)
        ensures
            r.state == MessageState::Warning,
            r.message == message,
    {
        LogMessage::new(MessageState::Warning, message)
    }

    /// Creates an error log line.
    pub fn error(message: String) -> (r: Self)
        ensures
            r.state == MessageState::Error,
            r.message == message,
    {
        LogMessage::new(MessageState::Error, message)
    }
}

} // verus!
