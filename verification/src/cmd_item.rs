//! Command items: what menus and lists show for a command.
//!
//! A [`CommandItem`] decorates a command of type `C` with the presentation
//! properties a menu needs — icon, title, subtitle, context-menu items —
//! each in its own change-announcing cell, with one registry for their
//! change subscribers.
use vstd::prelude::*;
use std::sync::Arc;
use crate::cmd::NotifyPropChanged;
use crate::ctx_item::ContextItem;
use crate::events::{EventRegistry, PropChangedEventArgs, Subscriber};
use crate::notify::{LockError, NotifyLock, NotifyLockReadGuard, NotifyLockWriteGuard};

verus! {

/// A command decorated with what a menu or list shows for it.
#[verifier::reject_recursive_types(S)]
#[verifier::reject_recursive_types(C)]
pub struct CommandItem<S: Subscriber<Args = PropChangedEventArgs>, C> {
    command: NotifyLock<Arc<C>>,
    icon: NotifyLock<Option<String>>,
    title: NotifyLock<String>,
    subtitle: NotifyLock<String>,
    more: NotifyLock<Vec<ContextItem<S, C>>>,
    event: NotifyLock<EventRegistry<S>>,
}

impl<S: Subscriber<Args = PropChangedEventArgs>, C> NotifyPropChanged<S> for CommandItem<S, C> {
    fn prop_event(&self) -> &NotifyLock<EventRegistry<S>> {
        &self.event
    }
}

impl<S: Subscriber<Args = PropChangedEventArgs>, C> CommandItem<S, C> {
    /// Shared read access to the command this item selects.
    pub fn command(&self) -> (r: Result<NotifyLockReadGuard<'_, Arc<C>>, LockError>)
        ensures
            r matches Err(e) ==> e == LockError::Poisoned,
    {
        self.command.read()
    }

    /// Exclusive write access to the selected command; announces `"Command"`
    /// on finish, after the lock is released.
    pub fn command_mut<'a>(&'a self, sender: &'a S::Sender) -> (r: Result<
        NotifyLockWriteGuard<'a, Arc<C>, impl Fn() + 'a>,
        LockError,
    >)
        ensures
            r matches Ok(g) ==> call_requires(g.notifier_spec(), ()),
            r matches Err(e) ==> e == LockError::Poisoned,
    {
        self.command.write(
            move || {
                let _ = self.emit_prop_changed(sender, "Command");
            },
        )
    }

    /// Shared read access to the item's icon.
    pub fn icon(&self) -> (r: Result<NotifyLockReadGuard<'_, Option<String>>, LockError>)
        ensures
            r matches Err(e) ==> e == LockError::Poisoned,
    {
        self.icon.read()
    }

    /// Exclusive write access to the item's icon; announces `"Icon"` on
    /// finish, after the lock is released.
    pub fn icon_mut<'a>(&'a self, sender: &'a S::Sender) -> (r: Result<
        NotifyLockWriteGuard<'a, Option<String>, impl Fn() + 'a>,
        LockError,
    >)
        ensures
            r matches Ok(g) ==> call_requires(g.notifier_spec(), ()),
            r matches Err(e) ==> e == LockError::Poisoned,
    {
        self.icon.write(
            move || {
                let _ = self.emit_prop_changed(sender, "Icon");
            },
        )
    }

    /// Shared read access to the item's title.
    pub fn title(&self) -> (r: Result<NotifyLockReadGuard<'_, String>, LockError>)
        ensures
            r matches Err(e) ==> e == LockError::Poisoned,
    {
        self.title.read()
    }

    /// Exclusive write access to the item's title; announces `"Title"` on
    /// finish, after the lock is released.
    pub fn title_mut<'a>(&'a self, sender: &'a S::Sender) -> (r: Result<
        NotifyLockWriteGuard<'a, String, impl Fn() + 'a>,
        LockError,
    >)
        ensures
            r matches Ok(g) ==> call_requires(g.notifier_spec(), ()),
            r matches Err(e) ==> e == LockError::Poisoned,
    {
        self.title.write(
            move || {
                let _ = self.emit_prop_changed(sender, "Title");
            },
        )
    }

    /// Shared read access to the item's subtitle.
    pub fn subtitle(&self) -> (r: Result<NotifyLockReadGuard<'_, String>, LockError>)
        ensures
            r matches Err(e) ==> e == LockError::Poisoned,
    {
        self.subtitle.read()
    }

    /// Exclusive write access to the item's subtitle; announces `"Subtitle"`
    /// on finish, after the lock is released.
    pub fn subtitle_mut<'a>(&'a self, sender: &'a S::Sender) -> (r: Result<
        NotifyLockWriteGuard<'a, String, impl Fn() + 'a>,
        LockError,
    >)
        ensures
            r matches Ok(g) ==> call_requires(g.notifier_spec(), ()),
            r matches Err(e) ==> e == LockError::Poisoned,
    {
        self.subtitle.write(
            move || {
                let _ = self.emit_prop_changed(sender, "Subtitle");
            },
        )
    }

    /// Shared read access to the item's context-menu entries.
    pub fn more(&self) -> (r: Result<
        NotifyLockReadGuard<'_, Vec<ContextItem<S, C>>>,
        LockError,
    >)
        ensures
            r matches Err(e) ==> e == LockError::Poisoned,
    {
        self.more.read()
    }

    /// Exclusive write access to the item's context-menu entries; announces
    /// `"MoreCommands"` on finish, after the lock is released.
    pub fn more_mut<'a>(&'a self, sender: &'a S::Sender) -> (r: Result<
        NotifyLockWriteGuard<'a, Vec<ContextItem<S, C>>, impl Fn() + 'a>,
        LockError,
    >)
        ensures
            r matches Ok(g) ==> call_requires(g.notifier_spec(), ()),
            r matches Err(e) ==> e == LockError::Poisoned,
    {
        self.more.write(
            move || {
                let _ = self.emit_prop_changed(sender, "MoreCommands");
            },
        )
    }
}

/// Builder for [`CommandItem`].
#[verifier::reject_recursive_types(S)]
#[verifier::reject_recursive_types(C)]
pub struct CommandItemBuilder<S: Subscriber<Args = PropChangedEventArgs>, C> {
    command: Arc<C>,
    icon: Option<String>,
    title: Option<String>,
    subtitle: Option<String>,
    more: Vec<ContextItem<S, C>>,
}

impl<S: Subscriber<Args = PropChangedEventArgs>, C> CommandItemBuilder<S, C> {
    /// The selected command.
    pub closed spec fn command_spec(self) -> Arc<C> {
        self.command
    }

    /// The icon set so far.
    pub closed spec fn icon_spec(self) -> Option<String> {
        self.icon
    }

    /// The title set so far.
    pub closed spec fn title_spec(self) -> Option<String> {
        self.title
    }

    /// The subtitle set so far.
    pub closed spec fn subtitle_spec(self) -> Option<String> {
        self.subtitle
    }

    /// The context-menu entries added so far.
    pub closed spec fn more_spec(self) -> Seq<ContextItem<S, C>> {
        self.more@
    }

    /// Starts an item selecting `command`: no icon, no texts, no
    /// context-menu entries. An unset title falls back to empty, matching a
    /// host that then shows the command's own name.
    pub fn new(command: Arc<C>) -> (r: Self)
        ensures
            r.command_spec() == command,
            r.icon_spec() is None,
            r.title_spec() is None,
            r.subtitle_spec() is None,
            r.more_spec() == Seq::<ContextItem<S, C>>::empty(),
    {
        let r = CommandItemBuilder {
            command,
            icon: None,
            title: None,
            subtitle: None,
            more: Vec::new(),
        };
        proof {
            assert(r.more_spec() =~= Seq::<ContextItem<S, C>>::empty());
        }
        r
    }

    /// Sets the icon for the item.
    pub fn icon(self, icon: String) -> (r: Self)
        ensures
            r.icon_spec() == Some(icon),
            r.command_spec() == self.command_spec(),
            r.title_spec() == self.title_spec(),
            r.subtitle_spec() == self.subtitle_spec(),
            r.more_spec() == self.more_spec(),
    {
        CommandItemBuilder { icon: Some(icon), ..self }
    }

    /// Sets the title for the item.
    pub fn title(self, title: &str) -> (r: Self)
        ensures
            r.title_spec() matches Some(t) && t@ == title@,
            r.command_spec() == self.command_spec(),
            r.icon_spec() == self.icon_spec(),
            r.subtitle_spec() == self.subtitle_spec(),
            r.more_spec() == self.more_spec(),
    {
        CommandItemBuilder { title: Some(title.to_owned()), ..self }
    }

    /// Sets the subtitle for the item.
    pub fn subtitle(self, subtitle: &str) -> (r: Self)
        ensures
            r.subtitle_spec() matches Some(t) && t@ == subtitle@,
            r.command_spec() == self.command_spec(),
            r.icon_spec() == self.icon_spec(),
            r.title_spec() == self.title_spec(),
            r.more_spec() == self.more_spec(),
    {
        CommandItemBuilder { subtitle: Some(subtitle.to_owned()), ..self }
    }

    /// Replaces the context-menu entries.
    pub fn more(self, more: Vec<ContextItem<S, C>>) -> (r: Self)
        ensures
            r.more_spec() == more@,
            r.command_spec() == self.command_spec(),
            r.icon_spec() == self.icon_spec(),
            r.title_spec() == self.title_spec(),
            r.subtitle_spec() == self.subtitle_spec(),
    {
        CommandItemBuilder { more, ..self }
    }

    /// Appends one context-menu entry.
    pub fn add_context_item(self, item: ContextItem<S, C>) -> (r: Self)
        ensures
            r.more_spec() == self.more_spec().push(item),
            r.command_spec() == self.command_spec(),
            r.icon_spec() == self.icon_spec(),
            r.title_spec() == self.title_spec(),
            r.subtitle_spec() == self.subtitle_spec(),
    {
        let mut more = self.more;
        more.push(item);
        CommandItemBuilder { more, ..self }
    }

    /// Assembles the item: each property in a fresh cell, with an empty
    /// subscriber registry; unset texts become empty.
    pub fn build(self) -> CommandItem<S, C> {
        let title = match self.title {
            Some(t) => t,
            None => String::new(),
        };
        let subtitle = match self.subtitle {
            Some(t) => t,
            None => String::new(),
        };
        CommandItem {
            command: NotifyLock::new(self.command),
            icon: NotifyLock::new(self.icon),
            title: NotifyLock::new(title),
            subtitle: NotifyLock::new(subtitle),
            more: NotifyLock::new(self.more),
            event: NotifyLock::new(EventRegistry::new()),
        }
    }
}

} // verus!
