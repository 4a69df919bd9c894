//! Items shown in a command's context menu.
//!
//! A [`CommandContextItem`] is the delegation pattern at its smallest: it
//! wraps a shared [`CommandItem`] and adds two properties of its own. Its
//! own properties announce themselves through the base's registry, so one
//! subscription on the base hears the whole composed entity.
use vstd::prelude::*;
use std::sync::Arc;
use crate::cmd::NotifyPropChanged;
use crate::cmd_item::CommandItem;
use crate::events::{EventRegistry, PropChangedEventArgs, Subscriber};
use crate::notify::{LockError, NotifyLock, NotifyLockReadGuard, NotifyLockWriteGuard};

verus! {

/// A visual separator between groups of context-menu items; it carries no
/// data and reacts to nothing.
#[derive(Clone, Copy, PartialEq, Eq, Structural, Debug)]
pub struct SeparatorContextItem;

impl SeparatorContextItem {
    /// Creates a separator.
    pub fn new() -> (r: Self)
        ensures
            r == SeparatorContextItem,
    {
        SeparatorContextItem
    }
}

/// A keyboard shortcut: a modifier set with a virtual key and its scan code.
#[derive(Clone, Copy, PartialEq, Eq, Structural, Debug)]
pub struct KeyChord {
    /// The modifier keys held, as the host encodes them.
    pub modifiers: i32,
    /// The virtual key pressed.
    pub vkey: i32,
    /// The scan code of the key pressed.
    pub scan_code: i32,
}

/// One entry of a context menu: either a separator or a command item.
#[verifier::reject_recursive_types(S)]
#[verifier::reject_recursive_types(C)]
pub enum ContextItem<S: Subscriber<Args = PropChangedEventArgs>, C> {
    /// A visual separator.
    Separator(SeparatorContextItem),
    /// A command shown in the context menu.
    Command(Arc<CommandContextItem<S, C>>),
}

/// A command item shown in a context menu, with two extra properties: whether
/// it is critical, and its requested shortcut. The wrapped base is shared, so
/// mutations through either handle are seen by both, and this item's own
/// property changes are announced through the base's registry.
#[verifier::reject_recursive_types(S)]
#[verifier::reject_recursive_types(C)]
pub struct CommandContextItem<S: Subscriber<Args = PropChangedEventArgs>, C> {
    /// The shared command item this context item decorates.
    pub base: Arc<CommandItem<S, C>>,
    critical: NotifyLock<bool>,
    shortcut: NotifyLock<Option<KeyChord>>,
}

impl<S: Subscriber<Args = PropChangedEventArgs>, C> NotifyPropChanged<S> for CommandContextItem<
    S,
    C,
> {
    fn prop_event(&self) -> &NotifyLock<EventRegistry<S>> {
        self.base.prop_event()
    }
}

impl<S: Subscriber<Args = PropChangedEventArgs>, C> CommandContextItem<S, C> {
    /// The shared base command item, as seen by specifications.
    pub closed spec fn base_spec(self) -> Arc<CommandItem<S, C>> {
        self.base
    }

    /// Shared read access to whether the command is critical.
    pub fn critical(&self) -> (r: Result<NotifyLockReadGuard<'_, bool>, LockError>)
        ensures
            r matches Err(e) ==> e == LockError::Poisoned,
    {
        self.critical.read()
    }

    /// Exclusive write access to the critical flag; announces `"Critical"`
    /// through the shared base's registry on finish, after the lock is
    /// released.
    pub fn critical_mut<'a>(&'a self, sender: &'a S::Sender) -> (r: Result<
        NotifyLockWriteGuard<'a, bool, impl Fn() + 'a>,
        LockError,
    >)
        ensures
            r matches Ok(g) ==> call_requires(g.notifier_spec(), ()),
            r matches Err(e) ==> e == LockError::Poisoned,
    {
        self.critical.write(
            move || {
                let _ = self.emit_prop_changed(sender, "Critical");
            },
        )
    }

    /// Shared read access to the requested shortcut.
    pub fn shortcut(&self) -> (r: Result<NotifyLockReadGuard<'_, Option<KeyChord>>, LockError>)
        ensures
            r matches Err(e) ==> e == LockError::Poisoned,
    {
        self.shortcut.read()
    }

    /// Exclusive write access to the requested shortcut; announces
    /// `"RequestedShortcut"` through the shared base's registry on finish,
    /// after the lock is released.
    pub fn shortcut_mut<'a>(&'a self, sender: &'a S::Sender) -> (r: Result<
        NotifyLockWriteGuard<'a, Option<KeyChord>, impl Fn() + 'a>,
        LockError,
    >)
        ensures
            r matches Ok(g) ==> call_requires(g.notifier_spec(), ()),
            r matches Err(e) ==> e == LockError::Poisoned,
    {
        self.shortcut.write(
            move || {
                let _ = self.emit_prop_changed(sender, "RequestedShortcut");
            },
        )
    }
}

/// Builder for [`CommandContextItem`].
#[verifier::reject_recursive_types(S)]
#[verifier::reject_recursive_types(C)]
pub struct CommandContextItemBuilder<S: Subscriber<Args = PropChangedEventArgs>, C> {
    base: Arc<CommandItem<S, C>>,
    critical: bool,
    shortcut: Option<KeyChord>,
}

impl<S: Subscriber<Args = PropChangedEventArgs>, C> CommandContextItemBuilder<S, C> {
    /// The shared base the context item will decorate.
    pub closed spec fn base_spec(self) -> Arc<CommandItem<S, C>> {
        self.base
    }

    /// The critical flag set so far.
    pub closed spec fn critical_spec(self) -> bool {
        self.critical
    }

    /// The shortcut set so far.
    pub closed spec fn shortcut_spec(self) -> Option<KeyChord> {
        self.shortcut
    }

    /// Starts a context item over the shared `base`: not critical, no
    /// shortcut.
    pub fn new(base: Arc<CommandItem<S, C>>) -> (r: Self)
        ensures
            r.base_spec() == base,
            !r.critical_spec(),
            r.shortcut_spec() is None,
    {
        CommandContextItemBuilder { base, critical: false, shortcut: None }
    }

    /// Sets whether the command is critical.
    pub fn critical(self, critical: bool) -> (r: Self)
        ensures
            r.critical_spec() == critical,
            r.base_spec() == self.base_spec(),
            r.shortcut_spec() == self.shortcut_spec(),
    {
        CommandContextItemBuilder { critical, ..self }
    }

    /// Sets the keyboard shortcut requested for the command.
    pub fn shortcut(self, shortcut: KeyChord) -> (r: Self)
        ensures
            r.shortcut_spec() == Some(shortcut),
            r.base_spec() == self.base_spec(),
            r.critical_spec() == self.critical_spec(),
    {
        CommandContextItemBuilder { shortcut: Some(shortcut), ..self }
    }

    /// Assembles the context item: its own two properties in fresh cells,
    /// over the same shared base — the item decorates it, never copies it.
    pub fn build(self) -> (r: CommandContextItem<S, C>)
        ensures
            r.base_spec() == self.base_spec(),
    {
        CommandContextItem {
            base: self.base,
            critical: NotifyLock::new(self.critical),
            shortcut: NotifyLock::new(self.shortcut),
        }
    }
}

} // verus!
