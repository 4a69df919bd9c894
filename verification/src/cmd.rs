//! Commands: the notifying entities a palette extension exposes.
//!
//! [`BaseCommand`] owns one property cell per command property plus one
//! multicast registry for property-change subscribers. Entities built on top
//! of it, such as [`InvokableCommand`], share the base by reference and
//! forward the whole subscription surface through one small
//! [`NotifyPropChanged`] implementation instead of hand-written per-method
//! bodies.
use vstd::prelude::*;
use std::sync::Arc;
use crate::cmd_result::CommandResult;
use crate::events::{
    broadcast_to,
    EventError,
    EventRegistry,
    PropChangedEventArgs,
    Subscriber,
};
use crate::notify::{
    LockError,
    NotifyLock,
    NotifyLockReadGuard,
    NotifyLockWriteGuard,
};

verus! {

/// The subscription surface every property-notifying entity exposes:
/// subscribe, unsubscribe, and broadcast. An entity that owns its registry
/// implements [`NotifyPropChanged::prop_event`]; an entity that wraps a base
/// entity forwards that one method to the base, and the rest of the surface
/// follows unchanged.
pub trait NotifyPropChanged<S: Subscriber<Args = PropChangedEventArgs>>: Sized {
    /// The cell holding the registry that property-change broadcasts reach.
    fn prop_event(&self) -> &NotifyLock<EventRegistry<S>>;

    /// Subscribes to property changes; the returned token is the handle for
    /// unsubscribing. Fails when the registry cell is poisoned or its token
    /// counter is spent.
    fn prop_changed(&self, subscriber: Arc<S>) -> (r: Result<i64, EventError>)
        ensures
            r matches Err(e) ==> e == EventError::Poisoned || e == EventError::TokensExhausted,
    {
        let guard = self.prop_event().write(
            || {
            },
        );
        match guard {
            Ok(mut g) => {
                let added = g.value_mut().add(subscriber);
                g.finish();
                added
            },
            Err(_) => Err(EventError::Poisoned),
        }
    }

    /// Unsubscribes the subscriber keyed by `token`; a stale or foreign
    /// token unsubscribes nothing. Fails only when the registry cell is
    /// poisoned.
    fn remove_prop_changed(&self, token: i64) -> (r: Result<(), EventError>)
        ensures
            r matches Err(e) ==> e == EventError::Poisoned,
    {
        let guard = self.prop_event().write(
            || {
            },
        );
        match guard {
            Ok(mut g) => {
                g.value_mut().remove(token);
                g.finish();
                Ok(())
            },
            Err(_) => Err(EventError::Poisoned),
        }
    }

    /// Announces that the property called `property_name` may have changed:
    /// snapshots the subscriber list under the registry lock, releases the
    /// lock, and only then invokes every snapshotted subscriber once, in
    /// registration order. Returns how many subscribers were invoked. A
    /// subscriber that unsubscribes someone during the broadcast changes
    /// later broadcasts, not this one.
    fn emit_prop_changed(&self, sender: &S::Sender, property_name: &str) -> (r: Result<
        usize,
        LockError,
    >)
        ensures
            r matches Err(e) ==> e == LockError::Poisoned,
    {
        let guard = self.prop_event().read();
        match guard {
            Ok(g) => {
                let subscribers = g.value().snapshot();
                g.release();
                let args = PropChangedEventArgs(property_name.to_owned());
                Ok(broadcast_to(&subscribers, sender, &args))
            },
            Err(e) => Err(e),
        }
    }
}

/// The properties every command carries — name, identifier, icon — each in
/// its own change-announcing cell, plus the registry their change
/// notifications reach.
pub struct BaseCommand<S: Subscriber<Args = PropChangedEventArgs>> {
    name: NotifyLock<String>,
    id: NotifyLock<String>,
    icon: NotifyLock<Option<String>>,
    event: NotifyLock<EventRegistry<S>>,
}

impl<S: Subscriber<Args = PropChangedEventArgs>> NotifyPropChanged<S> for BaseCommand<S> {
    fn prop_event(&self) -> &NotifyLock<EventRegistry<S>> {
        &self.event
    }
}

impl<S: Subscriber<Args = PropChangedEventArgs>> BaseCommand<S> {
    /// Shared read access to the command's name.
    pub fn name(&self) -> (r: Result<NotifyLockReadGuard<'_, String>, LockError>)
        ensures
            r matches Err(e) ==> e == LockError::Poisoned,
    {
        self.name.read()
    }

    /// Exclusive write access to the command's name. When the returned guard
    /// is finished, every subscriber hears that `"Name"` changed, after the
    /// name cell's lock is already released.
    pub fn name_mut<'a>(&'a self, sender: &'a S::Sender) -> (r: Result<
        NotifyLockWriteGuard<'a, String, impl Fn() + 'a>,
        LockError,
    >)
        ensures
            r matches Ok(g) ==> call_requires(g.notifier_spec(), ()),
            r matches Err(e) ==> e == LockError::Poisoned,
    {
        self.name.write(
            move || {
                let _ = self.emit_prop_changed(sender, "Name");
            },
        )
    }

    /// Shared read access to the command's identifier.
    pub fn id(&self) -> (r: Result<NotifyLockReadGuard<'_, String>, LockError>)
        ensures
            r matches Err(e) ==> e == LockError::Poisoned,
    {
        self.id.read()
    }

    /// Exclusive write access to the command's identifier; announces `"Id"`
    /// on finish, after the lock is released.
    pub fn id_mut<'a>(&'a self, sender: &'a S::Sender) -> (r: Result<
        NotifyLockWriteGuard<'a, String, impl Fn() + 'a>,
        LockError,
    >)
        ensures
            r matches Ok(g) ==> call_requires(g.notifier_spec(), ()),
            r matches Err(e) ==> e == LockError::Poisoned,
    {
        self.id.write(
            move || {
                let _ = self.emit_prop_changed(sender, "Id");
            },
        )
    }

    /// Shared read access to the command's icon.
    pub fn icon(&self) -> (r: Result<NotifyLockReadGuard<'_, Option<String>>, LockError>)
        ensures
            r matches Err(e) ==> e == LockError::Poisoned,
    {
        self.icon.read()
    }

    /// Exclusive write access to the command's icon; announces `"Icon"` on
    /// finish, after the lock is released.
    pub fn icon_mut<'a>(&'a self, sender: &'a S::Sender) -> (r: Result<
        NotifyLockWriteGuard<'a, Option<String>, impl Fn() + 'a>,
        LockError,
    >)
        ensures
            r matches Ok(g) ==> call_requires(g.notifier_spec(), ()),
            r matches Err(e) ==> e == LockError::Poisoned,
    {
        self.icon.write(
            move || {
                let _ = self.emit_prop_changed(sender, "Icon");
            },
        )
    }
}

/// Builder for [`BaseCommand`].
pub struct BaseCommandBuilder {
    name: String,
    id: String,
    icon: Option<String>,
}

impl BaseCommandBuilder {
    /// The name set so far.
    pub closed spec fn name_spec(self) -> String {
        self.name
    }

    /// The identifier set so far.
    pub closed spec fn id_spec(self) -> String {
        self.id
    }

    /// The icon set so far.
    pub closed spec fn icon_spec(self) -> Option<String> {
        self.icon
    }

    /// Starts a command with empty name and identifier and no icon.
    pub fn new() -> (r: Self)
        ensures
            r.name_spec()@ == Seq::<char>::empty(),
            r.id_spec()@ == Seq::<char>::empty(),
            r.icon_spec() is None,
    {
        BaseCommandBuilder { name: String::new(), id: String::new(), icon: None }
    }

    /// Sets the name of the command.
    pub fn name(self, name: &str) -> (r: Self)
        ensures
            r.name_spec()@ == name@,
            r.id_spec() == self.id_spec(),
            r.icon_spec() == self.icon_spec(),
    {
        BaseCommandBuilder { name: name.to_owned(), ..self }
    }

    /// Sets the unique identifier of the command.
    pub fn id(self, id: &str) -> (r: Self)
        ensures
            r.id_spec()@ == id@,
            r.name_spec() == self.name_spec(),
            r.icon_spec() == self.icon_spec(),
    {
        BaseCommandBuilder { id: id.to_owned(), ..self }
    }

    /// Sets the icon for the command.
    pub fn icon(self, icon: String) -> (r: Self)
        ensures
            r.icon_spec() == Some(icon),
            r.name_spec() == self.name_spec(),
            r.id_spec() == self.id_spec(),
    {
        BaseCommandBuilder { icon: Some(icon), ..self }
    }

    /// Assembles the command: each property in its own fresh cell, with an
    /// empty subscriber registry.
    pub fn build<S: Subscriber<Args = PropChangedEventArgs>>(self) -> BaseCommand<S> {
        BaseCommand {
            name: NotifyLock::new(self.name),
            id: NotifyLock::new(self.id),
            icon: NotifyLock::new(self.icon),
            event: NotifyLock::new(EventRegistry::new()),
        }
    }
}

impl Default for BaseCommandBuilder {
    fn default() -> (r: Self)
        ensures
            r.name_spec()@ == Seq::<char>::empty(),
            r.id_spec()@ == Seq::<char>::empty(),
            r.icon_spec() is None,
    {
        BaseCommandBuilder::new()
    }
}

/// A command that runs a caller-supplied function when invoked. It shares a
/// [`BaseCommand`] by reference — mutating a property through either handle
/// is seen by both — and forwards the whole subscription surface to it.
#[verifier::reject_recursive_types(S)]
pub struct InvokableCommand<S, F> where
    S: Subscriber<Args = PropChangedEventArgs>,
    F: Fn(&S::Sender) -> Result<CommandResult<S>, LockError>,
 {
    /// The shared base carrying this command's properties and subscribers.
    pub base: Arc<BaseCommand<S>>,
    func: F,
}

impl<S, F> NotifyPropChanged<S> for InvokableCommand<S, F> where
    S: Subscriber<Args = PropChangedEventArgs>,
    F: Fn(&S::Sender) -> Result<CommandResult<S>, LockError>,
 {
    fn prop_event(&self) -> &NotifyLock<EventRegistry<S>> {
        self.base.prop_event()
    }
}

impl<S, F> InvokableCommand<S, F> where
    S: Subscriber<Args = PropChangedEventArgs>,
    F: Fn(&S::Sender) -> Result<CommandResult<S>, LockError>,
 {
    /// The invocation function this command runs.
    pub closed spec fn func_spec(self) -> F {
        self.func
    }

    /// The shared base, as seen by specifications.
    pub closed spec fn base_spec(self) -> Arc<BaseCommand<S>> {
        self.base
    }

    /// Creates a command running `func` on top of the shared `base`.
    pub fn new(base: Arc<BaseCommand<S>>, func: F) -> (r: Self)
        ensures
            r.base_spec() == base,
            r.func_spec() == func,
    {
        InvokableCommand { base, func }
    }

    /// Runs the command's function for `sender` and hands its result to the
    /// caller.
    pub fn invoke(&self, sender: &S::Sender) -> (r: Result<CommandResult<S>, LockError>)
        requires
            call_requires(self.func_spec(), (sender,)),
        ensures
            call_ensures(self.func_spec(), (sender,), r),
    {
        (self.func)(sender)
    }
}

} // verus!
