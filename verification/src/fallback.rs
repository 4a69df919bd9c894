//! Fallback command items: entries whose content follows the user's query.
//!
//! A [`FallbackCommandItem`] wraps a shared [`CommandItem`] and adds one
//! display-title cell of its own plus a query hook: whenever the host's
//! query changes, [`FallbackCommandItem::update_query`] hands the query text
//! to the caller-supplied handler, which typically rewrites the title.
use vstd::prelude::*;
use std::sync::Arc;
use crate::cmd::NotifyPropChanged;
use crate::cmd_item::CommandItem;
use crate::events::{EventRegistry, PropChangedEventArgs, Subscriber};
use crate::notify::{LockError, NotifyLock, NotifyLockReadGuard, NotifyLockWriteGuard};

verus! {

/// A command item that reacts to the user's query: a shared base, one
/// overriding display-title cell, and a query handler. The wrapper's own
/// title changes are announced through the shared base's registry.
#[verifier::reject_recursive_types(S)]
#[verifier::reject_recursive_types(C)]
pub struct FallbackCommandItem<S, C, FQ> where
    S: Subscriber<Args = PropChangedEventArgs>,
    FQ: Fn(String) -> Result<(), LockError>,
 {
    /// The shared command item this entry decorates.
    pub base: Arc<CommandItem<S, C>>,
    querier: FQ,
    title: NotifyLock<String>,
}

impl<S, C, FQ> NotifyPropChanged<S> for FallbackCommandItem<S, C, FQ> where
    S: Subscriber<Args = PropChangedEventArgs>,
    FQ: Fn(String) -> Result<(), LockError>,
 {
    fn prop_event(&self) -> &NotifyLock<EventRegistry<S>> {
        self.base.prop_event()
    }
}

impl<S, C, FQ> FallbackCommandItem<S, C, FQ> where
    S: Subscriber<Args = PropChangedEventArgs>,
    FQ: Fn(String) -> Result<(), LockError>,
 {
    /// The shared base command item, as seen by specifications.
    pub closed spec fn base_spec(self) -> Arc<CommandItem<S, C>> {
        self.base
    }

    /// The handler run with the query text on every query update.
    pub closed spec fn querier_spec(self) -> FQ {
        self.querier
    }

    /// The query handler accepts every query text.
    pub open spec fn wf(self) -> bool {
        forall|query: String| #[trigger] call_requires(self.querier_spec(), (query,))
    }

    /// Shared read access to the display title.
    pub fn title(&self) -> (r: Result<NotifyLockReadGuard<'_, String>, LockError>)
        ensures
            r matches Err(e) ==> e == LockError::Poisoned,
    {
        self.title.read()
    }

    /// Exclusive write access to the display title; announces
    /// `"DisplayTitle"` through the shared base's registry on finish, after
    /// the lock is released.
    pub fn title_mut<'a>(&'a self, sender: &'a S::Sender) -> (r: Result<
        NotifyLockWriteGuard<'a, String, impl Fn() + 'a>,
        LockError,
    >)
        ensures
            r matches Ok(g) ==> call_requires(g.notifier_spec(), ()),
            r matches Err(e) ==> e == LockError::Poisoned,
    {
        self.title.write(
            move || {
                let _ = self.emit_prop_changed(sender, "DisplayTitle");
            },
        )
    }

    /// Hands the host's current query to the handler; the handler's verdict
    /// is this function's result.
    pub fn update_query(&self, query: &str) -> (r: Result<(), LockError>)
        requires
            self.wf(),
        ensures
            exists|q: String|
                q@ == query@ && #[trigger] call_ensures(self.querier_spec(), (q,), r),
    {
        let owned = query.to_owned();
        let ghost q = owned;
        proof {
            assert(call_requires(self.querier_spec(), (q,)));
        }
        let verdict = (self.querier)(owned);
        proof {
            assert(call_ensures(self.querier_spec(), (q,), verdict));
        }
        verdict
    }
}

/// Builder for [`FallbackCommandItem`].
#[verifier::reject_recursive_types(S)]
#[verifier::reject_recursive_types(C)]
pub struct FallbackCommandItemBuilder<S, C, FQ> where
    S: Subscriber<Args = PropChangedEventArgs>,
    FQ: Fn(String) -> Result<(), LockError>,
 {
    base: Arc<CommandItem<S, C>>,
    querier: FQ,
    title: String,
}

impl<S, C, FQ> FallbackCommandItemBuilder<S, C, FQ> where
    S: Subscriber<Args = PropChangedEventArgs>,
    FQ: Fn(String) -> Result<(), LockError>,
 {
    /// The shared base the entry will decorate.
    pub closed spec fn base_spec(self) -> Arc<CommandItem<S, C>> {
        self.base
    }

    /// The query handler set so far.
    pub closed spec fn querier_spec(self) -> FQ {
        self.querier
    }

    /// The title set so far.
    pub closed spec fn title_spec(self) -> String {
        self.title
    }

    /// Replaces the query handler: it receives the host's query text on
    /// every query update, and should rewrite whatever the entry shows.
    pub fn handler<FQ2: Fn(String) -> Result<(), LockError>>(self, querier: FQ2) -> (r:
        FallbackCommandItemBuilder<S, C, FQ2>)
        ensures
            r.querier_spec() == querier,
            r.base_spec() == self.base_spec(),
            r.title_spec() == self.title_spec(),
    {
        FallbackCommandItemBuilder { base: self.base, querier, title: self.title }
    }

    /// Sets the display title of the entry.
    pub fn title(self, title: &str) -> (r: Self)
        ensures
            r.title_spec()@ == title@,
            r.base_spec() == self.base_spec(),
            r.querier_spec() == self.querier_spec(),
    {
        FallbackCommandItemBuilder { title: title.to_owned(), ..self }
    }

    /// Assembles the entry: the title in a fresh cell, over the same shared
    /// base — the entry decorates it, never copies it.
    pub fn build(self) -> (r: FallbackCommandItem<S, C, FQ>)
        ensures
            r.base_spec() == self.base_spec(),
            r.querier_spec() == self.querier_spec(),
    {
        FallbackCommandItem {
            base: self.base,
            querier: self.querier,
            title: NotifyLock::new(self.title),
        }
    }
}

/// Starts a fallback entry over the shared `base`: empty title, and a query
/// handler that ignores every query and reports success.
pub fn fallback_command_item_builder<S, C>(base: Arc<CommandItem<S, C>>) -> (r:
    FallbackCommandItemBuilder<S, C, impl Fn(String) -> Result<(), LockError>>) where
    S: Subscriber<Args = PropChangedEventArgs>,

    ensures
        r.base_spec() == base,
        r.title_spec()@ == Seq::<char>::empty(),
        forall|q: String| #[trigger] call_requires(r.querier_spec(), (q,)),
        forall|q: String, ret: Result<(), LockError>|
            call_ensures(r.querier_spec(), (q,), ret) ==> ret is Ok,
{
    let ignore_query = |_query: String| -> (ret: Result<(), LockError>)
        ensures
            ret is Ok,
        {
            Ok(())
        };
    FallbackCommandItemBuilder { base, querier: ignore_query, title: String::new() }
}

} // verus!
