//! Pages: entities that own a collection and announce its size.
//!
//! A [`ContentPage`] holds its contents in a change-announcing cell and keeps
//! a second registry for collection-size subscribers. Writing the contents
//! goes through a peeking write scope: the new length is computed from the
//! final collection while the lock is still held, and broadcast — as a
//! [`ItemsChangedEventArgs`] record — only after the lock is released.
use vstd::prelude::*;
use std::sync::Arc;
use crate::cmd::{BaseCommand, NotifyPropChanged};
use crate::ctx_item::ContextItem;
use crate::details::Details;

use crate::events::{
    broadcast_to,
    items_count_of,
    EventError,
    EventRegistry,
    ItemsChangedEventArgs,
    PropChangedEventArgs,
    Subscriber,
};
use crate::notify::{
    LockError,
    NotifyLock,
    NotifyLockPeekGuard,
    NotifyLockReadGuard,
    NotifyLockWriteGuard,
};

verus! {

/// The subscription surface of every entity that announces collection-size
/// changes. An entity that owns a registry implements
/// [`NotifyItemsChanged::items_event`]; a wrapping entity forwards that one
/// method to its base and inherits the rest.
pub trait NotifyItemsChanged<S: Subscriber<Args = ItemsChangedEventArgs>>: Sized {
    /// The cell holding the registry that collection-size broadcasts reach.
    fn items_event(&self) -> &NotifyLock<EventRegistry<S>>;

    /// Subscribes to collection-size changes; the returned token is the
    /// handle for unsubscribing. Fails when the registry cell is poisoned or
    /// its token counter is spent.
    fn items_changed(&self, subscriber: Arc<S>) -> (r: Result<i64, EventError>)
        ensures
            r matches Err(e) ==> e == EventError::Poisoned || e == EventError::TokensExhausted,
    {
        let guard = self.items_event().write(
            || {
            },
        );
        match guard {
            Ok(mut g) => {
                let added = g.value_mut().add(subscriber);
                g.finish();
                added
            },
            Err(_) => Err(EventError::Poisoned),
        }
    }

    /// Unsubscribes the subscriber keyed by `token`; a stale or foreign
    /// token unsubscribes nothing. Fails only when the registry cell is
    /// poisoned.
    fn remove_items_changed(&self, token: i64) -> (r: Result<(), EventError>)
        ensures
            r matches Err(e) ==> e == EventError::Poisoned,
    {
        let guard = self.items_event().write(
            || {
            },
        );
        match guard {
            Ok(mut g) => {
                g.value_mut().remove(token);
                g.finish();
                Ok(())
            },
            Err(_) => Err(EventError::Poisoned),
        }
    }

    /// Announces the collection's new size — `-1` for unknown — to every
    /// subscriber: snapshots the subscriber list under the registry lock,
    /// releases the lock, then invokes the snapshot once each, in
    /// registration order. Returns how many subscribers were invoked.
    fn emit_items_changed(&self, sender: &S::Sender, total_items: i32) -> (r: Result<
        usize,
        LockError,
    >)
        ensures
            r matches Err(e) ==> e == LockError::Poisoned,
    {
        let guard = self.items_event().read();
        match guard {
            Ok(g) => {
                let subscribers = g.value().snapshot();
                g.release();
                let args = ItemsChangedEventArgs(total_items);
                Ok(broadcast_to(&subscribers, sender, &args))
            },
            Err(e) => Err(e),
        }
    }
}

/// A color in red-green-blue-alpha form, as a page's accent color.
#[derive(Clone, Copy, PartialEq, Eq, Structural, Debug)]
pub struct Color {
    /// The red channel.
    pub r: u8,
    /// The green channel.
    pub g: u8,
    /// The blue channel.
    pub b: u8,
    /// The alpha channel.
    pub a: u8,
}

/// The properties every page carries — title, loading flag, accent color —
/// on top of a shared base command. The page's own property changes are
/// announced through the base command's registry.
pub struct BasePage<S: Subscriber<Args = PropChangedEventArgs>> {
    /// The shared base carrying the page's command properties and the
    /// registry all property changes reach.
    pub base: Arc<BaseCommand<S>>,
    title: NotifyLock<String>,
    loading: NotifyLock<bool>,
    accent_color: NotifyLock<Option<Color>>,
}

impl<S: Subscriber<Args = PropChangedEventArgs>> NotifyPropChanged<S> for BasePage<S> {
    fn prop_event(&self) -> &NotifyLock<EventRegistry<S>> {
        self.base.prop_event()
    }
}

impl<S: Subscriber<Args = PropChangedEventArgs>> BasePage<S> {
    /// The shared base command, as seen by specifications.
    pub closed spec fn base_spec(self) -> Arc<BaseCommand<S>> {
        self.base
    }

    /// Shared read access to the page's title.
    pub fn title(&self) -> (r: Result<NotifyLockReadGuard<'_, String>, LockError>)
        ensures
            r matches Err(e) ==> e == LockError::Poisoned,
    {
        self.title.read()
    }

    /// Exclusive write access to the page's title; announces `"Title"`
    /// through the shared base's registry on finish, after the lock is
    /// released.
    pub fn title_mut<'a>(&'a self, sender: &'a S::Sender) -> (r: Result<
        NotifyLockWriteGuard<'a, String, impl Fn() + 'a>,
        LockError,
    >)
        ensures
            r matches Ok(g) ==> call_requires(g.notifier_spec(), ()),
            r matches Err(e) ==> e == LockError::Poisoned,
    {
        self.title.write(
            move || {
                let _ = self.emit_prop_changed(sender, "Title");
            },
        )
    }

    /// Shared read access to whether the page is loading.
    pub fn loading(&self) -> (r: Result<NotifyLockReadGuard<'_, bool>, LockError>)
        ensures
            r matches Err(e) ==> e == LockError::Poisoned,
    {
        self.loading.read()
    }

    /// Exclusive write access to the loading flag; announces `"IsLoading"`
    /// through the shared base's registry on finish, after the lock is
    /// released.
    pub fn loading_mut<'a>(&'a self, sender: &'a S::Sender) -> (r: Result<
        NotifyLockWriteGuard<'a, bool, impl Fn() + 'a>,
        LockError,
    >)
        ensures
            r matches Ok(g) ==> call_requires(g.notifier_spec(), ()),
            r matches Err(e) ==> e == LockError::Poisoned,
    {
        self.loading.write(
            move || {
                let _ = self.emit_prop_changed(sender, "IsLoading");
            },
        )
    }

    /// Shared read access to the page's accent color.
    pub fn accent_color(&self) -> (r: Result<NotifyLockReadGuard<'_, Option<Color>>, LockError>)
        ensures
            r matches Err(e) ==> e == LockError::Poisoned,
    {
        self.accent_color.read()
    }

    /// Exclusive write access to the accent color; announces `"AccentColor"`
    /// through the shared base's registry on finish, after the lock is
    /// released.
    pub fn accent_color_mut<'a>(&'a self, sender: &'a S::Sender) -> (r: Result<
        NotifyLockWriteGuard<'a, Option<Color>, impl Fn() + 'a>,
        LockError,
    >)
        ensures
            r matches Ok(g) ==> call_requires(g.notifier_spec(), ()),
            r matches Err(e) ==> e == LockError::Poisoned,
    {
        self.accent_color.write(
            move || {
                let _ = self.emit_prop_changed(sender, "AccentColor");
            },
        )
    }
}

/// Builder for [`BasePage`].
pub struct BasePageBuilder<S: Subscriber<Args = PropChangedEventArgs>> {
    base: Arc<BaseCommand<S>>,
    title: String,
    loading: bool,
    accent_color: Option<Color>,
}

impl<S: Subscriber<Args = PropChangedEventArgs>> BasePageBuilder<S> {
    /// The shared base the page will decorate.
    pub closed spec fn base_spec(self) -> Arc<BaseCommand<S>> {
        self.base
    }

    /// The title set so far.
    pub closed spec fn title_spec(self) -> String {
        self.title
    }

    /// The loading flag set so far.
    pub closed spec fn loading_spec(self) -> bool {
        self.loading
    }

    /// The accent color set so far.
    pub closed spec fn accent_color_spec(self) -> Option<Color> {
        self.accent_color
    }

    /// Starts a page over the shared `base`: empty title, loading, no accent
    /// color.
    pub fn new(base: Arc<BaseCommand<S>>) -> (r: Self)
        ensures
            r.base_spec() == base,
            r.title_spec()@ == Seq::<char>::empty(),
            r.loading_spec(),
            r.accent_color_spec() is None,
    {
        BasePageBuilder { base, title: String::new(), loading: true, accent_color: None }
    }

    /// Sets the title of the page.
    pub fn title(self, title: &str) -> (r: Self)
        ensures
            r.title_spec()@ == title@,
            r.base_spec() == self.base_spec(),
            r.loading_spec() == self.loading_spec(),
            r.accent_color_spec() == self.accent_color_spec(),
    {
        BasePageBuilder { title: title.to_owned(), ..self }
    }

    /// Sets whether the page is loading.
    pub fn loading(self, loading: bool) -> (r: Self)
        ensures
            r.loading_spec() == loading,
            r.base_spec() == self.base_spec(),
            r.title_spec() == self.title_spec(),
            r.accent_color_spec() == self.accent_color_spec(),
    {
        BasePageBuilder { loading, ..self }
    }

    /// Sets the accent color of the page.
    pub fn accent_color(self, accent_color: Option<Color>) -> (r: Self)
        ensures
            r.accent_color_spec() == accent_color,
            r.base_spec() == self.base_spec(),
            r.title_spec() == self.title_spec(),
            r.loading_spec() == self.loading_spec(),
    {
        BasePageBuilder { accent_color, ..self }
    }

    /// Assembles the page: each property in a fresh cell, over the same
    /// shared base — the page decorates it, never copies it.
    pub fn build(self) -> (r: BasePage<S>)
        ensures
            r.base_spec() == self.base_spec(),
    {
        BasePage {
            base: self.base,
            title: NotifyLock::new(self.title),
            loading: NotifyLock::new(self.loading),
            accent_color: NotifyLock::new(self.accent_color),
        }
    }
}

/// A page that shows a collection of contents of type `C`. Property-change
/// subscriptions are forwarded through the shared base page to its base
/// command; collection-size subscriptions are the page's own.
#[verifier::reject_recursive_types(SP)]
pub struct ContentPage<SP, SI, C> where
    SP: Subscriber<Args = PropChangedEventArgs>,
    SI: Subscriber<Args = ItemsChangedEventArgs>,
 {
    /// The shared base page carrying the page-level properties and, through
    /// its own base, the command properties and their subscribers.
    pub base: Arc<BasePage<SP>>,
    contents: NotifyLock<Vec<C>>,
    context_menu: NotifyLock<Vec<ContextItem<SP, BaseCommand<SP>>>>,
    details: NotifyLock<Option<Details<BaseCommand<SP>>>>,
    item_event: NotifyLock<EventRegistry<SI>>,
}

impl<SP, SI, C> NotifyPropChanged<SP> for ContentPage<SP, SI, C> where
    SP: Subscriber<Args = PropChangedEventArgs>,
    SI: Subscriber<Args = ItemsChangedEventArgs>,
 {
    fn prop_event(&self) -> &NotifyLock<EventRegistry<SP>> {
        self.base.prop_event()
    }
}

impl<SP, SI, C> NotifyItemsChanged<SI> for ContentPage<SP, SI, C> where
    SP: Subscriber<Args = PropChangedEventArgs>,
    SI: Subscriber<Args = ItemsChangedEventArgs>,
 {
    fn items_event(&self) -> &NotifyLock<EventRegistry<SI>> {
        &self.item_event
    }
}

impl<SP, SI, C> ContentPage<SP, SI, C> where
    SP: Subscriber<Args = PropChangedEventArgs>,
    SI: Subscriber<Args = ItemsChangedEventArgs>,
 {
    /// The shared base page, as seen by specifications.
    pub closed spec fn base_spec(self) -> Arc<BasePage<SP>> {
        self.base
    }

    /// Creates a page over the same shared `base` — decorating it, never
    /// copying it — holding `contents` and an empty collection-size
    /// registry.
    pub fn new(base: Arc<BasePage<SP>>, contents: Vec<C>) -> (r: Self)
        ensures
            r.base_spec() == base,
    {
        ContentPage {
            base,
            contents: NotifyLock::new(contents),
            context_menu: NotifyLock::new(Vec::new()),
            details: NotifyLock::new(None),
            item_event: NotifyLock::new(EventRegistry::new()),
        }
    }

    /// Shared read access to the page's context-menu commands.
    pub fn context_menu(&self) -> (r: Result<
        NotifyLockReadGuard<'_, Vec<ContextItem<SP, BaseCommand<SP>>>>,
        LockError,
    >)
        ensures
            r matches Err(e) ==> e == LockError::Poisoned,
    {
        self.context_menu.read()
    }

    /// Exclusive write access to the page's context-menu commands. When the
    /// returned guard is finished, the length of the final collection is
    /// read while the lock is still held, and every collection-size
    /// subscriber hears exactly that post-mutation count (or `-1` if it
    /// exceeds `i32::MAX`) after the lock is released.
    pub fn context_menu_mut<'a>(&'a self, sender: &'a SI::Sender) -> (r: Result<
        NotifyLockPeekGuard<
            'a,
            Vec<ContextItem<SP, BaseCommand<SP>>>,
            usize,
            impl Fn(&Vec<ContextItem<SP, BaseCommand<SP>>>) -> usize,
            impl Fn(usize) + 'a,
        >,
        LockError,
    >)
        ensures
            r matches Ok(g) ==> g.wf() && (forall|
                v: &Vec<ContextItem<SP, BaseCommand<SP>>>,
                n: usize,
            |
                call_ensures(g.peeker_spec(), (v,), n) ==> n == v@.len()),
            r matches Err(e) ==> e == LockError::Poisoned,
    {
        let peeker = |v: &Vec<ContextItem<SP, BaseCommand<SP>>>| -> (n: usize)
            ensures
                n == v@.len(),
            {
                v.len()
            };
        let notifier = move |n: usize|
            {
                let _ = self.emit_items_changed(sender, items_count_of(n));
            };
        self.context_menu.write_with_peek(peeker, notifier)
    }

    /// Shared read access to the page's details pane.
    pub fn details(&self) -> (r: Result<
        NotifyLockReadGuard<'_, Option<Details<BaseCommand<SP>>>>,
        LockError,
    >)
        ensures
            r matches Err(e) ==> e == LockError::Poisoned,
    {
        self.details.read()
    }

    /// Exclusive write access to the page's details pane; announces
    /// `"Details"` through the shared base's registry on finish, after the
    /// lock is released.
    pub fn details_mut<'a>(&'a self, sender: &'a SP::Sender) -> (r: Result<
        NotifyLockWriteGuard<'a, Option<Details<BaseCommand<SP>>>, impl Fn() + 'a>,
        LockError,
    >)
        ensures
            r matches Ok(g) ==> call_requires(g.notifier_spec(), ()),
            r matches Err(e) ==> e == LockError::Poisoned,
    {
        self.details.write(
            move || {
                let _ = self.emit_prop_changed(sender, "Details");
            },
        )
    }

    /// Shared read access to the page's contents.
    pub fn contents(&self) -> (r: Result<NotifyLockReadGuard<'_, Vec<C>>, LockError>)
        ensures
            r matches Err(e) ==> e == LockError::Poisoned,
    {
        self.contents.read()
    }

    /// Exclusive write access to the page's contents. When the returned
    /// guard is finished, the length of the final collection is read while
    /// the lock is still held, and every collection-size subscriber hears
    /// exactly that post-mutation length (or `-1` if it exceeds `i32::MAX`)
    /// after the lock is released.
    pub fn contents_mut<'a>(&'a self, sender: &'a SI::Sender) -> (r: Result<
        NotifyLockPeekGuard<'a, Vec<C>, usize, impl Fn(&Vec<C>) -> usize, impl Fn(usize) + 'a>,
        LockError,
    >)
        ensures
            r matches Ok(g) ==> g.wf() && (forall|v: &Vec<C>, n: usize|
                call_ensures(g.peeker_spec(), (v,), n) ==> n == v@.len()),
            r matches Err(e) ==> e == LockError::Poisoned,
    {
        let peeker = |v: &Vec<C>| -> (n: usize)
            ensures
                n == v@.len(),
            {
                v.len()
            };
        let notifier = move |n: usize|
            {
                let _ = self.emit_items_changed(sender, items_count_of(n));
            };
        self.contents.write_with_peek(peeker, notifier)
    }
}

/// Law: when a peeking write scope whose peeker reports the collection's
/// length is finished, the payload handed to the notifier is the length of
/// exactly the collection the scope commits — never a stale count. The two
/// premises are what [`ContentPage::contents_mut`] ensures of its guard and
/// what [`NotifyLockPeekGuard::finish`] ensures of the peeked payload.
pub proof fn lemma_peeked_count_is_final_count<'a, C, PF: Fn(&Vec<C>) -> usize, NF: Fn(usize)>(
    g: NotifyLockPeekGuard<'a, Vec<C>, usize, PF, NF>,
    payload: usize,
)
    requires
        forall|v: &Vec<C>, n: usize| call_ensures(g.peeker_spec(), (v,), n) ==> n == v@.len(),
        call_ensures(g.peeker_spec(), (&g@,), payload),
    ensures
        payload == g@.len(),
{
}

} // verus!
