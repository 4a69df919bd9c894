//! List pages: a scrollable list of items with search, paging, and
//! per-property change announcements.
//!
//! A [`ListItem`] decorates a shared command item with list-specific
//! properties; a [`ListPage`] owns the item collection — whose writes
//! announce the post-mutation count through the page's collection-size
//! registry — and the page-level properties, which announce through the
//! shared base page's command registry.
use vstd::prelude::*;
use std::sync::Arc;
use crate::cmd::NotifyPropChanged;
use crate::cmd_item::CommandItem;
use crate::details::{Details, Tag};
use crate::events::{
    items_count_of,
    EventRegistry,
    ItemsChangedEventArgs,
    PropChangedEventArgs,
    Subscriber,
};
use crate::notify::{
    LockError,
    NotifyLock,
    NotifyLockPeekGuard,
    NotifyLockReadGuard,
    NotifyLockWriteGuard,
};
use crate::page::{BasePage, NotifyItemsChanged};

verus! {

/// One entry of a list page: a shared command item decorated with the
/// properties the list shows for it. Its own property changes are announced
/// through the shared base's registry.
#[verifier::reject_recursive_types(S)]
#[verifier::reject_recursive_types(C)]
pub struct ListItem<S: Subscriber<Args = PropChangedEventArgs>, C> {
    /// The shared command item this entry decorates.
    pub base: Arc<CommandItem<S, C>>,
    details: NotifyLock<Option<Details<C>>>,
    tags: NotifyLock<Vec<Tag>>,
    section: NotifyLock<String>,
    suggestion: NotifyLock<String>,
}

impl<S: Subscriber<Args = PropChangedEventArgs>, C> NotifyPropChanged<S> for ListItem<S, C> {
    fn prop_event(&self) -> &NotifyLock<EventRegistry<S>> {
        self.base.prop_event()
    }
}

impl<S: Subscriber<Args = PropChangedEventArgs>, C> ListItem<S, C> {
    /// The shared base command item, as seen by specifications.
    pub closed spec fn base_spec(self) -> Arc<CommandItem<S, C>> {
        self.base
    }

    /// Shared read access to the entry's details pane.
    pub fn details(&self) -> (r: Result<NotifyLockReadGuard<'_, Option<Details<C>>>, LockError>)
        ensures
            r matches Err(e) ==> e == LockError::Poisoned,
    {
        self.details.read()
    }

    /// Exclusive write access to the details pane; announces `"Details"` through
    /// the shared base's registry on finish, after the lock is released.
    pub fn details_mut<'a>(&'a self, sender: &'a S::Sender) -> (r: Result<
        NotifyLockWriteGuard<'a, Option<Details<C>>, impl Fn() + 'a>,
        LockError,
    >)
        ensures
            r matches Ok(g) ==> call_requires(g.notifier_spec(), ()),
            r matches Err(e) ==> e == LockError::Poisoned,
    {
        self.details.write(
            move || {
                let _ = self.emit_prop_changed(sender, "Details");
            },
        )
    }

    /// Shared read access to the entry's tags.
    pub fn tags(&self) -> (r: Result<NotifyLockReadGuard<'_, Vec<Tag>>, LockError>)
        ensures
            r matches Err(e) ==> e == LockError::Poisoned,
    {
        self.tags.read()
    }

    /// Exclusive write access to the tags; announces `"Tags"` through
    /// the shared base's registry on finish, after the lock is released.
    pub fn tags_mut<'a>(&'a self, sender: &'a S::Sender) -> (r: Result<
        NotifyLockWriteGuard<'a, Vec<Tag>, impl Fn() + 'a>,
        LockError,
    >)
        ensures
            r matches Ok(g) ==> call_requires(g.notifier_spec(), ()),
            r matches Err(e) ==> e == LockError::Poisoned,
    {
        self.tags.write(
            move || {
                let _ = self.emit_prop_changed(sender, "Tags");
            },
        )
    }

    /// Shared read access to the section the entry is grouped under.
    pub fn section(&self) -> (r: Result<NotifyLockReadGuard<'_, String>, LockError>)
        ensures
            r matches Err(e) ==> e == LockError::Poisoned,
    {
        self.section.read()
    }

    /// Exclusive write access to the section; announces `"Section"` through
    /// the shared base's registry on finish, after the lock is released.
    pub fn section_mut<'a>(&'a self, sender: &'a S::Sender) -> (r: Result<
        NotifyLockWriteGuard<'a, String, impl Fn() + 'a>,
        LockError,
    >)
        ensures
            r matches Ok(g) ==> call_requires(g.notifier_spec(), ()),
            r matches Err(e) ==> e == LockError::Poisoned,
    {
        self.section.write(
            move || {
                let _ = self.emit_prop_changed(sender, "Section");
            },
        )
    }

    /// Shared read access to the text suggested into the search box.
    pub fn suggestion(&self) -> (r: Result<NotifyLockReadGuard<'_, String>, LockError>)
        ensures
            r matches Err(e) ==> e == LockError::Poisoned,
    {
        self.suggestion.read()
    }

    /// Exclusive write access to the suggestion text; announces `"TextToSuggest"` through
    /// the shared base's registry on finish, after the lock is released.
    pub fn suggestion_mut<'a>(&'a self, sender: &'a S::Sender) -> (r: Result<
        NotifyLockWriteGuard<'a, String, impl Fn() + 'a>,
        LockError,
    >)
        ensures
            r matches Ok(g) ==> call_requires(g.notifier_spec(), ()),
            r matches Err(e) ==> e == LockError::Poisoned,
    {
        self.suggestion.write(
            move || {
                let _ = self.emit_prop_changed(sender, "TextToSuggest");
            },
        )
    }

}

/// Builder for [`ListItem`].
#[verifier::reject_recursive_types(S)]
#[verifier::reject_recursive_types(C)]
pub struct ListItemBuilder<S: Subscriber<Args = PropChangedEventArgs>, C> {
    base: Arc<CommandItem<S, C>>,
    details: Option<Details<C>>,
    tags: Vec<Tag>,
    section: Option<String>,
    suggestion: Option<String>,
}

impl<S: Subscriber<Args = PropChangedEventArgs>, C> ListItemBuilder<S, C> {
    /// The shared base the entry will decorate.
    pub closed spec fn base_spec(self) -> Arc<CommandItem<S, C>> {
        self.base
    }

    /// The details set so far.
    pub closed spec fn details_spec(self) -> Option<Details<C>> {
        self.details
    }

    /// The tags added so far.
    pub closed spec fn tags_spec(self) -> Seq<Tag> {
        self.tags@
    }

    /// The section set so far.
    pub closed spec fn section_spec(self) -> Option<String> {
        self.section
    }

    /// The suggestion set so far.
    pub closed spec fn suggestion_spec(self) -> Option<String> {
        self.suggestion
    }

    /// Starts an entry over the shared `base`: no details, no tags, no
    /// texts. Unset texts become empty when the entry is assembled.
    pub fn new(base: Arc<CommandItem<S, C>>) -> (r: Self)
        ensures
            r.base_spec() == base,
            r.details_spec() is None,
            r.tags_spec() == Seq::<Tag>::empty(),
            r.section_spec() is None,
            r.suggestion_spec() is None,
    {
        let r = ListItemBuilder {
            base,
            details: None,
            tags: Vec::new(),
            section: None,
            suggestion: None,
        };
        proof {
            assert(r.tags_spec() =~= Seq::<Tag>::empty());
        }
        r
    }

    /// Sets the details pane shown beside the entry.
    pub fn details(self, details: Details<C>) -> (r: Self)
        ensures
            r.details_spec() == Some(details),
            r.base_spec() == self.base_spec(),
            r.tags_spec() == self.tags_spec(),
            r.section_spec() == self.section_spec(),
            r.suggestion_spec() == self.suggestion_spec(),
    {
        ListItemBuilder { details: Some(details), ..self }
    }

    /// Replaces the entry's tags.
    pub fn tags(self, tags: Vec<Tag>) -> (r: Self)
        ensures
            r.tags_spec() == tags@,
            r.base_spec() == self.base_spec(),
            r.details_spec() == self.details_spec(),
            r.section_spec() == self.section_spec(),
            r.suggestion_spec() == self.suggestion_spec(),
    {
        ListItemBuilder { tags, ..self }
    }

    /// Appends one tag.
    pub fn add_tag(self, tag: Tag) -> (r: Self)
        ensures
            r.tags_spec() == self.tags_spec().push(tag),
            r.base_spec() == self.base_spec(),
            r.details_spec() == self.details_spec(),
            r.section_spec() == self.section_spec(),
            r.suggestion_spec() == self.suggestion_spec(),
    {
        let mut tags = self.tags;
        tags.push(tag);
        ListItemBuilder { tags, ..self }
    }

    /// Sets the section the entry is grouped under.
    pub fn section(self, section: &str) -> (r: Self)
        ensures
            r.section_spec() matches Some(t) && t@ == section@,
            r.base_spec() == self.base_spec(),
            r.details_spec() == self.details_spec(),
            r.tags_spec() == self.tags_spec(),
            r.suggestion_spec() == self.suggestion_spec(),
    {
        ListItemBuilder { section: Some(section.to_owned()), ..self }
    }

    /// Sets the text suggested into the search box for the entry.
    pub fn suggestion(self, suggestion: &str) -> (r: Self)
        ensures
            r.suggestion_spec() matches Some(t) && t@ == suggestion@,
            r.base_spec() == self.base_spec(),
            r.details_spec() == self.details_spec(),
            r.tags_spec() == self.tags_spec(),
            r.section_spec() == self.section_spec(),
    {
        ListItemBuilder { suggestion: Some(suggestion.to_owned()), ..self }
    }

    /// Assembles the entry: each property in a fresh cell, over the same
    /// shared base — the entry decorates it, never copies it; unset texts
    /// become empty.
    pub fn build(self) -> (r: ListItem<S, C>)
        ensures
            r.base_spec() == self.base_spec(),
    {
        let section = match self.section {
            Some(t) => t,
            None => String::new(),
        };
        let suggestion = match self.suggestion {
            Some(t) => t,
            None => String::new(),
        };
        ListItem {
            base: self.base,
            details: NotifyLock::new(self.details),
            tags: NotifyLock::new(self.tags),
            section: NotifyLock::new(section),
            suggestion: NotifyLock::new(suggestion),
        }
    }
}

/// A page showing a scrollable, searchable list of entries. Page-level
/// property changes are announced through the shared base page's command
/// registry; changes to the item collection are announced, with the
/// post-mutation count, through the page's own collection-size registry.
/// `more_fn` is asked for more entries when the host scrolls past the end;
/// it reports whether more remain after it. The filter list of type `FL`
/// and the grid layout payload of type `G` are held for the host in cells
/// of their own, without the page reading inside them.
#[verifier::reject_recursive_types(SP)]
#[verifier::reject_recursive_types(SI)]
#[verifier::reject_recursive_types(C)]
pub struct ListPage<SP, SI, C, FM, FL, G> where
    SP: Subscriber<Args = PropChangedEventArgs>,
    SI: Subscriber<Args = ItemsChangedEventArgs>,
    FM: Fn() -> Result<bool, LockError>,
 {
    /// The shared base page carrying the page-level properties and, through
    /// its own base, the command properties and their subscribers.
    pub base: Arc<BasePage<SP>>,
    empty_content: NotifyLock<Option<Arc<CommandItem<SP, C>>>>,
    filters: NotifyLock<Option<Arc<FL>>>,
    grid_properties: NotifyLock<Option<Arc<G>>>,
    items: NotifyLock<Vec<Arc<ListItem<SP, C>>>>,
    placeholder: NotifyLock<String>,
    search_text: NotifyLock<String>,
    has_more: NotifyLock<bool>,
    more_fn: FM,
    show_details: NotifyLock<bool>,
    item_event: NotifyLock<EventRegistry<SI>>,
}

impl<SP, SI, C, FM, FL, G> NotifyPropChanged<SP> for ListPage<SP, SI, C, FM, FL, G> where
    SP: Subscriber<Args = PropChangedEventArgs>,
    SI: Subscriber<Args = ItemsChangedEventArgs>,
    FM: Fn() -> Result<bool, LockError>,
 {
    fn prop_event(&self) -> &NotifyLock<EventRegistry<SP>> {
        self.base.prop_event()
    }
}

impl<SP, SI, C, FM, FL, G> NotifyItemsChanged<SI> for ListPage<SP, SI, C, FM, FL, G> where
    SP: Subscriber<Args = PropChangedEventArgs>,
    SI: Subscriber<Args = ItemsChangedEventArgs>,
    FM: Fn() -> Result<bool, LockError>,
 {
    fn items_event(&self) -> &NotifyLock<EventRegistry<SI>> {
        &self.item_event
    }
}

impl<SP, SI, C, FM, FL, G> ListPage<SP, SI, C, FM, FL, G> where
    SP: Subscriber<Args = PropChangedEventArgs>,
    SI: Subscriber<Args = ItemsChangedEventArgs>,
    FM: Fn() -> Result<bool, LockError>,
 {
    /// The shared base page, as seen by specifications.
    pub closed spec fn base_spec(self) -> Arc<BasePage<SP>> {
        self.base
    }

    /// The paging callback asked for more entries.
    pub closed spec fn more_fn_spec(self) -> FM {
        self.more_fn
    }

    /// The paging callback is callable.
    pub open spec fn wf(self) -> bool {
        call_requires(self.more_fn_spec(), ())
    }

    /// Shared read access to the current search text.
    pub fn search_text(&self) -> (r: Result<NotifyLockReadGuard<'_, String>, LockError>)
        ensures
            r matches Err(e) ==> e == LockError::Poisoned,
    {
        self.search_text.read()
    }

    /// Exclusive write access to the search text; announces `"SearchText"` through
    /// the shared base page's registry on finish, after the lock is released.
    pub fn search_text_mut<'a>(&'a self, sender: &'a SP::Sender) -> (r: Result<
        NotifyLockWriteGuard<'a, String, impl Fn() + 'a>,
        LockError,
    >)
        ensures
            r matches Ok(g) ==> call_requires(g.notifier_spec(), ()),
            r matches Err(e) ==> e == LockError::Poisoned,
    {
        self.search_text.write(
            move || {
                let _ = self.emit_prop_changed(sender, "SearchText");
            },
        )
    }

    /// Exclusive write access to the search text that announces nothing:
    /// for updates the host itself initiated, which it need not hear about.
    pub fn search_text_mut_silent<'a>(&'a self) -> (r: Result<
        NotifyLockWriteGuard<'a, String, impl Fn() + 'a>,
        LockError,
    >)
        ensures
            r matches Ok(g) ==> call_requires(g.notifier_spec(), ()),
            r matches Err(e) ==> e == LockError::Poisoned,
    {
        self.search_text.write(
            || {
            },
        )
    }

    /// Shared read access to the entry shown while the list is empty.
    pub fn empty_content(&self) -> (r: Result<NotifyLockReadGuard<'_, Option<Arc<CommandItem<SP, C>>>>, LockError>)
        ensures
            r matches Err(e) ==> e == LockError::Poisoned,
    {
        self.empty_content.read()
    }

    /// Exclusive write access to the empty-list entry; announces `"EmptyContent"` through
    /// the shared base page's registry on finish, after the lock is released.
    pub fn empty_content_mut<'a>(&'a self, sender: &'a SP::Sender) -> (r: Result<
        NotifyLockWriteGuard<'a, Option<Arc<CommandItem<SP, C>>>, impl Fn() + 'a>,
        LockError,
    >)
        ensures
            r matches Ok(g) ==> call_requires(g.notifier_spec(), ()),
            r matches Err(e) ==> e == LockError::Poisoned,
    {
        self.empty_content.write(
            move || {
                let _ = self.emit_prop_changed(sender, "EmptyContent");
            },
        )
    }

    /// Shared read access to the search box's placeholder text.
    pub fn placeholder(&self) -> (r: Result<NotifyLockReadGuard<'_, String>, LockError>)
        ensures
            r matches Err(e) ==> e == LockError::Poisoned,
    {
        self.placeholder.read()
    }

    /// Exclusive write access to the placeholder text; announces `"PlaceholderText"` through
    /// the shared base page's registry on finish, after the lock is released.
    pub fn placeholder_mut<'a>(&'a self, sender: &'a SP::Sender) -> (r: Result<
        NotifyLockWriteGuard<'a, String, impl Fn() + 'a>,
        LockError,
    >)
        ensures
            r matches Ok(g) ==> call_requires(g.notifier_spec(), ()),
            r matches Err(e) ==> e == LockError::Poisoned,
    {
        self.placeholder.write(
            move || {
                let _ = self.emit_prop_changed(sender, "PlaceholderText");
            },
        )
    }

    /// Shared read access to whether more entries can be loaded.
    pub fn has_more(&self) -> (r: Result<NotifyLockReadGuard<'_, bool>, LockError>)
        ensures
            r matches Err(e) ==> e == LockError::Poisoned,
    {
        self.has_more.read()
    }

    /// Exclusive write access to the paging flag; announces `"HasMoreItems"` through
    /// the shared base page's registry on finish, after the lock is released.
    pub fn has_more_mut<'a>(&'a self, sender: &'a SP::Sender) -> (r: Result<
        NotifyLockWriteGuard<'a, bool, impl Fn() + 'a>,
        LockError,
    >)
        ensures
            r matches Ok(g) ==> call_requires(g.notifier_spec(), ()),
            r matches Err(e) ==> e == LockError::Poisoned,
    {
        self.has_more.write(
            move || {
                let _ = self.emit_prop_changed(sender, "HasMoreItems");
            },
        )
    }

    /// Shared read access to whether entry details are shown.
    pub fn show_details(&self) -> (r: Result<NotifyLockReadGuard<'_, bool>, LockError>)
        ensures
            r matches Err(e) ==> e == LockError::Poisoned,
    {
        self.show_details.read()
    }

    /// Exclusive write access to the details flag; announces `"ShowDetails"` through
    /// the shared base page's registry on finish, after the lock is released.
    pub fn show_details_mut<'a>(&'a self, sender: &'a SP::Sender) -> (r: Result<
        NotifyLockWriteGuard<'a, bool, impl Fn() + 'a>,
        LockError,
    >)
        ensures
            r matches Ok(g) ==> call_requires(g.notifier_spec(), ()),
            r matches Err(e) ==> e == LockError::Poisoned,
    {
        self.show_details.write(
            move || {
                let _ = self.emit_prop_changed(sender, "ShowDetails");
            },
        )
    }

    /// Shared read access to the page's filter list.
    pub fn filters(&self) -> (r: Result<NotifyLockReadGuard<'_, Option<Arc<FL>>>, LockError>)
        ensures
            r matches Err(e) ==> e == LockError::Poisoned,
    {
        self.filters.read()
    }

    /// Exclusive write access to the page's filter list; announces
    /// `"Filters"` through the shared base page's registry on finish, after
    /// the lock is released.
    pub fn filters_mut<'a>(&'a self, sender: &'a SP::Sender) -> (r: Result<
        NotifyLockWriteGuard<'a, Option<Arc<FL>>, impl Fn() + 'a>,
        LockError,
    >)
        ensures
            r matches Ok(g) ==> call_requires(g.notifier_spec(), ()),
            r matches Err(e) ==> e == LockError::Poisoned,
    {
        self.filters.write(
            move || {
                let _ = self.emit_prop_changed(sender, "Filters");
            },
        )
    }

    /// Shared read access to the page's grid layout properties, held for
    /// the host without the page reading inside them.
    pub fn grid_properties(&self) -> (r: Result<
        NotifyLockReadGuard<'_, Option<Arc<G>>>,
        LockError,
    >)
        ensures
            r matches Err(e) ==> e == LockError::Poisoned,
    {
        self.grid_properties.read()
    }

    /// Exclusive write access to the grid layout properties; announces
    /// `"GridProperties"` through the shared base page's registry on
    /// finish, after the lock is released.
    pub fn grid_properties_mut<'a>(&'a self, sender: &'a SP::Sender) -> (r: Result<
        NotifyLockWriteGuard<'a, Option<Arc<G>>, impl Fn() + 'a>,
        LockError,
    >)
        ensures
            r matches Ok(g) ==> call_requires(g.notifier_spec(), ()),
            r matches Err(e) ==> e == LockError::Poisoned,
    {
        self.grid_properties.write(
            move || {
                let _ = self.emit_prop_changed(sender, "GridProperties");
            },
        )
    }

    /// Shared read access to the item collection.
    pub fn items(&self) -> (r: Result<
        NotifyLockReadGuard<'_, Vec<Arc<ListItem<SP, C>>>>,
        LockError,
    >)
        ensures
            r matches Err(e) ==> e == LockError::Poisoned,
    {
        self.items.read()
    }

    /// Exclusive write access to the item collection. When the returned
    /// guard is finished, the length of the final collection is read while
    /// the lock is still held, and every collection-size subscriber hears
    /// exactly that post-mutation count (or `-1` if it exceeds `i32::MAX`)
    /// after the lock is released.
    pub fn items_mut<'a>(&'a self, sender: &'a SI::Sender) -> (r: Result<
        NotifyLockPeekGuard<
            'a,
            Vec<Arc<ListItem<SP, C>>>,
            usize,
            impl Fn(&Vec<Arc<ListItem<SP, C>>>) -> usize,
            impl Fn(usize) + 'a,
        >,
        LockError,
    >)
        ensures
            r matches Ok(g) ==> g.wf() && (forall|v: &Vec<Arc<ListItem<SP, C>>>, n: usize|
                call_ensures(g.peeker_spec(), (v,), n) ==> n == v@.len()),
            r matches Err(e) ==> e == LockError::Poisoned,
    {
        let peeker = |v: &Vec<Arc<ListItem<SP, C>>>| -> (n: usize)
            ensures
                n == v@.len(),
            {
                v.len()
            };
        let notifier = move |n: usize|
            {
                let _ = self.emit_items_changed(sender, items_count_of(n));
            };
        self.items.write_with_peek(peeker, notifier)
    }

    /// Asks the paging callback for more entries and stores its verdict —
    /// whether more remain — in the paging flag, announcing
    /// `"HasMoreItems"`. The callback itself typically appends to the item
    /// collection, which announces the new count on its own. Fails without
    /// touching the flag when the callback fails or the flag's cell is
    /// poisoned.
    pub fn load_more(&self, sender: &SP::Sender) -> (r: Result<bool, LockError>)
        requires
            self.wf(),
        ensures
            r matches Ok(more) ==> call_ensures(self.more_fn_spec(), (), Ok(more)),
            r matches Err(e) ==> e == LockError::Poisoned || call_ensures(
                self.more_fn_spec(),
                (),
                Err(e),
            ),
    {
        let more = match (self.more_fn)() {
            Ok(more) => more,
            Err(e) => {
                return Err(e);
            },
        };
        let guard = self.has_more_mut(sender);
        match guard {
            Ok(mut g) => {
                g.set(more);
                g.finish();
                Ok(more)
            },
            Err(e) => Err(e),
        }
    }
}

/// A list page that recomputes itself as the user types: every search-text
/// update runs the page's update callback with the old and the new text.
/// The page shares its base list page, and forwards both subscription
/// surfaces to it.
#[verifier::reject_recursive_types(SP)]
#[verifier::reject_recursive_types(SI)]
#[verifier::reject_recursive_types(C)]
pub struct DynamicListPage<SP, SI, C, FM, FL, G, FU> where
    SP: Subscriber<Args = PropChangedEventArgs>,
    SI: Subscriber<Args = ItemsChangedEventArgs>,
    FM: Fn() -> Result<bool, LockError>,
    FU: Fn(String, String) -> Result<(), LockError>,
 {
    /// The shared list page this one drives.
    pub base: Arc<ListPage<SP, SI, C, FM, FL, G>>,
    update_fn: FU,
}

impl<SP, SI, C, FM, FL, G, FU> NotifyPropChanged<SP> for DynamicListPage<SP, SI, C, FM, FL, G, FU> where
    SP: Subscriber<Args = PropChangedEventArgs>,
    SI: Subscriber<Args = ItemsChangedEventArgs>,
    FM: Fn() -> Result<bool, LockError>,
    FU: Fn(String, String) -> Result<(), LockError>,
 {
    fn prop_event(&self) -> &NotifyLock<EventRegistry<SP>> {
        self.base.prop_event()
    }
}

impl<SP, SI, C, FM, FL, G, FU> NotifyItemsChanged<SI> for DynamicListPage<SP, SI, C, FM, FL, G, FU> where
    SP: Subscriber<Args = PropChangedEventArgs>,
    SI: Subscriber<Args = ItemsChangedEventArgs>,
    FM: Fn() -> Result<bool, LockError>,
    FU: Fn(String, String) -> Result<(), LockError>,
 {
    fn items_event(&self) -> &NotifyLock<EventRegistry<SI>> {
        self.base.items_event()
    }
}

impl<SP, SI, C, FM, FL, G, FU> DynamicListPage<SP, SI, C, FM, FL, G, FU> where
    SP: Subscriber<Args = PropChangedEventArgs>,
    SI: Subscriber<Args = ItemsChangedEventArgs>,
    FM: Fn() -> Result<bool, LockError>,
    FU: Fn(String, String) -> Result<(), LockError>,
 {
    /// The callback run with the old and new text on every search update.
    pub closed spec fn update_fn_spec(self) -> FU {
        self.update_fn
    }

    /// The shared list page, as seen by specifications.
    pub closed spec fn base_spec(self) -> Arc<ListPage<SP, SI, C, FM, FL, G>> {
        self.base
    }

    /// The update callback accepts every pair of texts.
    pub open spec fn wf(self) -> bool {
        forall|old_text: String, new_text: String|
            #[trigger] call_requires(self.update_fn_spec(), (old_text, new_text))
    }

    /// Creates a dynamic page driving the shared `base` with `update_fn`.
    pub fn new(base: Arc<ListPage<SP, SI, C, FM, FL, G>>, update_fn: FU) -> (r: Self)
        ensures
            r.base_spec() == base,
            r.update_fn_spec() == update_fn,
    {
        DynamicListPage { base, update_fn }
    }

    /// Stores the text the user typed — without announcing a property
    /// change, since the host itself typed it — and then runs the update
    /// callback with the old and the new text; its verdict is this
    /// function's result. The callback typically rewrites the item
    /// collection, which announces its own new count. Fails without running
    /// the callback when the search-text cell is poisoned.
    pub fn set_search_text(&self, value: &str) -> (r: Result<(), LockError>)
        requires
            self.wf(),
        ensures
            match r {
                Ok(u) => exists|old_text: String, new_text: String|
                    new_text@ == value@ && #[trigger] call_ensures(
                        self.update_fn_spec(),
                        (old_text, new_text),
                        Ok(u),
                    ),
                Err(e) => e == LockError::Poisoned || exists|
                    old_text: String,
                    new_text: String,
                |
                    new_text@ == value@ && #[trigger] call_ensures(
                        self.update_fn_spec(),
                        (old_text, new_text),
                        Err(e),
                    ),
            },
    {
        let guard = self.base.search_text();
        let old = match guard {
            Ok(g) => {
                let old = g.value().clone();
                g.release();
                old
            },
            Err(e) => {
                return Err(e);
            },
        };
        let new_text = value.to_owned();
        let guard = self.base.search_text_mut_silent();
        match guard {
            Ok(mut g) => {
                g.set(new_text.clone());
                g.finish();
            },
            Err(e) => {
                return Err(e);
            },
        }
        let ghost old_g = old;
        let ghost new_g = new_text;
        proof {
            assert(call_requires(self.update_fn_spec(), (old_g, new_g)));
        }
        let verdict = (self.update_fn)(old, new_text);
        proof {
            assert(call_ensures(self.update_fn_spec(), (old_g, new_g), verdict));
        }
        verdict
    }
}

/// Builder for [`ListPage`].
#[verifier::reject_recursive_types(SP)]
#[verifier::reject_recursive_types(C)]
pub struct ListPageBuilder<SP, C, FM, FL, G> where
    SP: Subscriber<Args = PropChangedEventArgs>,
    FM: Fn() -> Result<bool, LockError>,
 {
    base: Arc<BasePage<SP>>,
    empty_content: Option<Arc<CommandItem<SP, C>>>,
    filters: Option<Arc<FL>>,
    grid_properties: Option<Arc<G>>,
    items: Vec<Arc<ListItem<SP, C>>>,
    placeholder: String,
    search_text: String,
    more_fn: FM,
    has_more: bool,
    show_details: bool,
}

impl<SP, C, FM, FL, G> ListPageBuilder<SP, C, FM, FL, G> where
    SP: Subscriber<Args = PropChangedEventArgs>,
    FM: Fn() -> Result<bool, LockError>,
 {
    /// The shared base page.
    pub closed spec fn base_spec(self) -> Arc<BasePage<SP>> {
        self.base
    }

    /// The entries added so far.
    pub closed spec fn items_spec(self) -> Seq<Arc<ListItem<SP, C>>> {
        self.items@
    }

    /// The paging callback set so far.
    pub closed spec fn more_fn_spec(self) -> FM {
        self.more_fn
    }

    /// Replaces the entry shown while the list is empty.
    pub fn empty_content(self, empty_content: Arc<CommandItem<SP, C>>) -> (r: Self)
        ensures
            r.base_spec() == self.base_spec(),
            r.items_spec() == self.items_spec(),
            r.more_fn_spec() == self.more_fn_spec(),
    {
        ListPageBuilder { empty_content: Some(empty_content), ..self }
    }

    /// Replaces the page's filter list.
    pub fn filters<FL2>(self, filters: Arc<FL2>) -> (r: ListPageBuilder<SP, C, FM, FL2, G>)
        ensures
            r.base_spec() == self.base_spec(),
            r.items_spec() == self.items_spec(),
            r.more_fn_spec() == self.more_fn_spec(),
    {
        ListPageBuilder {
            base: self.base,
            empty_content: self.empty_content,
            filters: Some(filters),
            grid_properties: self.grid_properties,
            items: self.items,
            placeholder: self.placeholder,
            search_text: self.search_text,
            more_fn: self.more_fn,
            has_more: self.has_more,
            show_details: self.show_details,
        }
    }

    /// Replaces the grid layout properties, which define how much space
    /// each entry takes in a grid layout.
    pub fn grid_properties<G2>(self, grid_properties: Arc<G2>) -> (r: ListPageBuilder<
        SP,
        C,
        FM,
        FL,
        G2,
    >)
        ensures
            r.base_spec() == self.base_spec(),
            r.items_spec() == self.items_spec(),
            r.more_fn_spec() == self.more_fn_spec(),
    {
        ListPageBuilder {
            base: self.base,
            empty_content: self.empty_content,
            filters: self.filters,
            grid_properties: Some(grid_properties),
            items: self.items,
            placeholder: self.placeholder,
            search_text: self.search_text,
            more_fn: self.more_fn,
            has_more: self.has_more,
            show_details: self.show_details,
        }
    }

    /// Replaces the entries.
    pub fn items(self, items: Vec<Arc<ListItem<SP, C>>>) -> (r: Self)
        ensures
            r.items_spec() == items@,
            r.base_spec() == self.base_spec(),
            r.more_fn_spec() == self.more_fn_spec(),
    {
        ListPageBuilder { items, ..self }
    }

    /// Appends one entry.
    pub fn add_item(self, item: Arc<ListItem<SP, C>>) -> (r: Self)
        ensures
            r.items_spec() == self.items_spec().push(item),
            r.base_spec() == self.base_spec(),
            r.more_fn_spec() == self.more_fn_spec(),
    {
        let mut items = self.items;
        items.push(item);
        ListPageBuilder { items, ..self }
    }

    /// Sets the search box's placeholder text.
    pub fn placeholder(self, placeholder: &str) -> (r: Self)
        ensures
            r.base_spec() == self.base_spec(),
            r.items_spec() == self.items_spec(),
            r.more_fn_spec() == self.more_fn_spec(),
    {
        ListPageBuilder { placeholder: placeholder.to_owned(), ..self }
    }

    /// Sets the initial search text.
    pub fn search_text(self, search_text: &str) -> (r: Self)
        ensures
            r.base_spec() == self.base_spec(),
            r.items_spec() == self.items_spec(),
            r.more_fn_spec() == self.more_fn_spec(),
    {
        ListPageBuilder { search_text: search_text.to_owned(), ..self }
    }

    /// Replaces the paging callback and marks the page as having more
    /// entries to load.
    pub fn more_fn<FM2: Fn() -> Result<bool, LockError>>(self, more_fn: FM2) -> (r:
        ListPageBuilder<SP, C, FM2, FL, G>)
        ensures
            r.more_fn_spec() == more_fn,
            r.base_spec() == self.base_spec(),
            r.items_spec() == self.items_spec(),
    {
        ListPageBuilder {
            base: self.base,
            empty_content: self.empty_content,
            filters: self.filters,
            grid_properties: self.grid_properties,
            items: self.items,
            placeholder: self.placeholder,
            search_text: self.search_text,
            more_fn,
            has_more: true,
            show_details: self.show_details,
        }
    }

    /// Sets whether the list shows each entry's details.
    pub fn show_details(self, show_details: bool) -> (r: Self)
        ensures
            r.base_spec() == self.base_spec(),
            r.items_spec() == self.items_spec(),
            r.more_fn_spec() == self.more_fn_spec(),
    {
        ListPageBuilder { show_details, ..self }
    }

    /// Assembles the page: each property in a fresh cell, with an empty
    /// collection-size registry, over the same shared base page — the page
    /// decorates it, never copies it.
    pub fn build<SI: Subscriber<Args = ItemsChangedEventArgs>>(self) -> (r: ListPage<
        SP,
        SI,
        C,
        FM,
        FL,
        G,
    >)
        ensures
            r.base_spec() == self.base_spec(),
            r.more_fn_spec() == self.more_fn_spec(),
    {
        ListPage {
            base: self.base,
            empty_content: NotifyLock::new(self.empty_content),
            filters: NotifyLock::new(self.filters),
            grid_properties: NotifyLock::new(self.grid_properties),
            items: NotifyLock::new(self.items),
            placeholder: NotifyLock::new(self.placeholder),
            search_text: NotifyLock::new(self.search_text),
            has_more: NotifyLock::new(self.has_more),
            more_fn: self.more_fn,
            show_details: NotifyLock::new(self.show_details),
            item_event: NotifyLock::new(EventRegistry::new()),
        }
    }
}

/// Starts a list page over the shared `base`, with no entries, empty texts,
/// and a paging callback that reports that nothing more remains.
pub fn list_page_builder<SP, C>(base: Arc<BasePage<SP>>) -> (r: ListPageBuilder<
    SP,
    C,
    impl Fn() -> Result<bool, LockError>,
    (),
    (),
>) where SP: Subscriber<Args = PropChangedEventArgs>
    ensures
        r.base_spec() == base,
        r.items_spec() == Seq::<Arc<ListItem<SP, C>>>::empty(),
        call_requires(r.more_fn_spec(), ()),
        forall|ret: Result<bool, LockError>|
            call_ensures(r.more_fn_spec(), (), ret) ==> (ret matches Ok(more) && !more),
{
    let nothing_more = || -> (ret: Result<bool, LockError>)
        ensures
            ret matches Ok(more) && !more,
        {
            Ok(false)
        };
    let r = ListPageBuilder {
        base,
        empty_content: None,
        filters: None,
        grid_properties: None,
        items: Vec::new(),
        placeholder: String::new(),
        search_text: String::new(),
        more_fn: nothing_more,
        has_more: false,
        show_details: false,
    };
    proof {
        assert(r.items_spec() =~= Seq::<Arc<ListItem<SP, C>>>::empty());
    }
    r
}

} // verus!
