//! Filters a page offers for narrowing its list.
//!
//! [`Filters`] keeps the currently selected filter in a change-announcing
//! cell; selecting a filter by identifier finds the first match, commits it,
//! releases the lock, and only then hands the old and new selection to the
//! update callback — which may therefore re-read the selection freely.
use vstd::prelude::*;
use crate::notify::{LockError, NotifyLock, NotifyLockReadGuard};

verus! {

/// A visual separator between groups of filter items; it carries no data and
/// reacts to nothing.
#[derive(Clone, Copy, PartialEq, Eq, Structural, Debug)]
pub struct FilterSeparator;

/// A selectable filter: an identifier the page reacts to, a name the user
/// sees, and an optional icon.
#[derive(Debug)]
pub struct Filter {
    /// The icon shown with the filter, if any.
    pub icon: Option<String>,
    /// The identifier reported back when the filter is selected.
    pub id: String,
    /// The name the user sees.
    pub name: String,
}

/// One entry in a page's filter list: either a selectable filter or a
/// separator.
pub enum FilterItem {
    /// A visual separator.
    Separator(FilterSeparator),
    /// A selectable filter.
    Filter(Filter),
}

impl Clone for Filter {
    fn clone(&self) -> (r: Self)
        ensures
            r == *self,
    {
        Filter {
            icon: match &self.icon {
                Some(icon) => Some(icon.clone()),
                None => None,
            },
            id: self.id.clone(),
            name: self.name.clone(),
        }
    }
}

/// The first selectable filter in `items` whose identifier reads `id`;
/// separators never match.
pub open spec fn find_filter(items: Seq<FilterItem>, id: Seq<char>) -> Option<Filter>
    decreases items.len(),
{
    if items.len() == 0 {
        None
    } else {
        match items[0] {
            FilterItem::Filter(f) => if f.id@ == id {
                Some(f)
            } else {
                find_filter(items.drop_first(), id)
            },
            FilterItem::Separator(_) => find_filter(items.drop_first(), id),
        }
    }
}

/// One unfolding of [`find_filter`] at position `i`.
proof fn lemma_find_filter_step(items: Seq<FilterItem>, id: Seq<char>, i: int)
    requires
        0 <= i < items.len(),
    ensures
        find_filter(items.skip(i), id) == (match items[i] {
            FilterItem::Filter(f) => if f.id@ == id {
                Some(f)
            } else {
                find_filter(items.skip(i + 1), id)
            },
            FilterItem::Separator(_) => find_filter(items.skip(i + 1), id),
        }),
{
    assert(items.skip(i).drop_first() =~= items.skip(i + 1));
    assert(items.skip(i)[0] == items[i]);
}

/// A filter list with one current selection. Selecting announces itself to
/// the update callback after the selection's lock is released.
pub struct Filters<F: Fn(Option<Filter>, Option<Filter>) -> Result<(), LockError>> {
    items: Vec<FilterItem>,
    current: NotifyLock<Option<Filter>>,
    on_update: F,
}

impl<F: Fn(Option<Filter>, Option<Filter>) -> Result<(), LockError>> Filters<F> {
    /// The filter items, in the order they are shown.
    pub closed spec fn items_spec(self) -> Seq<FilterItem> {
        self.items@
    }

    /// The callback invoked with the old and new selection after every
    /// selection change.
    pub closed spec fn on_update_spec(self) -> F {
        self.on_update
    }

    /// The update callback accepts every pair of selections.
    pub open spec fn wf(self) -> bool {
        forall|old_f: Option<Filter>, new_f: Option<Filter>|
            #[trigger] call_requires(self.on_update_spec(), (old_f, new_f))
    }

    /// The filter items, in the order they are shown.
    pub fn items(&self) -> (r: &Vec<FilterItem>)
        ensures
            r@ == self.items_spec(),
    {
        &self.items
    }

    /// Shared read access to the current selection.
    pub fn current(&self) -> (r: Result<NotifyLockReadGuard<'_, Option<Filter>>, LockError>)
        ensures
            r matches Err(e) ==> e == LockError::Poisoned,
    {
        self.current.read()
    }

    /// The identifier of the current selection, if any filter is selected.
    pub fn current_filter_id(&self) -> (r: Result<Option<String>, LockError>)
        ensures
            r matches Err(e) ==> e == LockError::Poisoned,
    {
        let guard = self.current.read();
        match guard {
            Ok(g) => {
                let id = match g.value() {
                    Some(f) => Some(f.id.clone()),
                    None => None,
                };
                g.release();
                Ok(id)
            },
            Err(e) => Err(e),
        }
    }

    /// Selects the first filter whose identifier reads `value`, or clears
    /// the selection when none matches. Once the new selection is committed
    /// and its lock released, the update callback receives the old and the
    /// new selection; its verdict is this function's result. Fails with
    /// [`LockError::Poisoned`] without running the callback when the
    /// selection cell is poisoned.
    pub fn set_current_filter_id(&self, value: &str) -> (r: Result<(), LockError>)
        requires
            self.wf(),
        ensures
            match r {
                Ok(u) => exists|old_f: Option<Filter>|
                    #[trigger] call_ensures(
                        self.on_update_spec(),
                        (old_f, find_filter(self.items_spec(), value@)),
                        Ok(u),
                    ),
                Err(e) => e == LockError::Poisoned || exists|old_f: Option<Filter>|
                    #[trigger] call_ensures(
                        self.on_update_spec(),
                        (old_f, find_filter(self.items_spec(), value@)),
                        Err(e),
                    ),
            },
    {
        let wanted = value.to_owned();
        let guard = self.current.write(
            || {
            },
        );
        let mut guard = match guard {
            Ok(g) => g,
            Err(e) => {
                return Err(e);
            },
        };
        let old = match guard.value() {
            Some(f) => Some(f.clone()),
            None => None,
        };

        let mut found: Option<Filter> = None;
        let mut i: usize = 0;
        proof {
            assert(self.items@.skip(0) =~= self.items@);
        }
        while i < self.items.len()
            invariant_except_break
                i <= self.items.len(),
                found is None,
                find_filter(self.items@, wanted@) == find_filter(
                    self.items@.skip(i as int),
                    wanted@,
                ),
            ensures
                found == find_filter(self.items@, wanted@),
            decreases self.items.len() - i,
        {
            proof {
                lemma_find_filter_step(self.items@, wanted@, i as int);
            }
            let hit = match &self.items[i] {
                FilterItem::Filter(f) => {
                    if f.id == wanted {
                        Some(f.clone())
                    } else {
                        None
                    }
                },
                FilterItem::Separator(_) => None,
            };
            match hit {
                Some(f) => {
                    found = Some(f);
                    break;
                },
                None => {
                    i += 1;
                },
            }
        }
        proof {
            if i == self.items.len() {
                assert(self.items@.skip(i as int) =~= Seq::<FilterItem>::empty());
            }
        }

        let stored = match &found {
            Some(f) => Some(f.clone()),
            None => None,
        };
        guard.set(stored);
        guard.finish();
        let ghost old_g = old;
        let ghost found_g = found;
        proof {
            assert(call_requires(self.on_update_spec(), (old_g, found_g)));
        }
        let verdict = (self.on_update)(old, found);
        proof {
            assert(found_g == find_filter(self.items_spec(), value@));
            assert(call_ensures(
                self.on_update_spec(),
                (old_g, find_filter(self.items_spec(), value@)),
                verdict,
            ));
        }
        verdict
    }
}

/// Builder for [`Filters`].
pub struct FiltersBuilder<F: Fn(Option<Filter>, Option<Filter>) -> Result<(), LockError>> {
    items: Vec<FilterItem>,
    on_update: F,
}

impl<F: Fn(Option<Filter>, Option<Filter>) -> Result<(), LockError>> FiltersBuilder<F> {
    /// The items added so far.
    pub closed spec fn items_spec(self) -> Seq<FilterItem> {
        self.items@
    }

    /// The update callback set so far.
    pub closed spec fn on_update_spec(self) -> F {
        self.on_update
    }

    /// Appends one filter item.
    pub fn add(self, item: FilterItem) -> (r: Self)
        ensures
            r.items_spec() == self.items_spec().push(item),
            r.on_update_spec() == self.on_update_spec(),
    {
        let mut items = self.items;
        items.push(item);
        FiltersBuilder { items, on_update: self.on_update }
    }

    /// Appends one selectable filter.
    pub fn add_filter(self, item: Filter) -> (r: Self)
        ensures
            r.items_spec() == self.items_spec().push(FilterItem::Filter(item)),
            r.on_update_spec() == self.on_update_spec(),
    {
        self.add(FilterItem::Filter(item))
    }

    /// Appends one separator.
    pub fn add_separator(self) -> (r: Self)
        ensures
            r.items_spec() == self.items_spec().push(FilterItem::Separator(FilterSeparator)),
            r.on_update_spec() == self.on_update_spec(),
    {
        self.add(FilterItem::Separator(FilterSeparator))
    }

    /// Replaces the update callback: it receives the old and the new
    /// selection after every committed selection change, and should refresh
    /// whatever the filter narrows.
    pub fn on_update<F2: Fn(Option<Filter>, Option<Filter>) -> Result<(), LockError>>(
        self,
        func: F2,
    ) -> (r: FiltersBuilder<F2>)
        ensures
            r.items_spec() == self.items_spec(),
            r.on_update_spec() == func,
    {
        FiltersBuilder { items: self.items, on_update: func }
    }

    /// Assembles the filter list with no current selection.
    pub fn build(self) -> (r: Filters<F>)
        ensures
            r.items_spec() == self.items_spec(),
            r.on_update_spec() == self.on_update_spec(),
    {
        Filters {
            items: self.items,
            current: NotifyLock::new(None),
            on_update: self.on_update,
        }
    }
}

/// Starts an empty filter list whose update callback accepts every change
/// and reports success.
pub fn filters_builder() -> (r: FiltersBuilder<
    impl Fn(Option<Filter>, Option<Filter>) -> Result<(), LockError>,
>)
    ensures
        r.items_spec() == Seq::<FilterItem>::empty(),
        forall|a: Option<Filter>, b: Option<Filter>|
            #[trigger] call_requires(r.on_update_spec(), (a, b)),
        forall|a: Option<Filter>, b: Option<Filter>, ret: Result<(), LockError>|
            call_ensures(r.on_update_spec(), (a, b), ret) ==> ret is Ok,
{
    let noop = |_old: Option<Filter>, _new: Option<Filter>| -> (ret: Result<(), LockError>)
        ensures
            ret is Ok,
        {
            Ok(())
        };
    let r = FiltersBuilder { items: Vec::new(), on_update: noop };
    proof {
        assert(r.items_spec() =~= Seq::<FilterItem>::empty());
    }
    r
}

} // verus!
