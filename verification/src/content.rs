//! Content blocks a page can show.
//!
//! Each content type keeps its text in change-announcing cells and owns one
//! registry for property-change subscribers.
use vstd::prelude::*;
use crate::cmd::NotifyPropChanged;
use crate::events::{
    items_count_of,
    EventRegistry,
    ItemsChangedEventArgs,
    PropChangedEventArgs,
    Subscriber,
};
use crate::notify::{
    LockError,
    NotifyLock,
    NotifyLockPeekGuard,
    NotifyLockReadGuard,
    NotifyLockWriteGuard,
};
use crate::page::NotifyItemsChanged;

verus! {

/// Formatted text shown as one content block.
pub struct MarkdownContent<S: Subscriber<Args = PropChangedEventArgs>> {
    body: NotifyLock<String>,
    event: NotifyLock<EventRegistry<S>>,
}

impl<S: Subscriber<Args = PropChangedEventArgs>> NotifyPropChanged<S> for MarkdownContent<S> {
    fn prop_event(&self) -> &NotifyLock<EventRegistry<S>> {
        &self.event
    }
}

impl<S: Subscriber<Args = PropChangedEventArgs>> MarkdownContent<S> {
    /// Creates a content block showing `body`, with an empty subscriber
    /// registry.
    pub fn new(body: &str) -> Self {
        MarkdownContent {
            body: NotifyLock::new(body.to_owned()),
            event: NotifyLock::new(EventRegistry::new()),
        }
    }

    /// Shared read access to the text shown.
    pub fn body(&self) -> (r: Result<NotifyLockReadGuard<'_, String>, LockError>)
        ensures
            r matches Err(e) ==> e == LockError::Poisoned,
    {
        self.body.read()
    }

    /// Exclusive write access to the text shown; announces `"Body"` on
    /// finish, after the lock is released.
    pub fn body_mut<'a>(&'a self, sender: &'a S::Sender) -> (r: Result<
        NotifyLockWriteGuard<'a, String, impl Fn() + 'a>,
        LockError,
    >)
        ensures
            r matches Ok(g) ==> call_requires(g.notifier_spec(), ()),
            r matches Err(e) ==> e == LockError::Poisoned,
    {
        self.body.write(
            move || {
                let _ = self.emit_prop_changed(sender, "Body");
            },
        )
    }
}

/// A form the user fills in, described by three pieces of JSON text: the
/// form's template, the data filled into it, and its state.
pub struct FormContent<S: Subscriber<Args = PropChangedEventArgs>> {
    template_json: NotifyLock<String>,
    data_json: NotifyLock<String>,
    state_json: NotifyLock<String>,
    event: NotifyLock<EventRegistry<S>>,
}

impl<S: Subscriber<Args = PropChangedEventArgs>> NotifyPropChanged<S> for FormContent<S> {
    fn prop_event(&self) -> &NotifyLock<EventRegistry<S>> {
        &self.event
    }
}

impl<S: Subscriber<Args = PropChangedEventArgs>> FormContent<S> {
    /// Shared read access to the form's template text.
    pub fn template_json(&self) -> (r: Result<NotifyLockReadGuard<'_, String>, LockError>)
        ensures
            r matches Err(e) ==> e == LockError::Poisoned,
    {
        self.template_json.read()
    }

    /// Exclusive write access to the form's template text; announces
    /// `"TemplateJson"` on finish, after the lock is released.
    pub fn template_json_mut<'a>(&'a self, sender: &'a S::Sender) -> (r: Result<
        NotifyLockWriteGuard<'a, String, impl Fn() + 'a>,
        LockError,
    >)
        ensures
            r matches Ok(g) ==> call_requires(g.notifier_spec(), ()),
            r matches Err(e) ==> e == LockError::Poisoned,
    {
        self.template_json.write(
            move || {
                let _ = self.emit_prop_changed(sender, "TemplateJson");
            },
        )
    }

    /// Shared read access to the form's data text.
    pub fn data_json(&self) -> (r: Result<NotifyLockReadGuard<'_, String>, LockError>)
        ensures
            r matches Err(e) ==> e == LockError::Poisoned,
    {
        self.data_json.read()
    }

    /// Exclusive write access to the form's data text; announces
    /// `"DataJson"` on finish, after the lock is released.
    pub fn data_json_mut<'a>(&'a self, sender: &'a S::Sender) -> (r: Result<
        NotifyLockWriteGuard<'a, String, impl Fn() + 'a>,
        LockError,
    >)
        ensures
            r matches Ok(g) ==> call_requires(g.notifier_spec(), ()),
            r matches Err(e) ==> e == LockError::Poisoned,
    {
        self.data_json.write(
            move || {
                let _ = self.emit_prop_changed(sender, "DataJson");
            },
        )
    }

    /// Shared read access to the form's state text.
    pub fn state_json(&self) -> (r: Result<NotifyLockReadGuard<'_, String>, LockError>)
        ensures
            r matches Err(e) ==> e == LockError::Poisoned,
    {
        self.state_json.read()
    }

    /// Exclusive write access to the form's state text; announces
    /// `"StateJson"` on finish, after the lock is released.
    pub fn state_json_mut<'a>(&'a self, sender: &'a S::Sender) -> (r: Result<
        NotifyLockWriteGuard<'a, String, impl Fn() + 'a>,
        LockError,
    >)
        ensures
            r matches Ok(g) ==> call_requires(g.notifier_spec(), ()),
            r matches Err(e) ==> e == LockError::Poisoned,
    {
        self.state_json.write(
            move || {
                let _ = self.emit_prop_changed(sender, "StateJson");
            },
        )
    }
}

/// Builder for [`FormContent`].
pub struct FormContentBuilder {
    template_json: String,
    data_json: String,
    state_json: String,
}

impl FormContentBuilder {
    /// The template text set so far.
    pub closed spec fn template_json_spec(self) -> String {
        self.template_json
    }

    /// The data text set so far.
    pub closed spec fn data_json_spec(self) -> String {
        self.data_json
    }

    /// The state text set so far.
    pub closed spec fn state_json_spec(self) -> String {
        self.state_json
    }

    /// Starts a form with every text empty.
    pub fn new() -> (r: Self)
        ensures
            r.template_json_spec()@ == Seq::<char>::empty(),
            r.data_json_spec()@ == Seq::<char>::empty(),
            r.state_json_spec()@ == Seq::<char>::empty(),
    {
        FormContentBuilder {
            template_json: String::new(),
            data_json: String::new(),
            state_json: String::new(),
        }
    }

    /// Sets the form's template text.
    pub fn template_json(self, template_json: &str) -> (r: Self)
        ensures
            r.template_json_spec()@ == template_json@,
            r.data_json_spec() == self.data_json_spec(),
            r.state_json_spec() == self.state_json_spec(),
    {
        FormContentBuilder { template_json: template_json.to_owned(), ..self }
    }

    /// Sets the form's data text.
    pub fn data_json(self, data_json: &str) -> (r: Self)
        ensures
            r.data_json_spec()@ == data_json@,
            r.template_json_spec() == self.template_json_spec(),
            r.state_json_spec() == self.state_json_spec(),
    {
        FormContentBuilder { data_json: data_json.to_owned(), ..self }
    }

    /// Sets the form's state text.
    pub fn state_json(self, state_json: &str) -> (r: Self)
        ensures
            r.state_json_spec()@ == state_json@,
            r.template_json_spec() == self.template_json_spec(),
            r.data_json_spec() == self.data_json_spec(),
    {
        FormContentBuilder { state_json: state_json.to_owned(), ..self }
    }

    /// Assembles the form: each text in a fresh cell, with an empty
    /// subscriber registry.
    pub fn build<S: Subscriber<Args = PropChangedEventArgs>>(self) -> FormContent<S> {
        FormContent {
            template_json: NotifyLock::new(self.template_json),
            data_json: NotifyLock::new(self.data_json),
            state_json: NotifyLock::new(self.state_json),
            event: NotifyLock::new(EventRegistry::new()),
        }
    }
}

impl Default for FormContentBuilder {
    fn default() -> (r: Self)
        ensures
            r.template_json_spec()@ == Seq::<char>::empty(),
            r.data_json_spec()@ == Seq::<char>::empty(),
            r.state_json_spec()@ == Seq::<char>::empty(),
    {
        FormContentBuilder::new()
    }
}

/// Nested content: one root content block with a collection of children.
/// Changing the root announces a property change; changing the children
/// announces the post-mutation child count.
#[verifier::reject_recursive_types(SP)]
#[verifier::reject_recursive_types(SI)]
pub struct TreeContent<SP, SI, C> where
    SP: Subscriber<Args = PropChangedEventArgs>,
    SI: Subscriber<Args = ItemsChangedEventArgs>,
 {
    root: NotifyLock<C>,
    children: NotifyLock<Vec<C>>,
    prop_event: NotifyLock<EventRegistry<SP>>,
    item_event: NotifyLock<EventRegistry<SI>>,
}

impl<SP, SI, C> NotifyPropChanged<SP> for TreeContent<SP, SI, C> where
    SP: Subscriber<Args = PropChangedEventArgs>,
    SI: Subscriber<Args = ItemsChangedEventArgs>,
 {
    fn prop_event(&self) -> &NotifyLock<EventRegistry<SP>> {
        &self.prop_event
    }
}

impl<SP, SI, C> NotifyItemsChanged<SI> for TreeContent<SP, SI, C> where
    SP: Subscriber<Args = PropChangedEventArgs>,
    SI: Subscriber<Args = ItemsChangedEventArgs>,
 {
    fn items_event(&self) -> &NotifyLock<EventRegistry<SI>> {
        &self.item_event
    }
}

impl<SP, SI, C> TreeContent<SP, SI, C> where
    SP: Subscriber<Args = PropChangedEventArgs>,
    SI: Subscriber<Args = ItemsChangedEventArgs>,
 {
    /// Shared read access to the root content.
    pub fn root(&self) -> (r: Result<NotifyLockReadGuard<'_, C>, LockError>)
        ensures
            r matches Err(e) ==> e == LockError::Poisoned,
    {
        self.root.read()
    }

    /// Exclusive write access to the root content; announces
    /// `"RootContent"` on finish, after the lock is released.
    pub fn root_mut<'a>(&'a self, sender: &'a SP::Sender) -> (r: Result<
        NotifyLockWriteGuard<'a, C, impl Fn() + 'a>,
        LockError,
    >)
        ensures
            r matches Ok(g) ==> call_requires(g.notifier_spec(), ()),
            r matches Err(e) ==> e == LockError::Poisoned,
    {
        self.root.write(
            move || {
                let _ = self.emit_prop_changed(sender, "RootContent");
            },
        )
    }

    /// Shared read access to the children.
    pub fn children(&self) -> (r: Result<NotifyLockReadGuard<'_, Vec<C>>, LockError>)
        ensures
            r matches Err(e) ==> e == LockError::Poisoned,
    {
        self.children.read()
    }

    /// Exclusive write access to the children. When the returned guard is
    /// finished, the length of the final collection is read while the lock
    /// is still held, and every collection-size subscriber hears exactly
    /// that post-mutation count (or `-1` if it exceeds `i32::MAX`) after
    /// the lock is released.
    pub fn children_mut<'a>(&'a self, sender: &'a SI::Sender) -> (r: Result<
        NotifyLockPeekGuard<'a, Vec<C>, usize, impl Fn(&Vec<C>) -> usize, impl Fn(usize) + 'a>,
        LockError,
    >)
        ensures
            r matches Ok(g) ==> g.wf() && (forall|v: &Vec<C>, n: usize|
                call_ensures(g.peeker_spec(), (v,), n) ==> n == v@.len()),
            r matches Err(e) ==> e == LockError::Poisoned,
    {
        let peeker = |v: &Vec<C>| -> (n: usize)
            ensures
                n == v@.len(),
            {
                v.len()
            };
        let notifier = move |n: usize|
            {
                let _ = self.emit_items_changed(sender, items_count_of(n));
            };
        self.children.write_with_peek(peeker, notifier)
    }
}

/// Builder for [`TreeContent`].
pub struct TreeContentBuilder<C> {
    root: C,
    children: Vec<C>,
}

impl<C> TreeContentBuilder<C> {
    /// The root content the builder was created with.
    pub closed spec fn root_spec(self) -> C {
        self.root
    }

    /// The children added so far.
    pub closed spec fn children_spec(self) -> Seq<C> {
        self.children@
    }

    /// Starts a tree with the given root and no children.
    pub fn new(root: C) -> (r: Self)
        ensures
            r.root_spec() == root,
            r.children_spec() == Seq::<C>::empty(),
    {
        let r = TreeContentBuilder { root, children: Vec::new() };
        proof {
            assert(r.children_spec() =~= Seq::<C>::empty());
        }
        r
    }

    /// Replaces the children.
    pub fn children(self, children: Vec<C>) -> (r: Self)
        ensures
            r.children_spec() == children@,
            r.root_spec() == self.root_spec(),
    {
        TreeContentBuilder { children, ..self }
    }

    /// Appends one child.
    pub fn add_child(self, child: C) -> (r: Self)
        ensures
            r.children_spec() == self.children_spec().push(child),
            r.root_spec() == self.root_spec(),
    {
        let mut children = self.children;
        children.push(child);
        TreeContentBuilder { children, ..self }
    }

    /// Assembles the tree: root and children in fresh cells, with empty
    /// subscriber registries.
    pub fn build<SP, SI>(self) -> TreeContent<SP, SI, C> where
        SP: Subscriber<Args = PropChangedEventArgs>,
        SI: Subscriber<Args = ItemsChangedEventArgs>,
    {
        TreeContent {
            root: NotifyLock::new(self.root),
            children: NotifyLock::new(self.children),
            prop_event: NotifyLock::new(EventRegistry::new()),
            item_event: NotifyLock::new(EventRegistry::new()),
        }
    }
}

} // verus!
