//! The command provider: the root object an extension serves, listing its
//! top-level commands and fallbacks.
use vstd::prelude::*;
use std::sync::Arc;
use crate::events::{EventRegistry, ItemsChangedEventArgs, Subscriber};
use crate::notify::NotifyLock;
use crate::page::NotifyItemsChanged;

verus! {

/// The root object an extension serves: its identity, its top-level command
/// items of type `I`, its fallback items of type `F`, and one registry for
/// subscribers interested in changes to the set of commands.
#[verifier::reject_recursive_types(SI)]
pub struct CommandProvider<SI: Subscriber<Args = ItemsChangedEventArgs>, I, F> {
    /// The provider's identifier.
    pub id: String,
    /// The name shown for the provider.
    pub display_name: String,
    /// The icon shown for the provider, if any.
    pub icon: Option<String>,
    /// Whether the host may cache the provider's commands across sessions.
    pub frozen: bool,
    top_level: Vec<Arc<I>>,
    fallbacks: Vec<Arc<F>>,
    event: NotifyLock<EventRegistry<SI>>,
}

impl<SI: Subscriber<Args = ItemsChangedEventArgs>, I, F> NotifyItemsChanged<
    SI,
> for CommandProvider<SI, I, F> {
    fn items_event(&self) -> &NotifyLock<EventRegistry<SI>> {
        &self.event
    }
}

impl<SI: Subscriber<Args = ItemsChangedEventArgs>, I, F> CommandProvider<SI, I, F> {
    /// The provider's identifier, as seen by specifications.
    pub closed spec fn id_spec(self) -> String {
        self.id
    }

    /// The provider's shown name, as seen by specifications.
    pub closed spec fn display_name_spec(self) -> String {
        self.display_name
    }

    /// The provider's icon, as seen by specifications.
    pub closed spec fn icon_spec(self) -> Option<String> {
        self.icon
    }

    /// The caching flag, as seen by specifications.
    pub closed spec fn frozen_spec(self) -> bool {
        self.frozen
    }

    /// The top-level command items, as seen by specifications.
    pub closed spec fn top_level_spec(self) -> Seq<Arc<I>> {
        self.top_level@
    }

    /// The fallback items, as seen by specifications.
    pub closed spec fn fallbacks_spec(self) -> Seq<Arc<F>> {
        self.fallbacks@
    }

    /// Creates a provider serving `top_level` and `fallbacks`, with an
    /// empty subscriber registry.
    pub fn new(
        id: &str,
        display_name: &str,
        icon: Option<String>,
        frozen: bool,
        top_level: Vec<Arc<I>>,
        fallbacks: Vec<Arc<F>>,
    ) -> (r: Self)
        ensures
            r.id_spec()@ == id@,
            r.display_name_spec()@ == display_name@,
            r.icon_spec() == icon,
            r.frozen_spec() == frozen,
            r.top_level_spec() == top_level@,
            r.fallbacks_spec() == fallbacks@,
    {
        CommandProvider {
            id: id.to_owned(),
            display_name: display_name.to_owned(),
            icon,
            frozen,
            top_level,
            fallbacks,
            event: NotifyLock::new(EventRegistry::new()),
        }
    }

    /// The top-level command items, in order.
    pub fn top_level(&self) -> (r: &Vec<Arc<I>>)
        ensures
            r@ == self.top_level_spec(),
    {
        &self.top_level
    }

    /// The fallback items, in order.
    pub fn fallbacks(&self) -> (r: &Vec<Arc<F>>)
        ensures
            r@ == self.fallbacks_spec(),
    {
        &self.fallbacks
    }
}

} // verus!
