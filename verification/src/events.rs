//! Token-keyed multicast registries and the records they broadcast.
//!
//! An [`EventRegistry`] maps opaque, monotonically assigned integer tokens to
//! subscribers. Subscribers are added one at a time, removed by token
//! (removing a stale or foreign token is a silent no-op), and invoked in
//! registration order by a broadcast. Entities that broadcast while their
//! registry sits inside a [`crate::notify::NotifyLock`] first take a
//! [`EventRegistry::snapshot`] under the lock, release it, and then invoke
//! the snapshot: a subscriber that unsubscribes someone during a broadcast
//! changes later broadcasts, never the one in flight.
use vstd::prelude::*;
use std::sync::Arc;

verus! {

/// A subscriber callback: the host-side code a registry invokes on every
/// broadcast, with the broadcasting entity as `Sender` and the notification
/// record as `Args`.
pub trait Subscriber: Sized {
    /// The type of the value identifying who broadcast.
    type Sender;

    /// The notification record type this subscriber consumes.
    type Args;

    /// Called once per broadcast, in registration order.
    fn invoke(&self, sender: &Self::Sender, args: &Self::Args);
}

/// Record broadcast when a named property of an entity may have changed;
/// carries the property's name.
#[derive(Clone, Debug)]
pub struct PropChangedEventArgs(pub String);

impl From<String> for PropChangedEventArgs {
    fn from(value: String) -> (r: Self) {
        PropChangedEventArgs(value)
    }
}

impl vstd::std_specs::convert::FromSpecImpl<String> for PropChangedEventArgs {
    open spec fn obeys_from_spec() -> bool {
        true
    }

    open spec fn from_spec(value: String) -> Self {
        PropChangedEventArgs(value)
    }
}

/// Record broadcast when the size of an entity-owned collection may have
/// changed; carries the new total, with `-1` meaning the count is unknown.
#[derive(Clone, Copy, PartialEq, Eq, Structural, Debug)]
pub struct ItemsChangedEventArgs(pub i32);

impl From<i32> for ItemsChangedEventArgs {
    fn from(value: i32) -> (r: Self) {
        ItemsChangedEventArgs(value)
    }
}

impl vstd::std_specs::convert::FromSpecImpl<i32> for ItemsChangedEventArgs {
    open spec fn obeys_from_spec() -> bool {
        true
    }

    open spec fn from_spec(value: i32) -> Self {
        ItemsChangedEventArgs(value)
    }
}

/// The count a collection-size record carries for a collection of `len`
/// items: the exact length whenever it is representable, and the `-1`
/// sentinel for a length beyond `i32::MAX`.
pub fn items_count_of(len: usize) -> (n: i32)
    ensures
        len <= i32::MAX ==> n == len,
        len > i32::MAX ==> n == -1,
{
    if len <= i32::MAX as usize {
        len as i32
    } else {
        -1
    }
}

/// Why a registry or event operation failed.
#[derive(Clone, Copy, PartialEq, Eq, Structural, Debug)]
pub enum EventError {
    /// The cell holding the registry was poisoned by an abandoned writer.
    Poisoned,
    /// Every token this registry can issue has been issued.
    TokensExhausted,
}

/// A multicast registry: subscribers keyed by opaque tokens, assigned from a
/// counter that only grows, so a token is never reused while its subscriber
/// is registered.
pub struct EventRegistry<S: Subscriber> {
    subscribers: Vec<(i64, Arc<S>)>,
    next_token: i64,
}

impl<S: Subscriber> EventRegistry<S> {
    /// The registered subscribers with their tokens, in registration order.
    pub closed spec fn entries(self) -> Seq<(i64, Arc<S>)> {
        self.subscribers@
    }

    /// The token the next successful [`EventRegistry::add`] will return.
    pub closed spec fn next_token_spec(self) -> i64 {
        self.next_token
    }

    /// Whether `token` currently keys a subscriber.
    pub open spec fn contains_token(self, token: i64) -> bool {
        exists|i: int| 0 <= i < self.entries().len() && (#[trigger] self.entries()[i]).0 == token
    }

    /// Registry invariant: tokens are positive, below the counter, and
    /// strictly increasing in registration order — hence unique.
    pub open spec fn wf(self) -> bool {
        &&& 1 <= self.next_token_spec()
        &&& forall|i: int|
            0 <= i < self.entries().len() ==> 1 <= (#[trigger] self.entries()[i]).0
                < self.next_token_spec()
        &&& forall|i: int, j: int|
            0 <= i < j < self.entries().len() ==> (#[trigger] self.entries()[i]).0 < (
            #[trigger] self.entries()[j]).0
    }

    /// Creates an empty registry.
    pub fn new() -> (r: Self)
        ensures
            r.wf(),
            r.entries() == Seq::<(i64, Arc<S>)>::empty(),
            r.next_token_spec() == 1,
    {
        let r = EventRegistry { subscribers: Vec::new(), next_token: 1 };
        proof {
            assert(r.entries() =~= Seq::<(i64, Arc<S>)>::empty());
        }
        r
    }

    /// Registers a subscriber and returns its token, unique among all tokens
    /// this registry has issued. Fails only when the token counter is spent.
    pub fn add(&mut self, subscriber: Arc<S>) -> (r: Result<i64, EventError>)
        ensures
            old(self).wf() ==> final(self).wf(),
            r matches Ok(token) ==> (old(self).wf() ==> !old(self).contains_token(token)),
            match r {
                Ok(token) => {
                    &&& old(self).next_token_spec() < i64::MAX
                    &&& token == old(self).next_token_spec()
                    &&& final(self).entries() == old(self).entries().push((token, subscriber))
                    &&& final(self).next_token_spec() == token + 1
                },
                Err(e) => {
                    &&& e == EventError::TokensExhausted
                    &&& old(self).next_token_spec() == i64::MAX
                    &&& *final(self) == *old(self)
                },
            },
    {
        if self.next_token == i64::MAX {
            Err(EventError::TokensExhausted)
        } else {
            let token = self.next_token;
            self.subscribers.push((token, subscriber));
            self.next_token = token + 1;
            proof {
                if old(self).wf() {
                    let entries = self.entries();
                    let prior = old(self).entries();
                    assert forall|i: int|
                        0 <= i < entries.len() implies 1 <= (#[trigger] entries[i]).0
                        < self.next_token_spec() by {
                        if i < prior.len() {
                            assert(entries[i] == prior[i]);
                        }
                    }
                    assert forall|i: int, j: int|
                        0 <= i < j < entries.len() implies (#[trigger] entries[i]).0 < (
                    #[trigger] entries[j]).0 by {
                        if j < prior.len() {
                            assert(entries[i] == prior[i] && entries[j] == prior[j]);
                        } else {
                            assert(entries[i] == prior[i] && entries[j].0 == token);
                        }
                    }
                }
            }
            Ok(token)
        }
    }

    /// Unregisters the subscriber keyed by `token`, keeping all others in
    /// order. A token that is stale, never issued, or issued by another
    /// registry keys nothing, so the registry is left exactly as it was.
    pub fn remove(&mut self, token: i64)
        ensures
            old(self).wf() ==> final(self).wf(),
            final(self).next_token_spec() == old(self).next_token_spec(),
            final(self).entries() == remove_token(old(self).entries(), token),
    {
        let ghost s = self.subscribers@;
        let mut kept: Vec<(i64, Arc<S>)> = Vec::new();
        let mut i: usize = 0;
        proof {
            assert(s.subrange(0, 0) =~= Seq::<(i64, Arc<S>)>::empty());
            assert(kept@ == remove_token(s.subrange(0, 0), token));
        }
        while i < self.subscribers.len()
            invariant
                i <= self.subscribers.len(),
                self.subscribers@ == s,
                self.next_token == old(self).next_token_spec(),
                kept@ == remove_token(s.subrange(0, i as int), token),
            decreases self.subscribers.len() - i,
        {
            let entry = &self.subscribers[i];
            if entry.0 != token {
                let cloned = entry.1.clone();
                kept.push((entry.0, cloned));
            }
            proof {
                let t = s.subrange(0, i as int + 1);
                assert(t.drop_last() =~= s.subrange(0, i as int));
                assert(t.last() == s[i as int]);
                assert((entry.0, entry.1) == s[i as int]);
                lemma_remove_token_step(t, token);
                assert(kept@ == remove_token(t, token));
            }
            i += 1;
        }
        proof {
            assert(s.subrange(0, s.len() as int) =~= s);
        }
        self.subscribers = kept;
        proof {
            if old(self).wf() {
                assert forall|k: int| 0 <= k < s.len() implies 1 <= (#[trigger] s[k]).0
                    < self.next_token as int by {
                    assert(1 <= old(self).entries()[k].0 < old(self).next_token_spec());
                }
                assert forall|k: int, l: int| 0 <= k < l < s.len() implies (#[trigger] s[k]).0 < (
                #[trigger] s[l]).0 by {
                    assert(old(self).entries()[k].0 < old(self).entries()[l].0);
                }
                lemma_remove_token_keeps_wf(s, token, self.next_token as int);
            }
        }
    }

    /// A copy of the current subscriber list in registration order, for
    /// invoking after the lock guarding the registry has been released.
    pub fn snapshot(&self) -> (v: Vec<Arc<S>>)
        ensures
            v@.len() == self.entries().len(),
            forall|i: int| 0 <= i < v@.len() ==> v@[i] == (#[trigger] self.entries()[i]).1,
    {
        let mut v: Vec<Arc<S>> = Vec::new();
        let mut i: usize = 0;
        while i < self.subscribers.len()
            invariant
                i <= self.subscribers.len(),
                v@.len() == i,
                forall|j: int| 0 <= j < i ==> v@[j] == (#[trigger] self.subscribers@[j]).1,
            decreases self.subscribers.len() - i,
        {
            v.push(self.subscribers[i].1.clone());
            i += 1;
        }
        v
    }

    /// Invokes every currently registered subscriber once, in registration
    /// order, passing the same sender and record to each; returns how many
    /// were invoked.
    pub fn broadcast(&self, sender: &S::Sender, args: &S::Args) -> (n: usize)
        ensures
            n == self.entries().len(),
    {
        let mut i: usize = 0;
        while i < self.subscribers.len()
            invariant
                i <= self.subscribers.len(),
            decreases self.subscribers.len() - i,
        {
            self.subscribers[i].1.invoke(sender, args);
            i += 1;
        }
        i
    }
}

/// Invokes every subscriber in `subscribers` once, in order, passing the same
/// sender and record to each; returns how many were invoked. This is the
/// second half of the snapshot-then-broadcast discipline: the snapshot was
/// taken under the registry's lock, the invocations happen after it is
/// released.
pub fn broadcast_to<S: Subscriber>(
    subscribers: &Vec<Arc<S>>,
    sender: &S::Sender,
    args: &S::Args,
) -> (n: usize)
    ensures
        n == subscribers@.len(),
{
    let mut i: usize = 0;
    while i < subscribers.len()
        invariant
            i <= subscribers.len(),
        decreases subscribers.len() - i,
    {
        subscribers[i].invoke(sender, args);
        i += 1;
    }
    i
}

/// A subscriber sequence with every entry keyed by `token` removed and all
/// other entries kept in order: what [`EventRegistry::remove`] leaves behind.
pub open spec fn remove_token<S: Subscriber>(s: Seq<(i64, Arc<S>)>, token: i64) -> Seq<
    (i64, Arc<S>),
>
    decreases s.len(),
{
    if s.len() == 0 {
        s
    } else {
        let rest = remove_token(s.drop_last(), token);
        if s.last().0 != token {
            rest.push(s.last())
        } else {
            rest
        }
    }
}

/// One unfolding of [`remove_token`] on a non-empty sequence.
proof fn lemma_remove_token_step<S: Subscriber>(s: Seq<(i64, Arc<S>)>, token: i64)
    requires
        s.len() > 0,
    ensures
        remove_token(s, token) == if s.last().0 != token {
            remove_token(s.drop_last(), token).push(s.last())
        } else {
            remove_token(s.drop_last(), token)
        },
{
}

/// Every entry the removal keeps sits somewhere in the original sequence.
proof fn lemma_remove_token_element_from<S: Subscriber>(s: Seq<(i64, Arc<S>)>, token: i64, i: int)
    requires
        0 <= i < remove_token(s, token).len(),
    ensures
        exists|k: int| 0 <= k < s.len() && s[k] == remove_token(s, token)[i],
    decreases s.len(),
{
    if s.len() > 0 {
        let rest = s.drop_last();
        if s.last().0 != token && i == remove_token(s, token).len() - 1 {
            assert(s[s.len() - 1] == remove_token(s, token)[i]);
        } else {
            lemma_remove_token_element_from(rest, token, i);
            let k = choose|k: int|
                0 <= k < rest.len() && rest[k] == remove_token(rest, token)[i];
            assert(s[k] == remove_token(s, token)[i]);
        }
    }
}

/// Removing a token preserves the registry invariant: bounds and strict
/// order survive taking a subsequence.
proof fn lemma_remove_token_keeps_wf<S: Subscriber>(s: Seq<(i64, Arc<S>)>, token: i64, bound: int)
    requires
        forall|i: int| 0 <= i < s.len() ==> 1 <= (#[trigger] s[i]).0 < bound,
        forall|i: int, j: int| 0 <= i < j < s.len() ==> (#[trigger] s[i]).0 < (#[trigger] s[j]).0,
    ensures
        forall|i: int|
            0 <= i < remove_token(s, token).len() ==> 1 <= (#[trigger] remove_token(s, token)[i]).0
                < bound,
        forall|i: int, j: int|
            0 <= i < j < remove_token(s, token).len() ==> (#[trigger] remove_token(s, token)[i]).0
                < (#[trigger] remove_token(s, token)[j]).0,
    decreases s.len(),
{
    let out = remove_token(s, token);
    assert forall|i: int| 0 <= i < out.len() implies 1 <= (#[trigger] out[i]).0 < bound by {
        lemma_remove_token_element_from(s, token, i);
    }
    if s.len() > 0 {
        let rest = s.drop_last();
        lemma_remove_token_keeps_wf(rest, token, bound);
        assert forall|i: int, j: int| 0 <= i < j < out.len() implies (#[trigger] out[i]).0 < (
        #[trigger] out[j]).0 by {
            if s.last().0 != token && j == out.len() - 1 {
                lemma_remove_token_element_from(rest, token, i);
                let k = choose|k: int|
                    0 <= k < rest.len() && rest[k] == remove_token(rest, token)[i];
                assert(s[k] == out[i]);
                assert(s[k].0 < s[s.len() - 1].0);
            }
        }
    }
}

/// After a removal, no surviving entry carries the removed token.
pub proof fn lemma_removed_token_is_gone<S: Subscriber>(s: Seq<(i64, Arc<S>)>, token: i64)
    ensures
        forall|i: int|
            0 <= i < remove_token(s, token).len() ==> (#[trigger] remove_token(s, token)[i]).0
                != token,
    decreases s.len(),
{
    if s.len() > 0 {
        lemma_removed_token_is_gone(s.drop_last(), token);
        let out = remove_token(s, token);
        let rest_out = remove_token(s.drop_last(), token);
        assert forall|i: int| 0 <= i < out.len() implies (#[trigger] out[i]).0 != token by {
            if !(s.last().0 != token && i == out.len() - 1) {
                assert(out[i] == rest_out[i]);
            }
        }
    }
}

/// Removing a token no entry carries leaves a subscriber sequence exactly as
/// it was: `remove` of a stale or never-issued token is a no-op.
pub proof fn lemma_remove_absent_is_noop<S: Subscriber>(s: Seq<(i64, Arc<S>)>, token: i64)
    requires
        forall|i: int| 0 <= i < s.len() ==> (#[trigger] s[i]).0 != token,
    ensures
        remove_token(s, token) == s,
    decreases s.len(),
{
    if s.len() > 0 {
        lemma_remove_absent_is_noop(s.drop_last(), token);
        assert(s.drop_last().push(s.last()) =~= s);
    }
}

/// Removing the same token twice is the same as removing it once: after the
/// first removal no entry carries the token, so the second pass keeps
/// everything.
pub proof fn lemma_remove_is_idempotent<S: Subscriber>(s: Seq<(i64, Arc<S>)>, token: i64)
    ensures
        remove_token(remove_token(s, token), token) == remove_token(s, token),
{
    lemma_removed_token_is_gone(s, token);
    lemma_remove_absent_is_noop(remove_token(s, token), token);
}

} // verus!
