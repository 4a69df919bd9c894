//! A read-write lockable cell that announces every completed write.
//!
//! [`NotifyLock`] guards one value. Readers share the cell through
//! [`NotifyLockReadGuard`]; a writer takes it alone through
//! [`NotifyLockWriteGuard`] or [`NotifyLockPeekGuard`]. Each write guard
//! carries the callbacks given when it was acquired and runs them when the
//! guard is finished, in a fixed order: the peeker sees the final value while
//! the lock is still held, the lock is released, and only then does the
//! notifier run. A notifier that re-enters the same cell therefore cannot
//! deadlock against the write that triggered it.
//!
//! Finishing is the caller's duty: a write guard that is neither finished
//! nor abandoned never runs its notifier and never releases the lock, so
//! every acquisition must be paired with exactly one `finish` or `abandon`
//! call on every path.
use vstd::prelude::*;
use vstd::rwlock::{ReadHandle, RwLock, RwLockPredicate, WriteHandle};

verus! {

/// Lock predicate that accepts every value; the cells here put no constraint
/// on their contents.
struct Unrestricted;

impl<V> RwLockPredicate<V> for Unrestricted {
    open spec fn inv(self, v: V) -> bool {
        true
    }
}

/// What a cell stores besides its value: whether an earlier writer gave the
/// value up partway through a mutation.
struct Inner<T> {
    value: T,
    poisoned: bool,
}

/// The one failure a lock operation can report: an earlier writer abandoned
/// its guard mid-mutation, so the stored value may be inconsistent.
#[derive(Clone, Copy, PartialEq, Eq, Structural, Debug)]
pub enum LockError {
    Poisoned,
}

/// A container for one value of type `T` with shared read access, exclusive
/// write access, and a notification callback fired after every completed
/// write.
pub struct NotifyLock<T> {
    lock: RwLock<Inner<T>, Unrestricted>,
}

/// Shared read access to the value of a [`NotifyLock`]. While any read guard
/// is live, no write guard on the same cell can be acquired.
pub struct NotifyLockReadGuard<'a, T> {
    handle: ReadHandle<'a, Inner<T>, Unrestricted>,
}

impl<'a, T> View for NotifyLockReadGuard<'a, T> {
    type V = T;

    closed spec fn view(&self) -> T {
        self.handle.view().value
    }
}

impl<'a, T> NotifyLockReadGuard<'a, T> {
    /// Read-only access to the guarded value.
    pub fn value(&self) -> (v: &T)
        ensures
            *v == self@,
    {
        &self.handle.borrow().value
    }

    /// Gives the shared access back, unblocking writers.
    pub fn release(self) {
        self.handle.release_read();
    }
}

/// Exclusive write access to the value of a [`NotifyLock`], carrying the
/// notifier given at acquisition. Finishing the guard releases the lock and
/// then runs the notifier exactly once.
pub struct NotifyLockWriteGuard<'a, T, NF: Fn()> {
    value: T,
    notifier: NF,
    handle: WriteHandle<'a, Inner<T>, Unrestricted>,
}

impl<'a, T, NF: Fn()> View for NotifyLockWriteGuard<'a, T, NF> {
    type V = T;

    closed spec fn view(&self) -> T {
        self.value
    }
}

impl<'a, T, NF: Fn()> NotifyLockWriteGuard<'a, T, NF> {
    /// The notifier captured when this guard was acquired.
    pub closed spec fn notifier_spec(self) -> NF {
        self.notifier
    }

    /// Read-only access to the guarded value.
    pub fn value(&self) -> (v: &T)
        ensures
            *v == self@,
    {
        &self.value
    }

    /// Mutable access to the guarded value. The callbacks carried by the
    /// guard are untouched.
    pub fn value_mut(&mut self) -> (v: &mut T)
        ensures
            *v == old(self)@,
            final(self)@ == *final(v),
            final(self).notifier_spec() == old(self).notifier_spec(),
    {
        &mut self.value
    }

    /// Replaces the guarded value outright. The callbacks carried by the
    /// guard are untouched.
    pub fn set(&mut self, value: T)
        ensures
            final(self)@ == value,
            final(self).notifier_spec() == old(self).notifier_spec(),
    {
        self.value = value;
    }

    /// Commits the write: stores the final value back into the cell,
    /// releases the lock, and then runs the notifier. The notifier runs
    /// exactly once, strictly after the lock is free, so it may re-enter the
    /// same cell without deadlocking.
    pub fn finish(self)
        requires
            call_requires(self.notifier_spec(), ()),
        ensures
            call_ensures(self.notifier_spec(), (), ()),
    {
        let NotifyLockWriteGuard { value, notifier, handle } = self;
        handle.release_write(Inner { value, poisoned: false });
        notifier();
    }

    /// Gives the write up partway through: the cell is marked poisoned, so
    /// later reads and writes report [`LockError::Poisoned`]. Mirroring a
    /// writer that fails mid-mutation, the finalize sequence still runs: the
    /// lock is released and the notifier fires exactly once.
    pub fn abandon(self)
        requires
            call_requires(self.notifier_spec(), ()),
        ensures
            call_ensures(self.notifier_spec(), (), ()),
    {
        let NotifyLockWriteGuard { value, notifier, handle } = self;
        handle.release_write(Inner { value, poisoned: true });
        notifier();
    }
}

/// Exclusive write access that additionally carries a peeker: when the guard
/// is finished, the peeker computes the notification payload from the final
/// value while the lock is still held, and the notifier receives that payload
/// after the lock is released.
#[verifier::reject_recursive_types(P)]
pub struct NotifyLockPeekGuard<'a, T, P, PF: Fn(&T) -> P, NF: Fn(P)> {
    value: T,
    peeker: PF,
    notifier: NF,
    handle: WriteHandle<'a, Inner<T>, Unrestricted>,
}

impl<'a, T, P, PF: Fn(&T) -> P, NF: Fn(P)> View for NotifyLockPeekGuard<'a, T, P, PF, NF> {
    type V = T;

    closed spec fn view(&self) -> T {
        self.value
    }
}

impl<'a, T, P, PF: Fn(&T) -> P, NF: Fn(P)> NotifyLockPeekGuard<'a, T, P, PF, NF> {
    /// The peeker captured when this guard was acquired.
    pub closed spec fn peeker_spec(self) -> PF {
        self.peeker
    }

    /// The notifier captured when this guard was acquired.
    pub closed spec fn notifier_spec(self) -> NF {
        self.notifier
    }

    /// The guard's callbacks fit together: the peeker accepts every value the
    /// cell could hold, and the notifier accepts every payload the peeker can
    /// produce.
    pub open spec fn wf(self) -> bool {
        &&& forall|t: &T| #[trigger] call_requires(self.peeker_spec(), (t,))
        &&& forall|t: &T, p: P|
            call_ensures(self.peeker_spec(), (t,), p) ==> call_requires(
                self.notifier_spec(),
                (p,),
            )
    }

    /// Read-only access to the guarded value.
    pub fn value(&self) -> (v: &T)
        ensures
            *v == self@,
    {
        &self.value
    }

    /// Mutable access to the guarded value. The callbacks carried by the
    /// guard are untouched.
    pub fn value_mut(&mut self) -> (v: &mut T)
        ensures
            *v == old(self)@,
            final(self)@ == *final(v),
            final(self).peeker_spec() == old(self).peeker_spec(),
            final(self).notifier_spec() == old(self).notifier_spec(),
            final(self).wf() == old(self).wf(),
    {
        &mut self.value
    }

    /// Replaces the guarded value outright. The callbacks carried by the
    /// guard are untouched.
    pub fn set(&mut self, value: T)
        ensures
            final(self)@ == value,
            final(self).peeker_spec() == old(self).peeker_spec(),
            final(self).notifier_spec() == old(self).notifier_spec(),
            final(self).wf() == old(self).wf(),
    {
        self.value = value;
    }

    /// Commits the write. In this order: the peeker observes the final value
    /// (the lock still held, so no concurrent writer can interleave), the
    /// value is stored back and the lock released, and the notifier receives
    /// the peeked payload. The payload handed to the notifier is computed
    /// from exactly the value this guard commits — never a stale one.
    pub fn finish(self)
        requires
            self.wf(),
        ensures
            exists|p: P|
                call_ensures(self.peeker_spec(), (&self@,), p) && #[trigger] call_ensures(
                    self.notifier_spec(),
                    (p,),
                    (),
                ),
    {
        let ghost s = self;
        let NotifyLockPeekGuard { value, peeker, notifier, handle } = self;
        proof {
            assert(call_requires(s.peeker_spec(), (&value,)));
        }
        let p = peeker(&value);
        proof {
            assert(call_requires(s.notifier_spec(), (p,)));
        }
        handle.release_write(Inner { value, poisoned: false });
        notifier(p);
    }

    /// Gives the write up partway through: the cell is marked poisoned, so
    /// later reads and writes report [`LockError::Poisoned`]. Mirroring a
    /// writer that fails mid-mutation, the finalize sequence still runs on
    /// the value as it stands: peek, release, notify.
    pub fn abandon(self)
        requires
            self.wf(),
        ensures
            exists|p: P|
                call_ensures(self.peeker_spec(), (&self@,), p) && #[trigger] call_ensures(
                    self.notifier_spec(),
                    (p,),
                    (),
                ),
    {
        let ghost s = self;
        let NotifyLockPeekGuard { value, peeker, notifier, handle } = self;
        proof {
            assert(call_requires(s.peeker_spec(), (&value,)));
        }
        let p = peeker(&value);
        proof {
            assert(call_requires(s.notifier_spec(), (p,)));
        }
        handle.release_write(Inner { value, poisoned: true });
        notifier(p);
    }
}

impl<T> NotifyLock<T> {
    /// Creates a cell holding `value`, unlocked and not poisoned.
    pub fn new(value: T) -> Self {
        NotifyLock { lock: RwLock::new(Inner { value, poisoned: false }, Ghost(Unrestricted)) }
    }

    /// Acquires shared read access, blocking while a writer holds the cell.
    /// Fails only when an earlier writer abandoned the cell mid-mutation.
    pub fn read(&self) -> (r: Result<NotifyLockReadGuard<'_, T>, LockError>)
        ensures
            r matches Err(e) ==> e == LockError::Poisoned,
    {
        let handle = self.lock.acquire_read();
        if handle.borrow().poisoned {
            handle.release_read();
            Err(LockError::Poisoned)
        } else {
            Ok(NotifyLockReadGuard { handle })
        }
    }

    /// Acquires exclusive write access, blocking while any reader or writer
    /// holds the cell. `notifier` is captured by the guard and runs exactly
    /// once when the guard is finished or abandoned, after the lock is
    /// released. Fails only on poisoning.
    pub fn write<'a, NF: Fn()>(&'a self, notifier: NF) -> (r: Result<
        NotifyLockWriteGuard<'a, T, NF>,
        LockError,
    >)
        requires
            call_requires(notifier, ()),
        ensures
            match r {
                Ok(g) => g.notifier_spec() == notifier,
                Err(e) => e == LockError::Poisoned,
            },
    {
        let (inner, handle) = self.lock.acquire_write();
        if inner.poisoned {
            handle.release_write(inner);
            Err(LockError::Poisoned)
        } else {
            Ok(NotifyLockWriteGuard { value: inner.value, notifier, handle })
        }
    }

    /// Acquires exclusive write access with a payload-computing peeker. When
    /// the guard is finished, `peeker` runs on the final value under the
    /// lock, and `notifier` receives its result after the lock is released.
    /// Fails only on poisoning.
    pub fn write_with_peek<'a, P, PF: Fn(&T) -> P, NF: Fn(P)>(
        &'a self,
        peeker: PF,
        notifier: NF,
    ) -> (r: Result<NotifyLockPeekGuard<'a, T, P, PF, NF>, LockError>)
        requires
            forall|t: &T| #[trigger] call_requires(peeker, (t,)),
            forall|t: &T, p: P| call_ensures(peeker, (t,), p) ==> call_requires(notifier, (p,)),
        ensures
            match r {
                Ok(g) => g.peeker_spec() == peeker && g.notifier_spec() == notifier && g.wf(),
                Err(e) => e == LockError::Poisoned,
            },
    {
        let (inner, handle) = self.lock.acquire_write();
        if inner.poisoned {
            handle.release_write(inner);
            Err(LockError::Poisoned)
        } else {
            Ok(NotifyLockPeekGuard { value: inner.value, peeker, notifier, handle })
        }
    }
}

} // verus!
