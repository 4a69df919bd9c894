//! Building blocks for command-palette extensions: lockable, change-announcing
//! property cells, token-keyed multicast event registries, and the entities
//! (commands, pages, progress and status state, settings, packaging manifests)
//! composed from them.
//!
//! The heart of the crate is the notification layer in [`notify`] and
//! [`events`]: any piece of entity-owned mutable state lives in a
//! [`notify::NotifyLock`], and every completed write announces itself to the
//! subscribers held in an [`events::EventRegistry`] — exactly once per write,
//! never while the lock is still held.

pub mod cmd;
pub mod cmd_item;
pub mod cmd_result;
pub mod content;
pub mod ctx_item;
pub mod details;
pub mod events;
pub mod fallback;
pub mod filter;
pub mod host;
pub mod list;
pub mod notify;
pub mod packaging;
pub mod page;
pub mod provider;
pub mod settings;

pub use notify::LockError;
pub use notify::NotifyLock;
pub use notify::NotifyLockPeekGuard;
pub use notify::NotifyLockReadGuard;
pub use notify::NotifyLockWriteGuard;
