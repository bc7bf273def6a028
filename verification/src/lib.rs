//! A bounded key-value store with least-recently-used eviction and optional
//! per-entry time-to-live, verified with Verus.
//!
//! `store::StoreInner` is the store for one owner: its operations take the
//! clock reading at which they happen, and each is proved to do to the
//! store's abstract state exactly what `model` says. `kv::KvStore` puts one
//! such store behind a lock and reads a monotonic clock of its own, for
//! callers on many threads. `laws` holds what follows for every state of the
//! store.

pub mod clock;
pub mod entry;
pub mod error;
pub mod kv;
pub mod laws;
pub mod model;
pub mod recency;
pub mod store;

pub use crate::entry::Entry;
pub use crate::error::StoreError;
pub use crate::kv::KvStore;
pub use crate::store::StoreInner;
