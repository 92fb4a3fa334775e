//! Capability interfaces for key-value map and set containers.
//!
//! The traits here let code be written once against an abstract map or
//! set contract and run unchanged over a hash-backed container, an
//! ordered-tree-backed container, or any custom wrapper that satisfies
//! the same contract. A decorator ([`map::LastInsertMap`],
//! [`set::LastInsertSet`]) shows that implementations compose, and an
//! asynchronous-shaped adapter ([`async_map::AsyncMap`]) re-exposes any
//! map through deferred values that resolve immediately.
//!
//! A lookup hands back a borrowed guard: a read-only handle on the
//! stored value, valid only within the borrow of the container that
//! produced it. No container here needs a richer guard than a plain
//! shared reference, so the interfaces fix the guard type to `&V`; the
//! borrow discipline alone guarantees that no mutation can happen while
//! a guard is alive.

pub mod async_map;
pub mod map;
pub mod set;
