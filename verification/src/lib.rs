//! A shared callable guard: a concurrency primitive that many owners can
//! invoke at once, that moves irreversibly from open to closed, and whose
//! closing action is idempotent under races between explicit aborts and
//! last-owner teardown.
//!
//! [`SimpleThreadsafeFunction`] is the leaf: a single `closed` bit behind a
//! verified reader-writer lock. [`HighOrderThreadsafeFunction`] wraps it in a
//! clonable, reference-counted handle with an atomic fast-path flag that lets
//! owners observe "already closed" without taking the lock. The `model`
//! module states the lifetime of one handle group as a mathematical state
//! machine and proves the properties the primitive is meant to have.

pub mod handle;
pub mod model;
pub mod status;
pub mod tsfn;

pub use handle::HighOrderThreadsafeFunction;
pub use status::Status;
pub use tsfn::SimpleThreadsafeFunction;
