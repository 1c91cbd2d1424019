//! The lock-protected, shareable cell every handle is built on.
//!
//! A `LockCell` owns its payload behind a reference-counted mutual
//! exclusion lock. Acquisition is strictly non-blocking: taking the
//! payload out succeeds only when nobody else holds it, and a second
//! taker is refused immediately instead of queuing — the call boundary
//! must never block on internal contention. The payload stays out until
//! it is put back, so a caller may hold a handle across several calls.

use vstd::prelude::*;

verus! {

/// A reference-counted cell whose payload is protected by a
/// non-blocking mutual-exclusion lock. While the payload is taken out,
/// every further take fails.
#[verifier::external_body]
#[verifier::reject_recursive_types(T)]
pub(crate) struct LockCell<T> {
    inner: std::sync::Arc<std::sync::Mutex<Option<T>>>,
}

/// Relies on `std::sync::Mutex::new`: a fresh cell holding the value,
/// not locked by anyone.
#[verifier::external_body]
pub(crate) fn cell_new<T>(value: T) -> (c: LockCell<T>) {
    LockCell { inner: std::sync::Arc::new(std::sync::Mutex::new(Some(value))) }
}

/// Relies on `std::sync::Mutex::try_lock`: hands the payload out when
/// the cell is free, and refuses immediately — never blocks — when the
/// lock or the payload is held by another caller.
#[verifier::external_body]
pub(crate) fn cell_try_take<T>(c: &LockCell<T>) -> (r: Option<T>) {
    match c.inner.try_lock() {
        Ok(mut guard) => guard.take(),
        Err(_) => None,
    }
}

/// Relies on `std::sync::Mutex::lock`: puts the payload back, making
/// the cell free again. The mutex is held only for the instant of the
/// store, so this never blocks for long.
#[verifier::external_body]
pub(crate) fn cell_put<T>(c: &LockCell<T>, value: T) {
    let mut guard = match c.inner.lock() {
        Ok(g) => g,
        Err(poisoned) => poisoned.into_inner(),
    };
    *guard = Some(value);
}

/// Relies on `std::sync::Arc::clone`: another reference to the same
/// cell, so many call sites can share one handle.
#[verifier::external_body]
pub(crate) fn cell_share<T>(c: &LockCell<T>) -> (r: LockCell<T>) {
    LockCell { inner: std::sync::Arc::clone(&c.inner) }
}

} // verus!
