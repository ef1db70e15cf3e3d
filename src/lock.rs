//! Lock access that reports a poisoned lock as "no effect" instead of panicking.
use vstd::prelude::*;
use std::sync::{RwLock, RwLockReadGuard, RwLockWriteGuard};

verus! {

/// std's `RwLock`, carried opaquely.
#[verifier::external_type_specification]
#[verifier::external_body]
#[verifier::reject_recursive_types(T)]
pub struct ExRwLock<T: ?Sized>(RwLock<T>);

/// std's exclusive `RwLock` guard, handed on to the caller's operation.
#[verifier::external_type_specification]
#[verifier::external_body]
#[verifier::reject_recursive_types(T)]
pub struct ExRwLockWriteGuard<'a, T: ?Sized + 'a>(RwLockWriteGuard<'a, T>);

/// std's shared `RwLock` guard, handed on to the caller's operation.
#[verifier::external_type_specification]
#[verifier::external_body]
#[verifier::reject_recursive_types(T)]
pub struct ExRwLockReadGuard<'a, T: ?Sized>(RwLockReadGuard<'a, T>);

/// Relies on std's `RwLock::write`: exclusive access, or `None` where the lock
/// is poisoned. Which of the two comes back depends on other threads.
#[verifier::external_body]
fn acquire_write<'a, T>(lock: &'a RwLock<T>) -> (r: Option<RwLockWriteGuard<'a, T>>) {
    lock.write().ok()
}

/// Relies on std's `RwLock::read`: shared access, or `None` where the lock is
/// poisoned. Which of the two comes back depends on other threads.
#[verifier::external_body]
fn acquire_read<'a, T>(lock: &'a RwLock<T>) -> (r: Option<RwLockReadGuard<'a, T>>) {
    lock.read().ok()
}

/// Runs `operation` with exclusive access to the lock's value and returns its
/// result; returns `None`, running nothing, where the lock cannot be taken.
pub fn safe_write<T, F, R>(lock: &RwLock<T>, operation: F) -> (r: Option<R>) where
    F: FnOnce(RwLockWriteGuard<T>) -> R,

    requires
        forall|g: RwLockWriteGuard<T>| operation.requires((g,)),
    ensures
        r is Some ==> exists|g| #[trigger] operation.ensures((g,), r->Some_0),
{
    match acquire_write(lock) {
        Some(guard) => {
            let ghost g = guard;
            let v = operation(guard);
            let r = Some(v);
            assert(operation.ensures((g,), r->Some_0));
            r
        },
        None => None,
    }
}

/// Runs `operation` with shared access to the lock's value and returns its
/// result; returns `None`, running nothing, where the lock cannot be taken.
pub fn safe_read<T, F, R>(lock: &RwLock<T>, operation: F) -> (r: Option<R>) where
    F: FnOnce(RwLockReadGuard<T>) -> R,

    requires
        forall|g: RwLockReadGuard<T>| operation.requires((g,)),
    ensures
        r is Some ==> exists|g| #[trigger] operation.ensures((g,), r->Some_0),
{
    match acquire_read(lock) {
        Some(guard) => {
            let ghost g = guard;
            let v = operation(guard);
            let r = Some(v);
            assert(operation.ensures((g,), r->Some_0));
            r
        },
        None => None,
    }
}

} // verus!
