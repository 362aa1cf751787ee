//! Shared, lock-protected cells with strong (owning) and weak (non-owning)
//! references.
//!
//! Every piece of state a listener might touch is wrapped in a reader/writer
//! lock and reached through reference-counted pointers. A [`SharedCell`] is a
//! strong, owning reference; a [`WeakCell`] is a non-owning reference whose
//! target may already have been destroyed, so every access first attempts an
//! upgrade that can fail. All lock acquisitions here are non-blocking: a
//! caller that cannot take a lock learns of the contention instead of
//! waiting, which is what lets the dispatcher retry listeners rather than
//! deadlock.
//!
//! The contents of a cell are shared mutable state that other threads may
//! change between any two acquisitions, so no contract in this module pins
//! down what a cell holds; the event core is verified for every value the
//! probes and reads can return.

use vstd::prelude::*;
use std::sync::Arc;
use std::sync::RwLock;
use std::sync::RwLockReadGuard;
use std::sync::RwLockWriteGuard;
use std::sync::Weak;

verus! {

#[verifier::external_type_specification]
#[verifier::external_body]
#[verifier::reject_recursive_types(T)]
pub struct ExRwLock<T: ?Sized>(RwLock<T>);

#[verifier::external_type_specification]
#[verifier::external_body]
#[verifier::reject_recursive_types(T)]
pub struct ExRwLockReadGuard<'a, T: ?Sized>(RwLockReadGuard<'a, T>);

#[verifier::external_type_specification]
#[verifier::external_body]
#[verifier::reject_recursive_types(T)]
pub struct ExRwLockWriteGuard<'a, T: ?Sized + 'a>(RwLockWriteGuard<'a, T>);

/// Relies on std::sync::RwLock::new: creates an unlocked lock holding `t`.
#[verifier::external_body]
fn rwlock_new<T>(t: T) -> RwLock<T> {
    RwLock::new(t)
}

/// Relies on std::sync::RwLock::try_read: returns a shared guard when the
/// lock is neither write-locked nor poisoned, and nothing otherwise. Never
/// blocks.
#[verifier::external_body]
fn rwlock_try_read<'a, T>(lock: &'a RwLock<T>) -> Option<RwLockReadGuard<'a, T>> {
    lock.try_read().ok()
}

/// Relies on std::sync::RwLock::try_write: returns an exclusive guard when
/// the lock is free and not poisoned, and nothing otherwise. Never blocks.
#[verifier::external_body]
fn rwlock_try_write<'a, T>(lock: &'a RwLock<T>) -> Option<RwLockWriteGuard<'a, T>> {
    lock.try_write().ok()
}

/// Relies on std::sync::RwLockReadGuard's Deref impl: borrows the value the
/// guard protects. The value is whatever the cell currently holds.
#[verifier::external_body]
fn read_guard_borrow<'a, 'b, T>(guard: &'b RwLockReadGuard<'a, T>) -> &'b T {
    &**guard
}

/// Relies on std::sync::RwLockWriteGuard's Deref impl: borrows the value the
/// guard protects. The value is whatever the cell currently holds.
#[verifier::external_body]
fn write_guard_borrow<'a, 'b, T>(guard: &'b RwLockWriteGuard<'a, T>) -> &'b T {
    &**guard
}

/// Relies on std::sync::RwLockWriteGuard's DerefMut impl: stores `t` in the
/// locked cell, replacing the previous value.
#[verifier::external_body]
fn write_guard_store<'a, T>(guard: &mut RwLockWriteGuard<'a, T>, t: T) {
    **guard = t;
}

/// A strong, owning reference to a value behind a reader/writer lock.
/// Cloning the cell shares ownership of the same value; the value lives until
/// every strong reference is dropped.
#[verifier::reject_recursive_types(T)]
pub struct SharedCell<T> {
    lock: Arc<RwLock<T>>,
}

/// A non-owning reference to a [`SharedCell`]'s value. The value may be
/// destroyed while a `WeakCell` still points at it; every access therefore
/// goes through [`WeakCell::upgrade`], which can fail.
#[verifier::external_body]
#[verifier::reject_recursive_types(T)]
pub struct WeakCell<T> {
    weak: Weak<RwLock<T>>,
}

/// A shared (read-mode) hold on a cell, kept until dropped. While it exists,
/// no writer can take the lock.
#[verifier::reject_recursive_types(T)]
pub struct ReadHold<'a, T> {
    guard: RwLockReadGuard<'a, T>,
}

/// An exclusive (write-mode) hold on a cell, kept until dropped. While it
/// exists, no other holder can take the lock in either mode.
#[verifier::reject_recursive_types(T)]
pub struct WriteHold<'a, T> {
    guard: RwLockWriteGuard<'a, T>,
}

impl<T> SharedCell<T> {
    /// Wraps `t` in a fresh lock with one strong owner.
    pub fn new(t: T) -> (cell: SharedCell<T>) {
        SharedCell { lock: Arc::new(rwlock_new(t)) }
    }

    /// Shares ownership of the same cell.
    pub fn share(&self) -> (cell: SharedCell<T>) {
        SharedCell { lock: Arc::clone(&self.lock) }
    }

    /// Makes a non-owning reference to this cell's value.
    ///
    /// Relies on std::sync::Arc::downgrade: the result refers to the same
    /// allocation without keeping it alive.
    #[verifier::external_body]
    pub fn downgrade(&self) -> (weak: WeakCell<T>) {
        WeakCell { weak: Arc::downgrade(&self.lock) }
    }

    /// Attempts a non-blocking shared hold on the cell.
    pub fn try_read_hold<'a>(&'a self) -> (hold: Option<ReadHold<'a, T>>) {
        match rwlock_try_read(&*self.lock) {
            Some(guard) => Some(ReadHold { guard }),
            None => None,
        }
    }

    /// Attempts a non-blocking exclusive hold on the cell.
    pub fn try_write_hold<'a>(&'a self) -> (hold: Option<WriteHold<'a, T>>) {
        match rwlock_try_write(&*self.lock) {
            Some(guard) => Some(WriteHold { guard }),
            None => None,
        }
    }
}

impl<T: Clone> SharedCell<T> {
    /// Attempts a non-blocking read of the cell's current value. Returns
    /// nothing when the lock is contended.
    pub fn try_read_value(&self) -> (value: Option<T>) {
        match rwlock_try_read(&*self.lock) {
            Some(guard) => Some(read_guard_borrow(&guard).clone()),
            None => None,
        }
    }
}

impl<T> WeakCell<T> {
    /// Attempts to recover a strong reference.
    ///
    /// Relies on std::sync::Weak::upgrade: succeeds exactly while the value
    /// still has a strong owner somewhere, and fails once it has been
    /// destroyed. The answer can change between calls as other threads drop
    /// their references, so nothing is assumed about which branch is taken.
    #[verifier::external_body]
    pub fn upgrade(&self) -> (cell: Option<SharedCell<T>>) {
        self.weak.upgrade().map(|lock| SharedCell { lock })
    }

    /// Makes another non-owning reference to the same value.
    ///
    /// Relies on std::sync::Weak's Clone impl: the copy refers to the same
    /// allocation.
    #[verifier::external_body]
    pub fn duplicate(&self) -> (weak: WeakCell<T>) {
        WeakCell { weak: self.weak.clone() }
    }
}

impl<'a, T> ReadHold<'a, T> {
    /// Borrows the held value.
    pub fn value(&self) -> (value: &T) {
        read_guard_borrow(&self.guard)
    }
}

impl<'a, T> WriteHold<'a, T> {
    /// Borrows the held value.
    pub fn value(&self) -> (value: &T) {
        write_guard_borrow(&self.guard)
    }

    /// Replaces the held value.
    pub fn store(&mut self, t: T) {
        write_guard_store(&mut self.guard, t);
    }
}

} // verus!
