//! The capability-lock declaration mechanism.
//!
//! A component declares, once, the named pieces of shared state its reaction
//! needs, each tagged read or write, and receives them as ordinary borrowed
//! values inside its callback. A *binding* pairs the declared capabilities
//! (weak references to [`SharedCell`]s) with the callback; registering it
//! yields a listener whose every attempt follows the acquisition protocol:
//!
//! * capabilities are probed in declaration order: upgrade the weak
//!   reference, then try the lock, non-blocking, in the declared mode;
//! * the first capability whose upgrade fails ends the attempt with the
//!   permanent failure, without probing later capabilities;
//! * the first capability that upgrades but cannot be locked ends the
//!   attempt with the recoverable failure, again probing no further;
//! * only when every capability is acquired does the callback run, exactly
//!   once, with the acquired values in declaration order — acquisition is
//!   all-or-nothing, and no lock is retained across attempts.
//!
//! [`classify`] is that protocol as a function of the probe outcomes, and
//! the proof functions here pin down its decisive properties.

use vstd::prelude::*;
use core::marker::PhantomData;
use crate::cell::SharedCell;
use crate::cell::WeakCell;
use crate::events::Event;
use crate::events::EventHandler;
use crate::events::ListenError;
use crate::events::Listener;
use crate::events::ListenerID;
use crate::events::Reaction;

verus! {

/// The outcome of probing one declared capability: upgrading its weak
/// reference and, if the value still exists, trying its lock in the declared
/// mode.
pub enum Probe {
    /// The value exists and its lock was taken in the declared mode.
    Acquired,
    /// The value exists but another holder has a conflicting lock.
    Contended,
    /// The value has been destroyed; the weak reference cannot upgrade.
    Gone,
}

/// The acquisition protocol as a function of the probe outcomes, in
/// declaration order: the first probe that did not acquire decides the
/// attempt — a destroyed value is the permanent failure, a contended lock
/// the recoverable one — and an attempt whose every probe acquired runs the
/// callback and succeeds.
pub open spec fn classify(probes: Seq<Probe>) -> Result<(), ListenError>
    decreases probes.len(),
{
    if probes.len() == 0 {
        Ok(())
    } else {
        match probes.first() {
            Probe::Acquired => classify(probes.drop_first()),
            Probe::Contended => Err(ListenError::LockUnavailable),
            Probe::Gone => Err(ListenError::RequirementDeleted),
        }
    }
}

/// All-or-nothing acquisition: an attempt succeeds — and hence the callback
/// runs — exactly when every declared capability was acquired.
pub proof fn lemma_success_iff_all_acquired(probes: Seq<Probe>)
    ensures
        classify(probes) == Ok::<(), ListenError>(()) <==> forall|k: int|
            0 <= k < probes.len() ==> probes[k] is Acquired,
    decreases probes.len(),
{
    if probes.len() > 0 {
        lemma_success_iff_all_acquired(probes.drop_first());
        if classify(probes) == Ok::<(), ListenError>(()) {
            assert forall|k: int| 0 <= k < probes.len() implies probes[k] is Acquired by {
                if k > 0 {
                    assert(probes.drop_first()[k - 1] == probes[k]);
                }
            }
        } else {
            if forall|k: int| 0 <= k < probes.len() ==> probes[k] is Acquired {
                assert(forall|k: int|
                    0 <= k < probes.drop_first().len() ==> probes.drop_first()[k]
                        == probes[k + 1]);
            }
        }
    }
}

/// The first failing capability decides the attempt, and later capabilities
/// are never probed into the decision: with every capability before `i`
/// acquired, a destroyed value at `i` yields the permanent failure and a
/// contended lock at `i` the recoverable one, whatever stands after `i`.
pub proof fn lemma_first_failure_decides(probes: Seq<Probe>, i: int)
    requires
        0 <= i < probes.len(),
        forall|k: int| 0 <= k < i ==> probes[k] is Acquired,
        !(probes[i] is Acquired),
    ensures
        probes[i] is Gone ==> classify(probes) == Err::<(), ListenError>(
            ListenError::RequirementDeleted,
        ),
        probes[i] is Contended ==> classify(probes) == Err::<(), ListenError>(
            ListenError::LockUnavailable,
        ),
    decreases i,
{
    if i > 0 {
        assert(probes.first() is Acquired);
        assert(forall|k: int|
            0 <= k < i - 1 ==> probes.drop_first()[k] == probes[k + 1]);
        assert(probes.drop_first()[i - 1] == probes[i]);
        lemma_first_failure_decides(probes.drop_first(), i - 1);
    }
}

/// A binding of one write-mode capability to a callback: the hand-written
/// form of a declaration with a single read-write field. While the cell is
/// write-locked, the callback receives the event and the current value and
/// returns the value to store.
#[verifier::reject_recursive_types(T)]
#[verifier::reject_recursive_types(E)]
#[verifier::reject_recursive_types(F)]
pub struct WriteBinding<T, E, F> where
    T: Send + Sync,
    E: Event,
    F: Fn(&E, &T) -> T + Send + Sync,
 {
    target: WeakCell<T>,
    func: F,
    event: PhantomData<E>,
}

impl<T, E, F> WriteBinding<T, E, F> where
    T: Send + Sync,
    E: Event,
    F: Fn(&E, &T) -> T + Send + Sync,
 {
    #[verifier::type_invariant]
    spec fn inv(&self) -> bool {
        forall|e: E, t: T| call_requires(self.func, (&e, &t))
    }

    /// The declared capability: the cell the reaction needs, write-mode.
    pub closed spec fn spec_target(&self) -> WeakCell<T> {
        self.target
    }

    /// The bound callback.
    pub closed spec fn spec_func(&self) -> F {
        self.func
    }

    /// Declares one write-mode capability on `target`, bound to `func`.
    pub fn new(target: WeakCell<T>, func: F) -> (binding: WriteBinding<T, E, F>)
        requires
            forall|e: E, t: T| call_requires(func, (&e, &t)),
        ensures
            binding.spec_target() == target,
            binding.spec_func() == func,
    {
        WriteBinding { target, func, event: PhantomData }
    }

    /// Registers a listener on `handler` that attempts this declaration on
    /// every dispatched event, following the acquisition protocol.
    pub fn listen(target: WeakCell<T>, handler: &mut EventHandler<E, WriteBinding<T, E, F>>, func: F)
        requires
            forall|e: E, t: T| call_requires(func, (&e, &t)),
            old(handler).id_bound() < ListenerID::MAX,
        ensures
            final(handler).id_bound() == old(handler).id_bound() + 1,
            final(handler).listeners().len() == old(handler).listeners().len() + 1,
            forall|i: int|
                0 <= i < old(handler).listeners().len() ==> final(handler).listeners()[i] == old(
                    handler,
                ).listeners()[i],
            final(handler).listeners().last().id == old(handler).id_bound(),
            final(handler).listeners().last().func.spec_target() == target,
            final(handler).listeners().last().func.spec_func() == func,
    {
        let l = Listener { id: handler.new_id(), func: WriteBinding::new(target, func) };
        handler.insert(l);
    }
}

impl<T, E, F> Reaction<E> for WriteBinding<T, E, F> where
    T: Send + Sync,
    E: Event,
    F: Fn(&E, &T) -> T + Send + Sync,
 {
    fn attempt(&self, e: &E) -> Result<(), ListenError> {
        proof {
            use_type_invariant(&*self);
        }
        let cell = match self.target.upgrade() {
            None => {
                return Err(ListenError::RequirementDeleted);
            },
            Some(c) => c,
        };
        let result = match cell.try_write_hold() {
            None => Err(ListenError::LockUnavailable),
            Some(mut hold) => {
                let updated = (self.func)(e, hold.value());
                hold.store(updated);
                Ok(())
            },
        };
        result
    }
}

/// A binding of one read-mode capability to a callback: the hand-written
/// form of a declaration with a single read-only field. While the cell is
/// read-locked, the callback receives the event and the current value.
#[verifier::reject_recursive_types(T)]
#[verifier::reject_recursive_types(E)]
#[verifier::reject_recursive_types(F)]
pub struct ReadBinding<T, E, F> where
    T: Send + Sync,
    E: Event,
    F: Fn(&E, &T) -> () + Send + Sync,
 {
    target: WeakCell<T>,
    func: F,
    event: PhantomData<E>,
}

impl<T, E, F> ReadBinding<T, E, F> where
    T: Send + Sync,
    E: Event,
    F: Fn(&E, &T) -> () + Send + Sync,
 {
    #[verifier::type_invariant]
    spec fn inv(&self) -> bool {
        forall|e: E, t: T| call_requires(self.func, (&e, &t))
    }

    /// The declared capability: the cell the reaction needs, read-mode.
    pub closed spec fn spec_target(&self) -> WeakCell<T> {
        self.target
    }

    /// The bound callback.
    pub closed spec fn spec_func(&self) -> F {
        self.func
    }

    /// Declares one read-mode capability on `target`, bound to `func`.
    pub fn new(target: WeakCell<T>, func: F) -> (binding: ReadBinding<T, E, F>)
        requires
            forall|e: E, t: T| call_requires(func, (&e, &t)),
        ensures
            binding.spec_target() == target,
            binding.spec_func() == func,
    {
        ReadBinding { target, func, event: PhantomData }
    }

    /// Registers a listener on `handler` that attempts this declaration on
    /// every dispatched event, following the acquisition protocol.
    pub fn listen(target: WeakCell<T>, handler: &mut EventHandler<E, ReadBinding<T, E, F>>, func: F)
        requires
            forall|e: E, t: T| call_requires(func, (&e, &t)),
            old(handler).id_bound() < ListenerID::MAX,
        ensures
            final(handler).id_bound() == old(handler).id_bound() + 1,
            final(handler).listeners().len() == old(handler).listeners().len() + 1,
            forall|i: int|
                0 <= i < old(handler).listeners().len() ==> final(handler).listeners()[i] == old(
                    handler,
                ).listeners()[i],
            final(handler).listeners().last().id == old(handler).id_bound(),
            final(handler).listeners().last().func.spec_target() == target,
            final(handler).listeners().last().func.spec_func() == func,
    {
        let l = Listener { id: handler.new_id(), func: ReadBinding::new(target, func) };
        handler.insert(l);
    }
}

impl<T, E, F> Reaction<E> for ReadBinding<T, E, F> where
    T: Send + Sync,
    E: Event,
    F: Fn(&E, &T) -> () + Send + Sync,
 {
    fn attempt(&self, e: &E) -> Result<(), ListenError> {
        proof {
            use_type_invariant(&*self);
        }
        let cell = match self.target.upgrade() {
            None => {
                return Err(ListenError::RequirementDeleted);
            },
            Some(c) => c,
        };
        let result = match cell.try_read_hold() {
            None => Err(ListenError::LockUnavailable),
            Some(hold) => {
                (self.func)(e, hold.value());
                Ok(())
            },
        };
        result
    }
}

/// A binding of two capabilities, the first read-mode and the second
/// write-mode, in that declaration order: the hand-written form of a
/// declaration with a read-only field followed by a read-write field. With
/// both cells locked, the callback receives the event, the first value, and
/// the second value, and returns the value to store in the second cell.
#[verifier::reject_recursive_types(T)]
#[verifier::reject_recursive_types(U)]
#[verifier::reject_recursive_types(E)]
#[verifier::reject_recursive_types(F)]
pub struct ReadWriteBinding<T, U, E, F> where
    T: Send + Sync,
    U: Send + Sync,
    E: Event,
    F: Fn(&E, &T, &U) -> U + Send + Sync,
 {
    first: WeakCell<T>,
    second: WeakCell<U>,
    func: F,
    event: PhantomData<E>,
}

impl<T, U, E, F> ReadWriteBinding<T, U, E, F> where
    T: Send + Sync,
    U: Send + Sync,
    E: Event,
    F: Fn(&E, &T, &U) -> U + Send + Sync,
 {
    #[verifier::type_invariant]
    spec fn inv(&self) -> bool {
        forall|e: E, t: T, u: U| call_requires(self.func, (&e, &t, &u))
    }

    /// The first declared capability: read-mode, probed first.
    pub closed spec fn spec_first(&self) -> WeakCell<T> {
        self.first
    }

    /// The second declared capability: write-mode, probed once the first is
    /// acquired.
    pub closed spec fn spec_second(&self) -> WeakCell<U> {
        self.second
    }

    /// The bound callback.
    pub closed spec fn spec_func(&self) -> F {
        self.func
    }

    /// Declares a read-mode capability on `first` and a write-mode
    /// capability on `second`, bound to `func`.
    pub fn new(first: WeakCell<T>, second: WeakCell<U>, func: F) -> (binding: ReadWriteBinding<
        T,
        U,
        E,
        F,
    >)
        requires
            forall|e: E, t: T, u: U| call_requires(func, (&e, &t, &u)),
        ensures
            binding.spec_first() == first,
            binding.spec_second() == second,
            binding.spec_func() == func,
    {
        ReadWriteBinding { first, second, func, event: PhantomData }
    }

    /// Registers a listener on `handler` that attempts this declaration on
    /// every dispatched event, following the acquisition protocol.
    pub fn listen(
        first: WeakCell<T>,
        second: WeakCell<U>,
        handler: &mut EventHandler<E, ReadWriteBinding<T, U, E, F>>,
        func: F,
    )
        requires
            forall|e: E, t: T, u: U| call_requires(func, (&e, &t, &u)),
            old(handler).id_bound() < ListenerID::MAX,
        ensures
            final(handler).id_bound() == old(handler).id_bound() + 1,
            final(handler).listeners().len() == old(handler).listeners().len() + 1,
            forall|i: int|
                0 <= i < old(handler).listeners().len() ==> final(handler).listeners()[i] == old(
                    handler,
                ).listeners()[i],
            final(handler).listeners().last().id == old(handler).id_bound(),
            final(handler).listeners().last().func.spec_first() == first,
            final(handler).listeners().last().func.spec_second() == second,
            final(handler).listeners().last().func.spec_func() == func,
    {
        let l = Listener { id: handler.new_id(), func: ReadWriteBinding::new(first, second, func) };
        handler.insert(l);
    }
}

impl<T, U, E, F> Reaction<E> for ReadWriteBinding<T, U, E, F> where
    T: Send + Sync,
    U: Send + Sync,
    E: Event,
    F: Fn(&E, &T, &U) -> U + Send + Sync,
 {
    fn attempt(&self, e: &E) -> Result<(), ListenError> {
        proof {
            use_type_invariant(&*self);
        }
        let first_cell = match self.first.upgrade() {
            None => {
                return Err(ListenError::RequirementDeleted);
            },
            Some(c) => c,
        };
        let first_hold = match first_cell.try_read_hold() {
            None => {
                return Err(ListenError::LockUnavailable);
            },
            Some(h) => h,
        };
        let second_cell = match self.second.upgrade() {
            None => {
                return Err(ListenError::RequirementDeleted);
            },
            Some(c) => c,
        };
        let mut second_hold = match second_cell.try_write_hold() {
            None => {
                return Err(ListenError::LockUnavailable);
            },
            Some(h) => h,
        };
        let updated = (self.func)(e, first_hold.value(), second_hold.value());
        second_hold.store(updated);
        Ok(())
    }
}

} // verus!
