//! Behavioural tests of the event-dispatch protocol: eviction, retry under
//! contention, all-or-nothing acquisition, fan-out completeness, id
//! uniqueness, and the three-listener scenario.

use std::sync::atomic::AtomicUsize;
use std::sync::atomic::Ordering;
use std::sync::Arc;

use covalent::capability::ReadBinding;
use covalent::capability::ReadWriteBinding;
use covalent::capability::WriteBinding;
use covalent::cell::SharedCell;
use covalent::events::Event;
use covalent::events::EventHandler;
use covalent::events::TickEvent;

struct Ping;
impl Event for Ping {}

fn bump(_e: &Ping, n: &u64) -> u64 {
    *n + 1
}

/// Eviction idempotence: once the sole capability's strong owner is
/// dropped, the next dispatch removes the listener, and a further dispatch
/// leaves the listener count unchanged.
#[test]
fn eviction_idempotence() {
    let mut handler = EventHandler::new();
    let cell = SharedCell::new(0u64);
    WriteBinding::listen(cell.downgrade(), &mut handler, bump);
    assert_eq!(handler.len(), 1);

    drop(cell);
    handler.handle(Ping);
    assert_eq!(handler.len(), 0);

    handler.handle(Ping);
    assert_eq!(handler.len(), 0);
}

/// Dispatching to an empty handler is a no-op.
#[test]
fn empty_dispatch() {
    let mut handler: EventHandler<Ping, WriteBinding<u64, Ping, fn(&Ping, &u64) -> u64>> =
        EventHandler::new();
    assert_eq!(handler.len(), 0);
    handler.handle(Ping);
    assert_eq!(handler.len(), 0);
}

/// Contention retry: a capability held in a conflicting mode by an external
/// holder for the duration of one dispatch never gets the listener evicted;
/// once the external hold is released, a later dispatch succeeds.
#[test]
fn contention_is_retried_not_evicted() {
    let mut handler = EventHandler::new();
    let cell = SharedCell::new(0u64);
    WriteBinding::listen(cell.downgrade(), &mut handler, bump);

    {
        // A read hold conflicts with the listener's write-mode acquisition
        // for the whole dispatch.
        let _hold = cell.try_read_hold().expect("fresh cell must be lockable");
        handler.handle(Ping);
    }
    assert_eq!(handler.len(), 1);
    assert_eq!(cell.try_read_value(), Some(0));

    handler.handle(Ping);
    assert_eq!(handler.len(), 1);
    assert_eq!(cell.try_read_value(), Some(1));
}

/// All-or-nothing acquisition: with two declared capabilities, where the
/// first upgrades but the second's owner has been dropped, the reaction body
/// never executes and the listener is evicted.
#[test]
fn all_or_nothing_acquisition() {
    let mut handler = EventHandler::new();
    let first = SharedCell::new(7u64);
    let second = SharedCell::new(0u64);

    let invocations = Arc::new(AtomicUsize::new(0));
    let seen = Arc::clone(&invocations);
    let react = move |_e: &Ping, a: &u64, b: &u64| -> u64 {
        seen.fetch_add(1, Ordering::SeqCst);
        *a + *b
    };
    ReadWriteBinding::listen(first.downgrade(), second.downgrade(), &mut handler, react);

    drop(second);
    handler.handle(Ping);

    assert_eq!(invocations.load(Ordering::SeqCst), 0);
    assert_eq!(handler.len(), 0);
    // The first capability was only acquired, never mutated.
    assert_eq!(first.try_read_value(), Some(7));
}

/// With both capabilities alive and free, the two-capability binding runs
/// its reaction exactly once per dispatch, reading the first cell and
/// updating the second.
#[test]
fn two_capability_success() {
    let mut handler = EventHandler::new();
    let first = SharedCell::new(40u64);
    let second = SharedCell::new(1u64);

    let invocations = Arc::new(AtomicUsize::new(0));
    let seen = Arc::clone(&invocations);
    let react = move |_e: &Ping, a: &u64, b: &u64| -> u64 {
        seen.fetch_add(1, Ordering::SeqCst);
        *a + *b
    };
    ReadWriteBinding::listen(first.downgrade(), second.downgrade(), &mut handler, react);

    handler.handle(Ping);
    assert_eq!(invocations.load(Ordering::SeqCst), 1);
    assert_eq!(second.try_read_value(), Some(41));
    assert_eq!(handler.len(), 1);
}

/// A read-mode capability observes the value without changing it, runs once
/// per dispatch while its cell lives, and is evicted once the cell is
/// dropped.
#[test]
fn read_binding_observes() {
    let mut handler = EventHandler::new();
    let cell = SharedCell::new(5u64);

    let observed = Arc::new(AtomicUsize::new(0));
    let sink = Arc::clone(&observed);
    let watch = move |_e: &Ping, n: &u64| {
        sink.fetch_add(*n as usize, Ordering::SeqCst);
    };
    ReadBinding::listen(cell.downgrade(), &mut handler, watch);

    handler.handle(Ping);
    assert_eq!(observed.load(Ordering::SeqCst), 5);
    assert_eq!(cell.try_read_value(), Some(5));
    assert_eq!(handler.len(), 1);

    // A read hold does not conflict with a read-mode capability.
    {
        let _hold = cell.try_read_hold().expect("fresh cell must be lockable");
        handler.handle(Ping);
    }
    assert_eq!(observed.load(Ordering::SeqCst), 10);

    drop(cell);
    handler.handle(Ping);
    assert_eq!(handler.len(), 0);
    assert_eq!(observed.load(Ordering::SeqCst), 10);
}

/// Dispatch fan-out completeness: with independently failing and succeeding
/// listeners registered before one dispatch, exactly the permanently-failed
/// subset is removed and exactly the successful subset has its reaction
/// invoked exactly once.
#[test]
fn fanout_completeness() {
    let mut handler = EventHandler::new();

    let alive: Vec<SharedCell<u64>> = (0..3).map(|_| SharedCell::new(0u64)).collect();
    for cell in &alive {
        WriteBinding::listen(cell.downgrade(), &mut handler, bump);
    }
    for _ in 0..2 {
        let dead = SharedCell::new(0u64);
        WriteBinding::listen(dead.downgrade(), &mut handler, bump);
        drop(dead);
    }
    assert_eq!(handler.len(), 5);

    handler.handle(Ping);

    assert_eq!(handler.len(), 3);
    for cell in &alive {
        assert_eq!(cell.try_read_value(), Some(1));
    }
}

/// Id uniqueness: across a sequence of insertions with interleaved
/// removals, no two simultaneously registered listeners share an id, and
/// allocated ids never repeat.
#[test]
fn id_uniqueness() {
    let mut handler: EventHandler<Ping, WriteBinding<u64, Ping, fn(&Ping, &u64) -> u64>> =
        EventHandler::new();
    let mut seen: Vec<i64> = Vec::new();
    for _ in 0..4 {
        seen.push(handler.new_id());
    }
    assert_eq!(seen, vec![0, 1, 2, 3]);

    // Interleave a registration (which takes id 4) that is removed by the
    // next dispatch; its id is not reused.
    let dead = SharedCell::new(0u64);
    WriteBinding::listen(dead.downgrade(), &mut handler, bump as fn(&Ping, &u64) -> u64);
    drop(dead);
    handler.handle(Ping);
    assert_eq!(handler.len(), 0);

    for _ in 0..4 {
        seen.push(handler.new_id());
    }
    assert_eq!(&seen[4..], &[5, 6, 7, 8]);
    for i in 0..seen.len() {
        for j in 0..seen.len() {
            if i != j {
                assert_ne!(seen[i], seen[j]);
            }
        }
    }
}

/// The concrete three-listener scenario on a tick handler: A's referenced
/// state is dropped, B's state is locked by an external holder for the whole
/// dispatch, and C's state is free. One dispatch must remove A, run C
/// exactly once, and leave B registered with its reaction not invoked.
#[test]
fn three_listeners_one_tick() {
    let mut handler = EventHandler::new();

    let a = SharedCell::new(0u64);
    let b = SharedCell::new(0u64);
    let c = SharedCell::new(0u64);

    fn tick_bump(_e: &TickEvent, n: &u64) -> u64 {
        *n + 1
    }
    WriteBinding::listen(a.downgrade(), &mut handler, tick_bump);
    WriteBinding::listen(b.downgrade(), &mut handler, tick_bump);
    WriteBinding::listen(c.downgrade(), &mut handler, tick_bump);
    assert_eq!(handler.len(), 3);

    drop(a);
    {
        let _hold = b.try_read_hold().expect("fresh cell must be lockable");
        handler.handle(TickEvent { delta_micros: 16_000 });
    }

    assert_eq!(handler.len(), 2);
    assert_eq!(c.try_read_value(), Some(1));
    assert_eq!(b.try_read_value(), Some(0));

    // Once the hold is gone, the next dispatch reaches B.
    handler.handle(TickEvent { delta_micros: 16_000 });
    assert_eq!(handler.len(), 2);
    assert_eq!(b.try_read_value(), Some(1));
    assert_eq!(c.try_read_value(), Some(2));
}
