//! The generic event handler: listener registration, identity, and the
//! dispatch protocol that retries contended listeners and evicts listeners
//! whose required state has been destroyed.
//!
//! An [`EventHandler`] owns the listeners for one event type. Raising an
//! event with [`EventHandler::handle`] attempts every registered listener at
//! least once. A listener whose locks are contended is retried within the
//! same dispatch; a listener whose weakly-referenced state no longer exists
//! is removed, permanently and silently. The caller of `handle` never
//! observes either failure.

use vstd::prelude::*;
use core::marker::PhantomData;
use rayon::iter::IntoParallelIterator;
use rayon::iter::ParallelIterator;
use crate::dispatch::busy_script;
use crate::dispatch::ids_strictly_increasing;
use crate::dispatch::script_evicts;
use crate::dispatch::script_settled;
use crate::dispatch::script_wf;
use crate::dispatch::scripts_wf;
use crate::dispatch::survivors;
use crate::dispatch::lemma_survivors_push;
use crate::dispatch::lemma_survivors_sorted;
use crate::dispatch::lemma_survivors_subset;

verus! {

/// Why a listener attempt did not run its reaction.
#[derive(Clone, Copy, Debug, PartialEq, Eq, Structural)]
pub enum ListenError {
    /// A required variable is stored behind a weak reference that could not
    /// be upgraded: the variable has been deleted. In response, the listener
    /// is deleted as well.
    RequirementDeleted,
    /// One of the required variables could not be locked at this time, for
    /// example because another holder currently has a conflicting lock. The
    /// listener will be retried later, hopefully after the lock is released.
    LockUnavailable,
}

/// The identity of a listener within its event handler.
pub type ListenerID = i64;

/// A generic event. Any value type can serve as an event; see
/// [`EventHandler`] for how events reach listeners.
pub trait Event: Send + Sync {}

/// A registered reaction: one attempt to acquire whatever shared state the
/// listener declared and, only if all of it is acquired, run the reaction
/// body.
///
/// The outcome of an attempt depends on which locks other threads hold and
/// which values they have dropped at that instant, so no contract constrains
/// it; the dispatch protocol is verified for every outcome an attempt can
/// return.
pub trait Reaction<E: Event>: Send + Sync {
    /// Attempts the reaction once against `e`.
    fn attempt(&self, e: &E) -> Result<(), ListenError>;
}

/// Listens for an event. Exists inside an [`EventHandler`]; create one by
/// pairing a fresh id from [`EventHandler::new_id`] with a reaction.
pub struct Listener<R> {
    /// A uniquely generated id for this listener, which allows the event
    /// handler to locate specific listeners if required.
    pub id: ListenerID,

    /// The reaction attempted whenever an event is dispatched. When it first
    /// reports that required state has been deleted, this listener is
    /// deleted.
    pub func: R,
}

/// How many additional rounds of retries one dispatch grants a listener
/// whose locks stay contended. A listener is attempted once per dispatch and
/// then retried, against the same event, up to this many more times; one
/// still contended after the last round is left registered, not run and not
/// removed, until the next dispatch. The bound is a deliberate policy: an
/// unbounded retry loop would let one perpetually contended listener stall
/// the dispatch forever.
pub const RETRY_ROUNDS: usize = 16;

/// How one attempt outcome changes a listener's dispatch bookkeeping:
/// success and permanent failure settle the listener (only the latter marks
/// it evicted); contention leaves it pending for the next round.
spec fn step_state(o: Result<(), ListenError>, pend: bool, ev: bool) -> bool {
    match o {
        Ok(()) => !pend && !ev,
        Err(ListenError::LockUnavailable) => pend && !ev,
        Err(ListenError::RequirementDeleted) => !pend && ev,
    }
}

/// Attempts the listener when it is still pending, and does nothing
/// otherwise. The parallel fan-out maps this over every listener.
pub(crate) fn attempt_if<E: Event, R: Reaction<E>>(l: &Listener<R>, pending: bool, e: &E) -> (r:
    Option<Result<(), ListenError>>)
    ensures
        r is Some <==> pending,
{
    if pending {
        Some(l.func.attempt(e))
    } else {
        None
    }
}

/// One dispatch round, fanned out across the worker pool.
///
/// Relies on rayon's parallel iterator over an index range:
/// `into_par_iter().map(..).collect()` on an indexed parallel iterator
/// produces one result per index, in index order, calling the mapped
/// function ([`attempt_if`]) exactly once per index. Which `Some` outcome
/// each pending listener gets depends on the locks other threads hold, so
/// only the shape is stated; the `Some`-ness comes from `attempt_if`'s own
/// contract.
#[verifier::external_body]
fn attempt_round<E: Event, R: Reaction<E>>(
    set: &Vec<Listener<R>>,
    pending: &Vec<bool>,
    e: &E,
) -> (outcomes: Vec<Option<Result<(), ListenError>>>)
    requires
        pending@.len() == set@.len(),
    ensures
        outcomes@.len() == set@.len(),
        forall|i: int| 0 <= i < outcomes@.len() ==> (outcomes@[i] is Some <==> pending@[i]),
{
    (0..set.len()).into_par_iter().map(|i: usize| attempt_if(&set[i], pending[i], e)).collect()
}

/// Whether any listener is still pending a retry.
fn any_true(v: &Vec<bool>) -> (r: bool)
    ensures
        r == exists|i: int| 0 <= i < v@.len() && v@[i],
{
    let mut i: usize = 0;
    while i < v.len()
        invariant
            i <= v@.len(),
            forall|j: int| 0 <= j < i ==> !v@[j],
        decreases v@.len() - i,
    {
        if v[i] {
            return true;
        }
        i = i + 1;
    }
    false
}

/// Owns a collection of listeners for one event type `E` and dispatches each
/// raised event to all of them.
#[verifier::reject_recursive_types(E)]
#[verifier::reject_recursive_types(R)]
pub struct EventHandler<E: Event, R: Reaction<E>> {
    next_id: ListenerID,
    set: Vec<Listener<R>>,
    event: PhantomData<E>,
}

impl<E: Event, R: Reaction<E>> EventHandler<E, R> {
    /// The registered listeners, in registration order.
    pub closed spec fn listeners(&self) -> Seq<Listener<R>> {
        self.set@
    }

    /// The registered listener ids, in registration order.
    pub open spec fn ids(&self) -> Seq<ListenerID> {
        self.listeners().map_values(|l: Listener<R>| l.id)
    }

    /// Every id this handler has ever allocated is below this bound, so ids
    /// at or above it are fresh.
    pub closed spec fn id_bound(&self) -> ListenerID {
        self.next_id
    }

    #[verifier::type_invariant]
    spec fn wf(&self) -> bool {
        &&& forall|i: int, j: int|
            0 <= i < j < self.set@.len() ==> self.set@[i].id < self.set@[j].id
        &&& forall|i: int| 0 <= i < self.set@.len() ==> self.set@[i].id < self.next_id
    }

    /// An empty handler. Ids start from zero.
    pub fn new() -> (handler: EventHandler<E, R>)
        ensures
            handler.listeners() == Seq::<Listener<R>>::empty(),
            handler.id_bound() == 0,
            ids_strictly_increasing(handler.listeners()),
    {
        let handler = EventHandler { next_id: 0, set: Vec::new(), event: PhantomData };
        proof {
            use_type_invariant(&handler);
        }
        handler
    }

    /// The number of currently registered listeners.
    pub fn len(&self) -> (n: usize)
        ensures
            n == self.listeners().len(),
    {
        self.set.len()
    }

    /// The id the next registration will receive: callers that cannot track
    /// [`EventHandler::id_bound`] themselves read it here, for instance to
    /// test that the id space is not exhausted before asking for a fresh id.
    pub fn next_listener_id(&self) -> (id: ListenerID)
        ensures
            id == self.id_bound(),
    {
        self.next_id
    }

    /// Allocates a fresh, monotonically increasing listener id. The result
    /// is distinct from every id this handler has handed out before, so it
    /// never collides with a registered listener.
    pub fn new_id(&mut self) -> (id: ListenerID)
        requires
            old(self).id_bound() < ListenerID::MAX,
        ensures
            id == old(self).id_bound(),
            final(self).id_bound() == old(self).id_bound() + 1,
            final(self).listeners() == old(self).listeners(),
            forall|k: int| 0 <= k < final(self).ids().len() ==> final(self).ids()[k] < id,
    {
        proof {
            use_type_invariant(&*self);
        }
        let id = self.next_id;
        self.next_id = self.next_id + 1;
        id
    }

    /// Adds a listener under its id. The id must be fresh: allocated by
    /// [`EventHandler::new_id`] on this handler and not yet registered.
    pub fn insert(&mut self, l: Listener<R>)
        requires
            l.id < old(self).id_bound(),
            forall|k: int| 0 <= k < old(self).ids().len() ==> old(self).ids()[k] < l.id,
        ensures
            final(self).listeners() == old(self).listeners().push(l),
            final(self).id_bound() == old(self).id_bound(),
            ids_strictly_increasing(final(self).listeners()),
    {
        proof {
            use_type_invariant(&*self);
            assert(forall|k: int|
                0 <= k < old(self).set@.len() ==> #[trigger] old(self).set@[k].id == old(
                    self,
                ).ids()[k]);
        }
        let mut set = Vec::new();
        std::mem::swap(&mut set, &mut self.set);
        set.push(l);
        std::mem::swap(&mut set, &mut self.set);
        proof {
            use_type_invariant(&*self);
        }
    }

    /// Handles the given event by passing it through all registered
    /// listeners.
    ///
    /// Every listener is attempted at least once. A listener whose locks are
    /// contended is retried against the same event, up to [`RETRY_ROUNDS`]
    /// further rounds; one whose required state has been deleted is removed.
    /// Which outcome each attempt returns depends on what other threads hold
    /// and have dropped, so the guarantee is over scripts: for some
    /// well-formed script per listener (see
    /// [`script_wf`](crate::dispatch::script_wf)), exactly the listeners
    /// whose script ends in the permanent failure are removed, in one pass,
    /// and the rest keep their registration order. The caller observes no
    /// error either way.
    pub fn handle(&mut self, e: E)
        ensures
            final(self).id_bound() == old(self).id_bound(),
            final(self).listeners().len() <= old(self).listeners().len(),
            forall|l: Listener<R>|
                final(self).listeners().contains(l) ==> old(self).listeners().contains(l),
            exists|scripts: Seq<Seq<Result<(), ListenError>>>|
                #[trigger] scripts_wf(scripts, old(self).listeners().len(), RETRY_ROUNDS as nat)
                    && final(self).listeners() == survivors(old(self).listeners(), scripts),
            ids_strictly_increasing(final(self).listeners()),
    {
        proof {
            use_type_invariant(&*self);
        }
        let ghost ls = self.set@;
        let n = self.set.len();
        let mut pending: Vec<bool> = vec![true; n];
        let mut evicted: Vec<bool> = vec![false; n];
        let ghost mut scripts = Seq::new(n as nat, |i: int| busy_script(0));
        let mut round: usize = 0;
        loop
            invariant
                self.set@ == ls,
                n == ls.len(),
                pending@.len() == n,
                evicted@.len() == n,
                scripts.len() == n,
                round <= RETRY_ROUNDS + 1,
                forall|i: int|
                    0 <= i < n && pending@[i] ==> #[trigger] scripts[i] == busy_script(round as nat)
                        && !evicted@[i],
                forall|i: int|
                    0 <= i < n && !pending@[i] ==> script_settled(#[trigger] scripts[i])
                        && scripts[i].len() <= round && evicted@[i] == script_evicts(scripts[i]),
            ensures
                self.set@ == ls,
                pending@.len() == n,
                evicted@.len() == n,
                scripts.len() == n,
                round <= RETRY_ROUNDS + 1,
                forall|i: int|
                    0 <= i < n && pending@[i] ==> #[trigger] scripts[i] == busy_script(round as nat)
                        && !evicted@[i],
                forall|i: int|
                    0 <= i < n && !pending@[i] ==> script_settled(#[trigger] scripts[i])
                        && scripts[i].len() <= round && evicted@[i] == script_evicts(scripts[i]),
                round == RETRY_ROUNDS + 1 || forall|i: int| 0 <= i < n ==> !pending@[i],
            decreases RETRY_ROUNDS + 1 - round,
        {
            if round > RETRY_ROUNDS {
                break;
            }
            if !any_true(&pending) {
                break;
            }
            let outcomes = attempt_round(&self.set, &pending, &e);
            let ghost pend0 = pending@;
            let ghost ev0 = evicted@;
            let ghost scr0 = scripts;
            let mut i: usize = 0;
            while i < n
                invariant
                    i <= n,
                    n == ls.len(),
                    round <= RETRY_ROUNDS,
                    outcomes@.len() == n,
                    pending@.len() == n,
                    evicted@.len() == n,
                    scripts.len() == n,
                    pend0.len() == n,
                    ev0.len() == n,
                    scr0.len() == n,
                    forall|j: int| 0 <= j < n ==> (outcomes@[j] is Some <==> pend0[j]),
                    forall|j: int|
                        0 <= j < n && pend0[j] ==> #[trigger] scr0[j] == busy_script(round as nat)
                            && !ev0[j],
                    forall|j: int|
                        0 <= j < n && !pend0[j] ==> script_settled(#[trigger] scr0[j])
                            && scr0[j].len() <= round && ev0[j] == script_evicts(scr0[j]),
                    forall|j: int|
                        i <= j < n ==> pending@[j] == pend0[j] && evicted@[j] == ev0[j]
                            && scripts[j] == scr0[j],
                    forall|j: int|
                        0 <= j < i && !pend0[j] ==> pending@[j] == pend0[j] && evicted@[j] == ev0[j]
                            && scripts[j] == scr0[j],
                    forall|j: int|
                        0 <= j < i && pend0[j] ==> #[trigger] scripts[j] == scr0[j].push(
                            outcomes@[j].unwrap(),
                        ),
                    forall|j: int|
                        0 <= j < i && pend0[j] ==> step_state(
                            outcomes@[j].unwrap(),
                            pending@[j],
                            evicted@[j],
                        ),
                decreases n - i,
            {
                let o = outcomes[i];
                match o {
                    None => {},
                    Some(r) => {
                        proof {
                            scripts = scripts.update(i as int, scripts[i as int].push(r));
                        }
                        match r {
                            Ok(()) => {
                                pending[i] = false;
                            },
                            Err(ListenError::LockUnavailable) => {},
                            Err(ListenError::RequirementDeleted) => {
                                pending[i] = false;
                                evicted[i] = true;
                            },
                        }
                    },
                }
                i = i + 1;
            }
            proof {
                assert forall|j: int| 0 <= j < n && pending@[j] implies #[trigger] scripts[j]
                    == busy_script((round + 1) as nat) && !evicted@[j] by {
                    assert(pend0[j]);
                    assert(outcomes@[j].unwrap() == Err::<(), ListenError>(
                        ListenError::LockUnavailable,
                    ));
                    assert(busy_script(round as nat).push(
                        Err::<(), ListenError>(ListenError::LockUnavailable),
                    ) =~= busy_script((round + 1) as nat));
                }
                assert forall|j: int| 0 <= j < n && !pending@[j] implies script_settled(
                    #[trigger] scripts[j],
                ) && scripts[j].len() <= round + 1 && evicted@[j] == script_evicts(scripts[j]) by {
                    if pend0[j] {
                        let o = outcomes@[j].unwrap();
                        assert(scripts[j] == busy_script(round as nat).push(o));
                        assert(o != Err::<(), ListenError>(ListenError::LockUnavailable));
                        assert(scripts[j].last() == o);
                        assert(forall|k: int|
                            0 <= k < scripts[j].len() - 1 ==> scripts[j][k] == Err::<
                                (),
                                ListenError,
                            >(ListenError::LockUnavailable));
                    }
                }
            }
            round = round + 1;
        }
        proof {
            assert forall|i: int| 0 <= i < n implies script_wf(
                #[trigger] scripts[i],
                RETRY_ROUNDS as nat,
            ) && evicted@[i] == script_evicts(scripts[i]) by {
                if pending@[i] {
                    assert(scripts[i] == busy_script((RETRY_ROUNDS + 1) as nat));
                    assert(scripts[i].last() == Err::<(), ListenError>(
                        ListenError::LockUnavailable,
                    ));
                }
            }
        }
        let mut old_set: Vec<Listener<R>> = Vec::new();
        std::mem::swap(&mut old_set, &mut self.set);
        let mut kept: Vec<Listener<R>> = Vec::new();
        let mut idx: usize = 0;
        proof {
            assert(ls.skip(0) =~= ls);
            assert(ls.take(0) =~= Seq::<Listener<R>>::empty());
            assert(scripts.take(0) =~= Seq::<Seq<Result<(), ListenError>>>::empty());
        }
        while idx < n
            invariant
                idx <= n,
                n == ls.len(),
                scripts.len() == n,
                evicted@.len() == n,
                old_set@ == ls.skip(idx as int),
                kept@ == survivors(ls.take(idx as int), scripts.take(idx as int)),
                forall|i: int| 0 <= i < n ==> evicted@[i] == script_evicts(#[trigger] scripts[i]),
            decreases n - idx,
        {
            let l = old_set.remove(0);
            proof {
                assert(l == ls[idx as int]);
                assert(old_set@ =~= ls.skip(idx as int + 1));
                lemma_survivors_push(
                    ls.take(idx as int),
                    scripts.take(idx as int),
                    l,
                    scripts[idx as int],
                );
                assert(ls.take(idx as int + 1) =~= ls.take(idx as int).push(ls[idx as int]));
                assert(scripts.take(idx as int + 1) =~= scripts.take(idx as int).push(
                    scripts[idx as int],
                ));
            }
            if !evicted[idx] {
                kept.push(l);
            }
            idx = idx + 1;
        }
        proof {
            assert(ls.take(n as int) =~= ls);
            assert(scripts.take(n as int) =~= scripts);
            assert(kept@ == survivors(ls, scripts));
            lemma_survivors_subset(ls, scripts);
            lemma_survivors_sorted(ls, scripts, self.next_id);
            assert(scripts_wf(scripts, ls.len(), RETRY_ROUNDS as nat));
        }
        std::mem::swap(&mut kept, &mut self.set);
        proof {
            use_type_invariant(&*self);
        }
    }
}

impl<E: Event, R: Reaction<E>> Default for EventHandler<E, R> {
    /// An empty handler, as [`EventHandler::new`] makes.
    fn default() -> (handler: Self)
        ensures
            handler.listeners() == Seq::<Listener<R>>::empty(),
            handler.id_bound() == 0,
            ids_strictly_increasing(handler.listeners()),
    {
        EventHandler::new()
    }
}

/// An event automatically fired every frame.
pub struct TickEvent {
    /// The time that has passed between this frame and the last frame, in
    /// microseconds.
    pub delta_micros: u64,
}

impl Event for TickEvent {

}

/// An event from the keyboard has been received.
#[derive(Debug)]
pub struct KeyboardEvent {
    /// Identifies the physical key pressed. This does not change when the
    /// user adjusts the host's keyboard map; use it when the physical
    /// location of the key matters more than its meaning, as for movement
    /// controls.
    pub scan_code: crate::input::ScanCode,

    /// Describes the input state of the key: pressed or released.
    pub state: crate::input::ElementState,

    /// Identifies the semantic meaning of the key, when the windowing
    /// backend can resolve one.
    pub virtual_keycode: Option<crate::input::VirtualKeyCode>,
}

impl Event for KeyboardEvent {

}

/// The mouse has been moved by a certain number of pixels in the X and Y
/// directions.
#[derive(Debug)]
pub struct MouseDeltaEvent {
    /// The difference in pixels between the mouse's horizontal position last
    /// frame and this frame.
    pub delta_x: i64,
    /// The difference in pixels between the mouse's vertical position last
    /// frame and this frame.
    pub delta_y: i64,
}

impl Event for MouseDeltaEvent {

}

/// The window the engine is running in has changed size. This event is also
/// emitted once at the start of running a scene.
#[derive(Debug)]
pub struct WindowResizeEvent {
    /// The new width of the window, in pixels.
    pub width: u32,
    /// The new height of the window, in pixels.
    pub height: u32,
}

impl Event for WindowResizeEvent {

}

} // verus!
